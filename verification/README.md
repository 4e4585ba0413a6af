# bns_macros

A Blade & Soul automation toolkit whose decisions are verified with Verus.

- `src/` is the verified library: pixel colours and the soul indicator
  (`color`), text parsing (`text`), the bots' INI configuration (`settings`),
  the class macros as step machines (`classes`), the macro's main loop and
  keyboard hook decisions (`hook`), window lookup and switching (`game`),
  pointer chains into the game's memory (`memory`), keyboard input (`input`),
  and the dungeon bots (`bot`): their routines as scripts, the machine that
  runs them, their run count (`bot::runs`) and their statistics.
- `app/` runs the programs (`macro`, `legacy-macro`, `poharan`, `aerodrome`,
  `aerodrome-exp`): it reads the screen, the keyboard and the game's memory,
  sends input, and performs each step the library decides.
- `tests/` runs the library on concrete inputs.
