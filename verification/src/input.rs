//! Keyboard input sent to the game.
use vstd::prelude::*;

use crate::text::{encode_utf16, utf16_of_seq};

verus! {

/// One keyboard event as `SendInput` takes it.
#[derive(PartialEq, Eq, Structural, Clone, Copy, Debug)]
pub struct KeyEvent {
    /// The virtual key code (zero for a unicode event).
    pub virtual_key: u16,
    /// The hardware scan code; for a unicode event, the UTF-16 code unit.
    pub scan_code: u16,
    /// A key release rather than a key press.
    pub key_up: bool,
    /// The event carries a UTF-16 code unit rather than a virtual key.
    pub unicode: bool,
}

/// The event that types one UTF-16 code unit, pressed or released: as a
/// unicode character, or as the virtual key of the same number.
pub open spec fn unit_event(unit: u16, key_up: bool, unicode: bool) -> KeyEvent {
    if unicode {
        KeyEvent { virtual_key: 0, scan_code: unit, key_up, unicode: true }
    } else {
        KeyEvent { virtual_key: unit, scan_code: 0, key_up, unicode: false }
    }
}

/// The events that type a text: for each UTF-16 code unit, a press and then
/// a release.
pub open spec fn text_events_spec(units: Seq<u16>, unicode: bool) -> Seq<KeyEvent>
    decreases units.len(),
{
    if units.len() == 0 {
        Seq::empty()
    } else {
        text_events_spec(units.drop_last(), unicode).push(unit_event(units.last(), false, unicode)).push(
            unit_event(units.last(), true, unicode),
        )
    }
}

/// The keyboard events that type `text` into the game, the way chat
/// commands and stage numbers are entered.
pub fn text_key_events(text: &str, unicode: bool) -> (events: Vec<KeyEvent>)
    ensures
        events@ == text_events_spec(utf16_of_seq(text@), unicode),
{
    let units = encode_utf16(text);
    let mut events: Vec<KeyEvent> = Vec::new();
    let mut i: usize = 0;
    assert(units@.take(0) =~= Seq::<u16>::empty());
    while i < units.len()
        invariant
            i <= units@.len(),
            events@ == text_events_spec(units@.take(i as int), unicode),
        decreases units@.len() - i,
    {
        let unit = units[i];
        assert(units@.take(i + 1).drop_last() =~= units@.take(i as int));
        if unicode {
            events.push(KeyEvent { virtual_key: 0, scan_code: unit, key_up: false, unicode: true });
            events.push(KeyEvent { virtual_key: 0, scan_code: unit, key_up: true, unicode: true });
        } else {
            events.push(KeyEvent { virtual_key: unit, scan_code: 0, key_up: false, unicode: false });
            events.push(KeyEvent { virtual_key: unit, scan_code: 0, key_up: true, unicode: false });
        }
        i = i + 1;
    }
    assert(units@.take(units@.len() as int) =~= units@);
    events
}

/// The chat command that invites a player to the party: `/invite "name"`.
pub open spec fn invite_command_spec(player: Seq<char>) -> Seq<char> {
    seq!['/', 'i', 'n', 'v', 'i', 't', 'e', ' ', '"'] + player + seq!['"']
}

/// Builds the chat command that invites `player`.
pub fn invite_command(player: &str) -> (command: String)
    ensures
        command@ == invite_command_spec(player@),
{
    let mut command = String::new();
    crate::text::string_push(&mut command, '/');
    crate::text::string_push(&mut command, 'i');
    crate::text::string_push(&mut command, 'n');
    crate::text::string_push(&mut command, 'v');
    crate::text::string_push(&mut command, 'i');
    crate::text::string_push(&mut command, 't');
    crate::text::string_push(&mut command, 'e');
    crate::text::string_push(&mut command, ' ');
    crate::text::string_push(&mut command, '"');
    let n = player.unicode_len();
    let mut i: usize = 0;
    while i < n
        invariant
            n == player@.len(),
            i <= n,
            command@ == seq!['/', 'i', 'n', 'v', 'i', 't', 'e', ' ', '"'] + player@.take(i as int),
        decreases n - i,
    {
        let c = player.get_char(i);
        crate::text::string_push(&mut command, c);
        assert(player@.take(i + 1) =~= player@.take(i as int).push(c));
        i = i + 1;
    }
    crate::text::string_push(&mut command, '"');
    assert(player@.take(n as int) =~= player@);
    assert(command@ =~= invite_command_spec(player@));
    command
}

} // verus!
