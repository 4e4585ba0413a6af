//! What some of the bots' routines do, stated over the machine that runs
//! them.
use vstd::prelude::*;

use super::vm::{since, timer_of, vm_next, Act, Awaiting, Cond, Event, Hotkey, Op, Place, Step, TimerId, VmView};
use crate::keys::{VK_F, VK_RETURN, VK_W};
use super::{aerodrome, common, poharan, script_spec, Script};

verus! {

proof fn lemma_boss1_program()
    ensures
        script_spec(Script::PoharanMoveToBoss1) == poharan::poharan_move_to_boss_1_spec(),
{
    reveal(script_spec);
}

/// Waiting for the portal to Tae Jangum. Right after the routine to boss 1
/// has opened the portal (its call of `PoharanOpenPortal1`), it starts a
/// timer and asks whether the portal icon shows. A yes ends the wait: the
/// next action is the warlock's animation speed hotkey. A no ends the
/// routine with `false` when more than 3000 ms have passed since the timer
/// started, and else asks again.
pub proof fn lemma_boss1_waits_for_the_portal(u: VmView, e0: Event, e1: Event, e2: Event, e3: Event, e4: Event)
    requires
        u.script == Script::PoharanMoveToBoss1,
        u.pc == 11,
        u.done is None,
        u.awaiting == Awaiting::Nothing,
    ensures
        script_spec(u.script)[10] == Op::Call(Script::PoharanOpenPortal1),
        ({
            let s1 = vm_next(u, e0).0;
            let (s2, st2) = vm_next(s1, e1);
            let s3 = vm_next(s2, e2).0;
            let (s4, st4) = vm_next(s3, e3);
            &&& st2 == Step::Ask(Cond::PortalIcon)
            &&& e2.holds ==> st4 == Step::Act(Act::Hotkey(Hotkey::AnimationSpeedHackWarlockOn))
            &&& !e2.holds && since(e3.now_ms, e0.now_ms) > 3000 ==> s4.pc < script_spec(u.script).len()
                && script_spec(u.script)[s4.pc as int] == Op::Finish(false)
            &&& !e2.holds && since(e3.now_ms, e0.now_ms) <= 3000 ==> vm_next(s4, e4).0.pc == s1.pc
                && script_spec(u.script)[s1.pc as int] == Op::Ask(Cond::PortalIcon)
        }),
{
    lemma_boss1_program();
}

/// The machine at the start of the script, with nothing to hear.
pub open spec fn at_start(u: VmView, script: Script) -> bool {
    u.script == script && u.pc == 0 && u.done is None && u.awaiting == Awaiting::Nothing
}

proof fn lemma_wait_programs()
    ensures
        script_spec(Script::WaitLoadingScreen) == common::wait_loading_screen_spec(),
        script_spec(Script::RunIntoDungeon) == common::run_into_dungeon_spec(),
{
    reveal(script_spec);
}

proof fn lemma_portal_programs()
    ensures
        script_spec(Script::PoharanOpenPortal1) == poharan::poharan_open_portal_1_spec(),
        script_spec(Script::AerodromeOpenPortal1) == aerodrome::aerodrome_open_portal_1_spec(),
{
    reveal(script_spec);
}

proof fn lemma_lobby_programs()
    ensures
        script_spec(Script::PoharanEnterLobby) == poharan::poharan_enter_lobby_spec(),
        script_spec(Script::AerodromeEnterLobby) == aerodrome::aerodrome_enter_lobby_spec(),
{
    reveal(script_spec);
}

proof fn lemma_aerodrome_boss1_program()
    ensures
        script_spec(Script::AerodromeMoveToBoss1) == aerodrome::aerodrome_move_to_boss_1_spec(),
{
    reveal(script_spec);
}

proof fn lemma_fight_programs()
    ensures
        script_spec(Script::PoharanFightBoss1) == poharan::poharan_fight_boss_1_spec(),
        script_spec(Script::PoharanFightBoss2) == poharan::poharan_fight_boss_2_spec(),
{
    reveal(script_spec);
}

proof fn lemma_leave_programs()
    ensures
        script_spec(Script::PoharanLeaveDungeonClient) == poharan::poharan_leave_dungeon_client_spec(),
        script_spec(Script::PoharanMoveToBridge) == poharan::poharan_move_to_bridge_spec(),
{
    reveal(script_spec);
}

/// Waiting for a loading screen: the routine first asks whether a loading
/// screen shows. A yes ends this wait: it goes on to ask whether the game is
/// in the lobby. A no checks that the game still runs, waits 100 ms and
/// asks again.
pub proof fn lemma_wait_for_loading_screen(u: VmView, e1: Event, e2: Event, e3: Event, e4: Event, e5: Event)
    requires
        at_start(u, Script::WaitLoadingScreen),
    ensures
        ({
            let (s1, st1) = vm_next(u, e1);
            let s2 = vm_next(s1, e2).0;
            let (s3, st3) = vm_next(s2, e3);
            let (s4, st4) = vm_next(s3, e4);
            let s5 = vm_next(s4, e5).0;
            &&& st1 == Step::Ask(Cond::LoadingScreen)
            &&& e2.holds ==> st3 == Step::Ask(Cond::InF8Lobby)
            &&& !e2.holds ==> st3 == Step::Act(Act::CheckActivity) && st4 == Step::Act(Act::Sleep(100)) && s5.pc
                == u.pc
        }),
{
    lemma_wait_programs();
}

/// Waiting for the end of the loading screen: the routine ends with `true`
/// as soon as the game is in the lobby or out of the loading screen, and
/// else checks that the game still runs, waits 100 ms and asks again.
pub proof fn lemma_wait_out_of_loading_screen(u: VmView, e1: Event, e2: Event, e3: Event, e4: Event, e5: Event, e6: Event)
    requires
        u.script == Script::WaitLoadingScreen,
        u.pc == 5,
        u.done is None,
        u.awaiting == Awaiting::Nothing,
    ensures
        ({
            let (s1, st1) = vm_next(u, e1);
            let s2 = vm_next(s1, e2).0;
            let (s3, st3) = vm_next(s2, e3);
            let s4 = vm_next(s3, e4).0;
            let (s5, st5) = vm_next(s4, e5);
            let (s6, st6) = vm_next(s5, e6);
            &&& st1 == Step::Ask(Cond::InF8Lobby)
            &&& e2.holds ==> script_spec(u.script)[s2.pc as int] == Op::Finish(true)
            &&& !e2.holds ==> st3 == Step::Ask(Cond::OutOfLoadingScreen)
            &&& !e2.holds && e4.holds ==> script_spec(u.script)[s4.pc as int] == Op::Finish(true)
            &&& !e2.holds && !e4.holds ==> st5 == Step::Act(Act::CheckActivity) && st6 == Step::Act(
                Act::Sleep(100),
            ) && vm_next(s6, e1).0.pc == u.pc
        }),
{
    lemma_wait_programs();
}

/// Running into the dungeon: W is held (with a sprint) until the loading
/// screen shows; then W is released and the routine ends with `true`. When
/// no loading screen has shown after more than 15999 ms since the timer
/// started, W is released and the routine ends with `false`.
pub proof fn lemma_run_into_dungeon(u: VmView, e0: Event, e1: Event, e2: Event, e3: Event, e4: Event)
    requires
        u.script == Script::RunIntoDungeon,
        u.pc == 3,
        u.done is None,
        u.awaiting == Awaiting::Nothing,
    ensures
        script_spec(u.script)[0] == Op::Act(Act::KeyDown(VK_W)),
        ({
            let s0 = vm_next(u, e0).0;
            let s1 = vm_next(s0, e1).0;
            let (s2, st2) = vm_next(s1, e2);
            let s3 = vm_next(s2, e3).0;
            let (s4, st4) = vm_next(s3, e4);
            &&& st2 == Step::Ask(Cond::LoadingScreen)
            &&& e3.holds ==> st4 == Step::Act(Act::KeyUp(VK_W)) && script_spec(u.script)[s4.pc as int]
                == Op::Finish(true)
            &&& !e3.holds && since(e4.now_ms, e0.now_ms) > 15999 ==> vm_next(s4, e1).1 == Step::Act(
                Act::KeyUp(VK_W),
            ) && script_spec(u.script)[vm_next(s4, e1).0.pc as int] == Op::Finish(false)
            &&& !e3.holds && since(e4.now_ms, e0.now_ms) <= 15999 ==> vm_next(s4, e1).1 == Step::Act(
                Act::Sleep(100),
            )
        }),
{
    lemma_wait_programs();
}

/// Opening a portal (to Poharan's first boss, or to Bulmalo): the flight
/// to the thrall's place goes on until the player has moved away from the
/// marked position; once more than 5000 ms have passed without that, the
/// routine ends with `false`.
#[verifier::rlimit(40)]
pub proof fn lemma_open_portal_flight(u: VmView, e0: Event, e1: Event, e2: Event, e3: Event, e4: Event)
    requires
        u.script == Script::PoharanOpenPortal1 || u.script == Script::AerodromeOpenPortal1,
        u.pc == 6,
        u.done is None,
        u.awaiting == Awaiting::Nothing,
    ensures
        script_spec(u.script)[5] == Op::Act(Act::MarkPosition),
        ({
            let s0 = vm_next(u, e0).0;
            let s1 = vm_next(s0, e1).0;
            let (s2, st2) = vm_next(s1, e2);
            let s3 = vm_next(s2, e3).0;
            let (s4, st4) = vm_next(s3, e4);
            &&& st2 == Step::Ask(Cond::Teleported)
            &&& e3.holds ==> script_spec(u.script)[s3.pc as int] == Op::StartTimer(TimerId::First)
                && script_spec(u.script)[s3.pc + 2] == Op::Act(Act::Press(crate::keys::VK_TAB))
            &&& !e3.holds && since(e4.now_ms, e0.now_ms) > 5000 ==> script_spec(u.script)[s4.pc as int]
                == Op::Finish(false)
            &&& !e3.holds && since(e4.now_ms, e0.now_ms) <= 5000 ==> vm_next(s4, e1).1 == Step::Act(
                Act::Hotkey(Hotkey::FlyHackBoss1),
            )
        }),
{
    lemma_portal_programs();
    // one case for each of the two routines
    if u.script == Script::PoharanOpenPortal1 {
    } else {
    }
}

/// The lobby starts over when a client cannot ready up: after a client's
/// attempt to ready up, the lobby asks whether the client is ready; a no
/// goes back to the start of the lobby (switching to the first client), a
/// yes goes on with the next client.
#[verifier::rlimit(40)]
pub proof fn lemma_lobby_starts_over_unready(u: VmView, e1: Event, e2: Event, e3: Event)
    requires
        (u.script == Script::PoharanEnterLobby && u.pc == 34) || (u.script == Script::AerodromeEnterLobby
            && u.pc == 23),
        u.done is None,
        u.awaiting == Awaiting::Nothing,
    ensures
        script_spec(u.script)[u.pc - 1] == Op::Call(Script::ReadyUp),
        script_spec(u.script)[0] == Op::Act(Act::SwitchToStart),
        ({
            let (s1, st1) = vm_next(u, e1);
            let s2 = vm_next(s1, e2).0;
            let s3 = vm_next(s2, e3).0;
            &&& st1 == Step::Ask(Cond::PlayerReady)
            &&& !e2.holds ==> s3.pc == 0
            &&& e2.holds ==> script_spec(u.script)[s3.pc as int] == Op::NextClient(false)
        }),
{
    lemma_lobby_programs();
    // one case for each of the two lobbies
    if u.script == Script::PoharanEnterLobby {
    } else {
    }
}

/// The lobby waits at most 7999 ms for the loading screen after entering:
/// once it shows, the speed hack is switched off and the lobby ends with
/// `true`; when it has not shown in time the lobby starts over; else the
/// lobby checks that the game still runs and asks again.
#[verifier::rlimit(40)]
pub proof fn lemma_lobby_waits_for_loading(u: VmView, e0: Event, e1: Event, e2: Event, e3: Event, e4: Event)
    requires
        (u.script == Script::PoharanEnterLobby && u.pc == 43) || (u.script == Script::AerodromeEnterLobby
            && u.pc == 33),
        u.done is None,
        u.awaiting == Awaiting::Nothing,
    ensures
        script_spec(u.script)[u.pc - 2] == Op::Call(Script::EnterDungeon),
        ({
            let s0 = vm_next(u, e0).0;
            let (s1, st1) = vm_next(s0, e1);
            let s2 = vm_next(s1, e2).0;
            let s3 = vm_next(s2, e3).0;
            let (s4, st4) = vm_next(s3, e4);
            &&& st1 == Step::Ask(Cond::LoadingScreen)
            &&& e2.holds ==> script_spec(u.script)[s2.pc as int] == Op::Call(Script::CheatEngineOff)
                && script_spec(u.script)[s2.pc + 1] == Op::Finish(true)
            &&& !e2.holds && since(e3.now_ms, e0.now_ms) > 7999 ==> s4.pc == 0
            &&& !e2.holds && since(e3.now_ms, e0.now_ms) <= 7999 ==> st4 == Step::Act(Act::CheckActivity)
        }),
{
    lemma_lobby_programs();
    // one case for each of the two lobbies
    if u.script == Script::PoharanEnterLobby {
    } else {
    }
}

/// The first client invites each configured player twice: when there is a
/// next player, the invite command is typed and sent with Enter two times,
/// with 5 ms pauses, before the next player is asked for.
#[verifier::rlimit(60)]
pub proof fn lemma_lobby_invites_twice(u: VmView, e1: Event, e2: Event, e: Event)
    requires
        u.script == Script::PoharanEnterLobby,
        u.pc == 9,
        u.done is None,
        u.awaiting == Awaiting::Nothing,
        e2.holds,
    ensures
        ({
            let (s1, st1) = vm_next(u, e1);
            let s2 = vm_next(s1, e2).0;
            let (s3, st3) = vm_next(s2, e);
            let (s4, st4) = vm_next(s3, e);
            let (s5, st5) = vm_next(s4, e);
            let (s6, st6) = vm_next(s5, e);
            let (s7, st7) = vm_next(s6, e);
            let (s8, st8) = vm_next(s7, e);
            let (s9, st9) = vm_next(s8, e);
            let (s10, st10) = vm_next(s9, e);
            let s11 = vm_next(s10, e).0;
            &&& st1 == Step::Player(u.locals.count)
            &&& st3 == Step::Act(Act::TypeInvite) && st4 == Step::Act(Act::Sleep(5))
            &&& st5 == Step::Act(Act::Press(VK_RETURN)) && st6 == Step::Act(Act::Sleep(5))
            &&& st7 == Step::Act(Act::TypeInvite) && st8 == Step::Act(Act::Sleep(5))
            &&& st9 == Step::Act(Act::Press(VK_RETURN)) && st10 == Step::Act(Act::Sleep(5))
            &&& s11.pc == u.pc
        }),
{
    lemma_lobby_programs();
    let s1 = vm_next(u, e1).0;
    assert(s1.pc == 10 && s1.awaiting == Awaiting::Answer);
    let s2 = vm_next(s1, e2).0;
    assert(s2.pc == 11 && s2.awaiting == Awaiting::Nothing && s2.done is None && s2.script == u.script);
    let s3 = vm_next(s2, e).0;
    assert(s3.pc == 12 && s3.awaiting == Awaiting::Nothing);
    let s4 = vm_next(s3, e).0;
    assert(s4.pc == 13 && s4.awaiting == Awaiting::Nothing);
    let s5 = vm_next(s4, e).0;
    assert(s5.pc == 14 && s5.awaiting == Awaiting::Nothing);
    let s6 = vm_next(s5, e).0;
    assert(s6.pc == 15 && s6.awaiting == Awaiting::Nothing);
    let s7 = vm_next(s6, e).0;
    assert(s7.pc == 16 && s7.awaiting == Awaiting::Nothing);
    let s8 = vm_next(s7, e).0;
    assert(s8.pc == 17 && s8.awaiting == Awaiting::Nothing);
    let s9 = vm_next(s8, e).0;
    assert(s9.pc == 18 && s9.awaiting == Awaiting::Nothing);
    let s10 = vm_next(s9, e).0;
    assert(s10.pc == 19 && s10.awaiting == Awaiting::Nothing);
}

/// A client leaves the dungeon into the loading screen: it presses F every
/// 100 ms until a loading screen shows, and then ends with `true`.
pub proof fn lemma_client_leaves_into_loading_screen(u: VmView, e1: Event, e2: Event, e3: Event, e4: Event, e5: Event)
    requires
        u.script == Script::PoharanLeaveDungeonClient,
        u.pc == 69,
        u.done is None,
        u.awaiting == Awaiting::Nothing,
    ensures
        ({
            let (s1, st1) = vm_next(u, e1);
            let (s2, st2) = vm_next(s1, e1);
            let s3 = vm_next(s2, e3).0;
            let (s4, st4) = vm_next(s3, e4);
            let (s5, st5) = vm_next(s4, e5);
            &&& st1 == Step::Act(Act::CheckActivity)
            &&& st2 == Step::Ask(Cond::LoadingScreen)
            &&& e3.holds ==> script_spec(u.script)[s3.pc as int] == Op::Finish(true)
            &&& !e3.holds ==> st4 == Step::Act(Act::Press(VK_F)) && st5 == Step::Act(Act::Sleep(100))
                && vm_next(s5, e1).0.pc == u.pc
        }),
{
    lemma_leave_programs();
}

/// On the way to the bridge every other client takes the portal; when a
/// client cannot, the routine ends with `false`, and else it goes on with
/// the next client.
pub proof fn lemma_bridge_clients_take_the_portal(u: VmView, e1: Event, e2: Event)
    requires
        u.script == Script::PoharanMoveToBridge,
        u.pc == 34,
        u.done is None,
        u.awaiting == Awaiting::Nothing,
    ensures
        script_spec(u.script)[33] == Op::Call(Script::PoharanUsePortal),
        !u.flag ==> script_spec(u.script)[vm_next(u, e1).0.pc as int] == Op::Finish(false),
        u.flag ==> script_spec(u.script)[vm_next(vm_next(u, e1).0, e2).0.pc as int] == Op::NextClient(false),
{
    lemma_leave_programs();
}

/// The way to Bulmalo gives up when the portal cannot be opened: right
/// after the call that opens it, a failure ends the routine with `false`,
/// and a success starts the wait for the portal icon.
pub proof fn lemma_aerodrome_boss1_needs_the_portal(u: VmView, e1: Event)
    requires
        u.script == Script::AerodromeMoveToBoss1,
        u.pc == 4,
        u.done is None,
        u.awaiting == Awaiting::Nothing,
    ensures
        script_spec(u.script)[3] == Op::Call(Script::AerodromeOpenPortal1),
        !u.flag ==> script_spec(u.script)[vm_next(u, e1).0.pc as int] == Op::Finish(false),
        u.flag ==> script_spec(u.script)[vm_next(u, e1).0.pc as int] == Op::StartTimer(TimerId::First),
{
    lemma_aerodrome_boss1_program();
}

/// Waiting for the portal to Bulmalo: a yes to the portal icon question
/// moves on to the question whether to activate the barrier; a no ends the
/// routine with `false` once more than 7000 ms have passed since the wait
/// started, and else asks again. A yes to the barrier question speeds the
/// animation up and walks to the barrier; a no goes on with the clients.
#[verifier::rlimit(40)]
pub proof fn lemma_aerodrome_boss1_waits_for_the_portal(
    u: VmView,
    e0: Event,
    e1: Event,
    e2: Event,
    e3: Event,
    e4: Event,
    e5: Event,
)
    requires
        u.script == Script::AerodromeMoveToBoss1,
        u.pc == 5,
        u.done is None,
        u.awaiting == Awaiting::Nothing,
    ensures
        ({
            let s0 = vm_next(u, e0).0;
            let (s1, st1) = vm_next(s0, e1);
            let s2 = vm_next(s1, e2).0;
            let (s3, st3) = vm_next(s2, e3);
            let (s4, st4) = vm_next(s3, e4);
            &&& st1 == Step::Ask(Cond::PortalIcon)
            &&& e2.holds ==> st3 == Step::Ask(Cond::ActivateBarrier)
            &&& e2.holds && e4.holds ==> vm_next(s4, e5).1 == Step::Act(Act::AnimationSpeed(
                super::vm::Speed::Configured,
            ))
            &&& e2.holds && !e4.holds ==> script_spec(u.script)[s4.pc as int] == Op::ResetCount
            &&& !e2.holds && since(e3.now_ms, e0.now_ms) > 7000 ==> script_spec(u.script)[s3.pc as int]
                == Op::Finish(false)
            &&& !e2.holds && since(e3.now_ms, e0.now_ms) <= 7000 ==> st4 == Step::Continue && s4.pc == s0.pc
        }),
{
    lemma_aerodrome_boss1_program();
}

/// The fight with Tae Jangum: the boss is beaten once the dynamic quest
/// shows (the routine then waits 2000 ms and goes on); a death (the revive
/// button shows) ends the routine with `false`, and so does a fight of more
/// than 95999 ms; else the routine checks that the game runs and looks
/// again.
#[verifier::rlimit(40)]
pub proof fn lemma_poharan_boss1_fight(u: VmView, e1: Event, e2: Event, e3: Event, e4: Event, e5: Event)
    requires
        u.script == Script::PoharanFightBoss1,
        u.pc == 9,
        u.done is None,
        u.awaiting == Awaiting::Nothing,
    ensures
        ({
            let (s1, st1) = vm_next(u, e1);
            let s2 = vm_next(s1, e2).0;
            let (s3, st3) = vm_next(s2, e3);
            let s4 = vm_next(s3, e4).0;
            let (s5, st5) = vm_next(s4, e5);
            &&& st1 == Step::Ask(Cond::DynamicQuest)
            &&& e2.holds ==> st3 == Step::Act(Act::Sleep(2000))
            &&& !e2.holds ==> st3 == Step::Ask(Cond::Revive)
            &&& !e2.holds && e4.holds ==> script_spec(u.script)[s4.pc as int] == Op::Finish(false)
            &&& !e2.holds && !e4.holds && since(e5.now_ms, timer_of(u.locals, TimerId::First)) > 95999 ==> script_spec(
                u.script,
            )[s5.pc as int] == Op::Finish(false)
            &&& !e2.holds && !e4.holds && since(e5.now_ms, timer_of(u.locals, TimerId::First)) <= 95999 ==> vm_next(s5, e1).1
                == Step::Act(Act::CheckActivity) && vm_next(vm_next(s5, e1).0, e1).0.pc == u.pc
        }),
{
    lemma_fight_programs();
}

/// The fight with Poharan: the boss is beaten once the dynamic reward shows
/// (the routine then waits 4000 ms for the loot); a death ends the routine
/// with `false`; else the routine waits a second and looks again.
pub proof fn lemma_poharan_boss2_fight(u: VmView, e1: Event, e2: Event, e3: Event, e4: Event, e5: Event)
    requires
        u.script == Script::PoharanFightBoss2,
        u.pc == 2,
        u.done is None,
        u.awaiting == Awaiting::Nothing,
    ensures
        ({
            let (s1, st1) = vm_next(u, e1);
            let s2 = vm_next(s1, e2).0;
            let (s3, st3) = vm_next(s2, e3);
            let s4 = vm_next(s3, e4).0;
            let (s5, st5) = vm_next(s4, e5);
            &&& st1 == Step::Ask(Cond::DynamicReward)
            &&& e2.holds ==> st3 == Step::Act(Act::Sleep(4000))
            &&& !e2.holds ==> st3 == Step::Ask(Cond::Revive)
            &&& !e2.holds && e4.holds ==> script_spec(u.script)[s4.pc as int] == Op::Finish(false)
            &&& !e2.holds && !e4.holds ==> st5 == Step::Act(Act::Sleep(1000)) && script_spec(u.script)[vm_next(
                s5,
                e1,
            ).0.pc as int] == Op::Act(Act::CheckActivity)
        }),
{
    lemma_fight_programs();
}

} // verus!
