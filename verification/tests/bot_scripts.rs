use bns_macros::bot::checks::{camera_script, degrees, pixel_check, target_setting};
use bns_macros::bot::stats::{average, repair_due, RunStatistics};
use bns_macros::bot::vm::{hotkey_name, Act, Cond, Degree, Event, Hotkey, Op, Place, Quantity, Step, Target, Vm};
use bns_macros::bot::{script_program, Script};
use bns_macros::keys::{VK_A, VK_F, VK_SHIFT, VK_TAB, VK_W, VK_Y};

const ALL: [Script; 61] = [Script::WaitLoadingScreen, Script::RunIntoDungeon, Script::OpenChat, Script::AcceptLobbyInvite, Script::ReadyUp, Script::SelectDungeon, Script::SelectStage, Script::EnterDungeon, Script::CheatEngineOn, Script::CheatEngineOff, Script::ActivateAutoCombat, Script::ClickMapOpaque, Script::ClickTrackingMap, Script::ResetMap, Script::ResetCamera, Script::CameraTo0, Script::CameraTo90, Script::CameraTo270, Script::MenuExit, Script::PoharanStart, Script::PoharanEnterLobby, Script::PoharanMoveToDungeon, Script::PoharanMoveToBoss1, Script::PoharanGetIntoCombat, Script::PoharanFightBoss1, Script::PoharanMoveToBridge, Script::PoharanFightBoss2, Script::PoharanLeaveDungeon, Script::PoharanLeaveDungeonClient, Script::PoharanOpenPortal1, Script::PoharanOpenPortal2, Script::PoharanUsePortal, Script::PoharanMoveToPoharan, Script::PoharanMoveToPoharanWarlock, Script::PoharanFailSafe, Script::AerodromeStart, Script::AerodromeEnterLobby, Script::AerodromeMoveToDungeon, Script::AerodromeMoveToBoss1, Script::AerodromeFightBoss1, Script::AerodromeMoveThroughPortal, Script::AerodromeMoveToBoss2, Script::AerodromeFightBoss2, Script::AerodromeLeaveDungeon, Script::AerodromeLeaveDungeonClient, Script::AerodromeMoveToBulmalo, Script::AerodromeMoveToMaximon, Script::AerodromeOpenPortal1, Script::AerodromeOpenPortal2, Script::AerodromeFailSafe, Script::AerodromeJoinLobby, Script::AerodromeMoveToAreaTwo, Script::ExpStart, Script::ExpEnterLobby, Script::ExpSelectStage, Script::ExpMoveToDungeon, Script::ExpMoveToDummyRoom, Script::ExpPullDummyRoom, Script::ExpKillDummies, Script::ExpLeaveDungeon, Script::ExpFailSafe];

/// Runs a script against a simulated game: `answer` gives the answer to
/// each question asked, the clock advances by each sleep and by a
/// millisecond per step. Returns the steps other than `Continue`.
fn run(script: Script, mut answer: impl FnMut(&Step, u64) -> (bool, u64), limit: usize) -> Vec<Step> {
    let mut vm = Vm::new(script);
    let mut now: u64 = 0;
    let mut ev = Event { holds: false, value: 0, now_ms: now };
    let mut out = vec![];
    for _ in 0..limit {
        let step = vm.step(ev);
        now += 1;
        let (holds, value) = match step {
            Step::Continue => (false, 0),
            Step::Done(_) => {
                out.push(step);
                return out;
            },
            Step::Act(Act::Sleep(ms)) => {
                now += ms;
                (false, 0)
            },
            _ => answer(&step, now),
        };
        if step != Step::Continue {
            out.push(step);
        }
        ev = Event { holds, value, now_ms: now };
    }
    out
}

#[test]
fn every_script_keeps_its_jumps_inside() {
    for s in ALL {
        let p = script_program(s);
        assert!(!p.is_empty());
        assert!(matches!(p[p.len() - 1], Op::Finish(_) | Op::Back(_)), "{:?}", s);
        for (i, op) in p.iter().enumerate() {
            match *op {
                Op::Skip(n) | Op::SkipIf(_, n) | Op::SkipIfElapsed(_, _, n) | Op::SkipIfFetchedElapsed(_, n)
                | Op::SkipIfFetchedSeconds(_, n) | Op::SkipIfMark(_, _, n) => assert!(i + 1 + n < p.len(), "{:?} {}", s, i),
                Op::Back(n) => assert!(n <= i, "{:?} {}", s, i),
                Op::Ask(_) | Op::NextClient(_) | Op::NextPlayer => {
                    assert!(matches!(p.get(i + 1), Some(Op::SkipIf(_, _))), "{:?} {}", s, i)
                },
                _ => {},
            }
        }
    }
}

#[test]
fn wait_loading_screen_waits_for_both_ends() {
    let mut not_loading = 2;
    let mut out_asks = 0;
    let steps = run(
        Script::WaitLoadingScreen,
        |s, _| match s {
            Step::Ask(Cond::LoadingScreen) => {
                not_loading -= 1;
                (not_loading < 0, 0)
            },
            Step::Ask(Cond::InF8Lobby) => (false, 0),
            Step::Ask(Cond::OutOfLoadingScreen) => {
                out_asks += 1;
                (out_asks > 1, 0)
            },
            _ => (false, 0),
        },
        200,
    );
    assert_eq!(
        steps,
        vec![
            Step::Ask(Cond::LoadingScreen),
            Step::Act(Act::CheckActivity),
            Step::Act(Act::Sleep(100)),
            Step::Ask(Cond::LoadingScreen),
            Step::Act(Act::CheckActivity),
            Step::Act(Act::Sleep(100)),
            Step::Ask(Cond::LoadingScreen),
            Step::Ask(Cond::InF8Lobby),
            Step::Ask(Cond::OutOfLoadingScreen),
            Step::Act(Act::CheckActivity),
            Step::Act(Act::Sleep(100)),
            Step::Ask(Cond::InF8Lobby),
            Step::Ask(Cond::OutOfLoadingScreen),
            Step::Done(true),
        ]
    );
}

#[test]
fn the_lobby_counts_as_out_of_the_loading_screen() {
    let steps = run(
        Script::WaitLoadingScreen,
        |s, _| (matches!(s, Step::Ask(Cond::InF8Lobby) | Step::Ask(Cond::LoadingScreen)), 0),
        200,
    );
    assert_eq!(steps, vec![Step::Ask(Cond::LoadingScreen), Step::Ask(Cond::InF8Lobby), Step::Done(true)]);
}

#[test]
fn run_into_dungeon_gives_up_after_fifteen_seconds() {
    let steps = run(Script::RunIntoDungeon, |_, _| (false, 0), 10_000);
    assert_eq!(steps[..3], [Step::Act(Act::KeyDown(VK_W)), Step::Act(Act::KeyDown(VK_SHIFT)), Step::Act(Act::KeyUp(VK_SHIFT))]);
    assert_eq!(steps[steps.len() - 2..], [Step::Act(Act::KeyUp(VK_W)), Step::Done(false)]);
    let sleeps = steps.iter().filter(|s| **s == Step::Act(Act::Sleep(100))).count();
    // each pass takes 100 ms of sleep and a few steps: the timeout comes after 16 seconds
    assert!(sleeps >= 150 && sleeps <= 160, "{}", sleeps);
}

#[test]
fn run_into_dungeon_succeeds_on_the_loading_screen() {
    let steps = run(Script::RunIntoDungeon, |s, _| (matches!(s, Step::Ask(Cond::LoadingScreen)), 0), 100);
    assert_eq!(
        steps,
        vec![
            Step::Act(Act::KeyDown(VK_W)),
            Step::Act(Act::KeyDown(VK_SHIFT)),
            Step::Act(Act::KeyUp(VK_SHIFT)),
            Step::Act(Act::CheckActivity),
            Step::Ask(Cond::LoadingScreen),
            Step::Act(Act::KeyUp(VK_W)),
            Step::Done(true),
        ]
    );
}

#[test]
fn a_called_script_returns_its_result() {
    // the camera turn fails when the map cannot be made opaque within 3 seconds
    let steps = run(Script::CameraTo90, |_, _| (false, 0), 10_000);
    assert_eq!(steps.last(), Some(&Step::Done(false)));
    assert!(!steps.contains(&Step::Act(Act::Rotate(90))));
    // and turns when everything answers yes
    let steps = run(Script::CameraTo90, |_, _| (true, 0), 10_000);
    assert_eq!(steps.last(), Some(&Step::Done(true)));
    assert!(steps.contains(&Step::Act(Act::Rotate(90))));
}

#[test]
fn accept_invite_without_invite() {
    let steps = run(Script::AcceptLobbyInvite, |_, _| (false, 0), 100);
    assert_eq!(
        steps,
        vec![Step::Ask(Cond::HasInvite), Step::Act(Act::CheckActivity), Step::Ask(Cond::HasPartyJoinRequest), Step::Done(true)]
    );
}

#[test]
fn accept_invite_waits_after_an_invite() {
    let mut invites = 1;
    let steps = run(
        Script::AcceptLobbyInvite,
        |s, _| match s {
            Step::Ask(Cond::HasInvite) => {
                invites -= 1;
                (invites >= 0, 0)
            },
            _ => (false, 0),
        },
        200,
    );
    assert!(steps.contains(&Step::Act(Act::Sleep(250))));
    assert_eq!(steps.iter().filter(|s| **s == Step::Act(Act::Press(VK_Y))).count(), 1);
}

#[test]
fn lobby_invites_each_player_twice() {
    let steps = run(
        Script::PoharanEnterLobby,
        |s, _| match s {
            Step::Player(i) => (*i < 2, 0),
            Step::Ask(Cond::InF8Lobby) => (true, 0),
            Step::Client { .. } => (false, 0),
            Step::Ask(Cond::DungeonSelected) | Step::Ask(Cond::StageSelected) | Step::Ask(Cond::LoadingScreen) => (true, 0),
            _ => (false, 0),
        },
        2000,
    );
    assert_eq!(steps.iter().filter(|s| **s == Step::Act(Act::TypeInvite)).count(), 4);
    assert_eq!(steps.iter().filter(|s| matches!(s, Step::Player(_))).count(), 3);
    assert_eq!(steps.last(), Some(&Step::Done(true)));
}

#[test]
fn open_portal_fails_when_the_flight_times_out() {
    let steps = run(
        Script::PoharanOpenPortal1,
        |s, _| (matches!(s, Step::Ask(Cond::ThrallReady)), 0),
        10_000,
    );
    assert_eq!(steps.last(), Some(&Step::Done(false)));
    assert!(steps.contains(&Step::Act(Act::Hotkey(Hotkey::FlyHackBoss1))));
    assert!(!steps.contains(&Step::Act(Act::Press(VK_TAB))));
}

#[test]
fn open_portal_spawns_the_thrall_for_its_time() {
    for (script, at_least, at_most) in [(Script::AerodromeOpenPortal1, 20, 30), (Script::AerodromeOpenPortal2, 45, 55)] {
        let steps = run(script, |_, _| (true, 0), 10_000);
        assert_eq!(steps.last(), Some(&Step::Done(true)));
        let tabs = steps.iter().filter(|s| **s == Step::Act(Act::Press(VK_TAB))).count();
        assert!(tabs >= at_least && tabs <= at_most, "{}", tabs);
    }
}

#[test]
fn walking_to_the_poharan_portal_releases_each_key_once() {
    let steps = run(
        Script::PoharanUsePortal,
        |s, _| match s {
            Step::Ask(Cond::At(Place::PoharanPortalY)) | Step::Ask(Cond::At(Place::PoharanPortalX)) => (true, 0),
            Step::Ask(Cond::OutOfCombat) => (false, 0),
            _ => (false, 0),
        },
        200,
    );
    assert_eq!(steps.iter().filter(|s| **s == Step::Act(Act::KeyUp(VK_A))).count(), 1);
    assert_eq!(steps.iter().filter(|s| **s == Step::Act(Act::KeyUp(VK_W))).count(), 1);
    assert_eq!(steps.last(), Some(&Step::Done(true)));
}

#[test]
fn move_to_poharan_times_out_at_the_scaled_time() {
    let steps = run(
        Script::PoharanMoveToPoharan,
        |s, _| match s {
            Step::Ask(Cond::OutOfCombat) => (true, 0),
            Step::Fetch(Quantity::Scaled(35000)) => (false, 3500),
            _ => (false, 0),
        },
        100_000,
    );
    assert!(steps.contains(&Step::Fetch(Quantity::Scaled(35000))));
    assert_eq!(steps.last(), Some(&Step::Done(true)));
    assert!(steps.contains(&Step::Act(Act::KeyUp(VK_W))));
}

#[test]
fn leave_dungeon_client_spams_f_into_the_loading_screen() {
    let mut loading_asks = 0;
    let steps = run(
        Script::AerodromeLeaveDungeonClient,
        |s, _| match s {
            Step::Ask(Cond::ExitPortalIcon) => (false, 0),
            Step::Ask(Cond::LoadingScreen) => {
                loading_asks += 1;
                (loading_asks > 3, 0)
            },
            _ => (false, 0),
        },
        100_000,
    );
    // the exit portal icon never shows: the approach times out and the run fails
    assert_eq!(steps.last(), Some(&Step::Done(false)));
    assert!(!steps.contains(&Step::Act(Act::Press(VK_F))));
}

#[test]
fn names_and_pixel_checks() {
    assert_eq!(hotkey_name(Hotkey::ToggleAutoCombat), "ToggleAutoCombat");
    assert_eq!(hotkey_name(Hotkey::CheatEngineSpeedHackOff), "CheatEngineSpeedHackOff");
    let c = pixel_check(Cond::Revive).unwrap();
    assert_eq!((c.section, c.position, c.color), ("UserInterfacePlayer", "PositionReviveVisible", "ReviveVisible"));
    let c = pixel_check(Cond::PlayerReady).unwrap();
    assert_eq!((c.section, c.position, c.color), ("UserInterfaceLobby", "PositionIsReady", "IsReady"));
    assert!(pixel_check(Cond::At(Place::Barrier)).is_none());
    assert!(pixel_check(Cond::Foreground).is_none());
}

#[test]
fn camera_directions() {
    assert_eq!(camera_script(Degree::TurnTo0), Script::CameraTo0);
    assert_eq!(camera_script(Degree::TurnTo90), Script::CameraTo90);
    assert_eq!(camera_script(Degree::TurnTo270), Script::CameraTo270);
    assert_eq!(degrees(Degree::TurnTo0), 0);
    assert_eq!(degrees(Degree::TurnTo90), 90);
    assert_eq!(degrees(Degree::TurnTo270), 270);
}

#[test]
fn averages_are_whole_milliseconds() {
    assert_eq!(average(&vec![]), 0);
    assert_eq!(average(&vec![1000, 2001]), 1500);
    assert_eq!(average(&vec![u64::MAX, u64::MAX]), u64::MAX);
    assert_eq!(average(&vec![7]), 7);
}

#[test]
fn statistics_record_runs_and_fights() {
    let mut s = RunStatistics::new();
    s.begin_run();
    s.record_run(true, 60_000);
    s.count_run();
    s.begin_run();
    s.mark_failed();
    s.record_marked_run(30_000);
    s.count_run();
    s.record_run(false, 10_000);
    s.record_fight(1, 5_000);
    s.record_fight(2, 7_000);
    s.record_fight(3, 9_000);
    assert_eq!(s.run_count, 2);
    assert_eq!(s.successful_runs, vec![60_000]);
    assert_eq!(s.failed_runs, vec![30_000, 10_000]);
    assert_eq!(s.boss1_fights, vec![5_000]);
    assert_eq!(s.boss2_fights, vec![7_000]);
    let a = s.averages();
    assert_eq!((a.successful_run, a.failed_run, a.boss1_fight, a.boss2_fight), (60_000, 20_000, 5_000, 7_000));
}

#[test]
fn gained_experience_only_grows() {
    let mut s = RunStatistics::new();
    s.set_run_start_exp(1000);
    s.add_gained_exp(1500);
    assert_eq!(s.gained_exp, 500);
    s.set_run_start_exp(2000);
    s.add_gained_exp(1900);
    assert_eq!(s.gained_exp, 500);
}

#[test]
fn repair_on_the_first_and_every_nineteenth_run() {
    assert!(repair_due(0));
    assert!(!repair_due(1));
    assert!(!repair_due(18));
    assert!(repair_due(19));
    assert!(repair_due(38));
    assert!(!repair_due(40));
}

#[test]
fn an_ended_machine_stays_ended() {
    let mut vm = Vm::new(Script::PoharanGetIntoCombat);
    let ev = Event { holds: false, value: 0, now_ms: 0 };
    let mut steps = vec![];
    for _ in 0..10 {
        steps.push(vm.step(ev));
    }
    assert_eq!(steps[..5], [Step::Act(Act::Hotkey(Hotkey::GetIntoCombat)); 5]);
    assert_eq!(steps[5..], [Step::Done(true); 5]);
    assert_eq!(vm.result(), Some(true));
}

#[test]
fn runs_are_recorded_before_they_are_counted() {
    for script in [Script::PoharanStart, Script::AerodromeStart, Script::ExpStart] {
        let mut seed: u64 = 12345;
        let steps = run(
            script,
            |_, _| {
                seed = seed.wrapping_mul(6364136223846793005).wrapping_add(1442695040888963407);
                ((seed >> 33) % 3 != 0, 1000)
            },
            300_000,
        );
        let mut recorded = 0u64;
        let mut counted = 0u64;
        for st in &steps {
            match st {
                Step::Act(Act::RecordRun(_)) | Step::Act(Act::RecordMarkedRun) => {
                    recorded += 1;
                    assert!(recorded <= counted + 1);
                },
                Step::Act(Act::CountRun) => {
                    counted += 1;
                    assert_eq!(recorded, counted);
                },
                _ => {},
            }
        }
        assert!(counted > 0, "{:?} counted no run", script);
    }
}

#[test]
fn joining_a_lobby_types_the_number_only_into_the_dialogue() {
    let steps = run(Script::AerodromeJoinLobby, |_, _| (true, 0), 1_000);
    assert_eq!(
        steps,
        vec![
            Step::Act(Act::Cursor(Target::FindLobby)),
            Step::Act(Act::Sleep(50)),
            Step::Act(Act::Click(Target::FindLobby)),
            Step::Act(Act::Sleep(250)),
            Step::Ask(Cond::JoinLobbyDialogue),
            Step::Act(Act::TypeLobbyNumber),
            Step::Act(Act::Sleep(50)),
            Step::Act(Act::Press(0x0D)),
            Step::Act(Act::Sleep(500)),
            Step::Done(true),
        ]
    );
    let steps = run(Script::AerodromeJoinLobby, |_, _| (false, 0), 1_000);
    assert!(!steps.contains(&Step::Act(Act::TypeLobbyNumber)));
    assert_eq!(steps.last(), Some(&Step::Done(true)));
}

#[test]
fn the_second_area_is_reached_when_the_portal_icon_is_gone() {
    // the icon shows twice, then it is gone
    let mut asked = 0;
    let steps = run(
        Script::AerodromeMoveToAreaTwo,
        |step, _| {
            if *step == Step::Ask(Cond::PortalIcon) {
                asked += 1;
            }
            (asked <= 2, 0)
        },
        1_000,
    );
    assert_eq!(steps.iter().filter(|s| **s == Step::Act(Act::Press(VK_F))).count(), 2);
    assert_eq!(steps.last(), Some(&Step::Done(true)));
    // the icon never goes: F is pressed for about 6 seconds, then it fails
    let steps = run(Script::AerodromeMoveToAreaTwo, |_, _| (true, 0), 10_000);
    assert_eq!(steps.last(), Some(&Step::Done(false)));
    let presses = steps.iter().filter(|s| **s == Step::Act(Act::Press(VK_F))).count();
    assert!(presses > 50 && presses < 62);
}

#[test]
fn the_menu_exit_is_clicked_where_configured() {
    let steps = run(Script::MenuExit, |_, _| (true, 0), 100);
    assert_eq!(
        steps,
        vec![
            Step::Act(Act::Cursor(Target::Exit)),
            Step::Act(Act::Sleep(50)),
            Step::Act(Act::Click(Target::Exit)),
            Step::Done(true),
        ]
    );
    assert_eq!(target_setting(Target::Exit), Some(("UserInterfaceGeneral", "PositionExit")));
    assert_eq!(target_setting(Target::FindLobby), Some(("UserInterfaceLobby", "PositionFindLobby")));
    assert_eq!(target_setting(Target::Chat), Some(("UserInterfaceLobby", "PositionChat")));
    assert_eq!(target_setting(Target::Origin), None);
    let check = pixel_check(Cond::JoinLobbyDialogue).unwrap();
    assert_eq!((check.section, check.position, check.color), ("UserInterfaceLobby", "PositionHasJoinLobbyDialogue", "HasJoinLobbyDialogue"));
}
