//! The dungeon bots: their scripts, the machine that runs them, and their
//! statistics.
use vstd::prelude::*;

pub mod common;
pub mod poharan;
pub mod aerodrome;
pub mod exp;
pub mod checks;
pub mod routines;
pub mod runs;
pub mod stats;
pub mod vm;

use vm::Op;

verus! {

/// The scripts of the bots. Each stands for a routine of a bot and calls
/// the others as that routine did.
#[derive(PartialEq, Eq, Structural, Clone, Copy, Debug)]
pub enum Script {
    WaitLoadingScreen,
    RunIntoDungeon,
    OpenChat,
    AcceptLobbyInvite,
    ReadyUp,
    SelectDungeon,
    SelectStage,
    EnterDungeon,
    CheatEngineOn,
    CheatEngineOff,
    ActivateAutoCombat,
    ClickMapOpaque,
    ClickTrackingMap,
    ResetMap,
    ResetCamera,
    CameraTo0,
    CameraTo90,
    CameraTo270,
    MenuExit,
    PoharanStart,
    PoharanEnterLobby,
    PoharanMoveToDungeon,
    PoharanMoveToBoss1,
    PoharanGetIntoCombat,
    PoharanFightBoss1,
    PoharanMoveToBridge,
    PoharanFightBoss2,
    PoharanLeaveDungeon,
    PoharanLeaveDungeonClient,
    PoharanOpenPortal1,
    PoharanOpenPortal2,
    PoharanUsePortal,
    PoharanMoveToPoharan,
    PoharanMoveToPoharanWarlock,
    PoharanFailSafe,
    AerodromeStart,
    AerodromeEnterLobby,
    AerodromeMoveToDungeon,
    AerodromeMoveToBoss1,
    AerodromeFightBoss1,
    AerodromeMoveThroughPortal,
    AerodromeMoveToBoss2,
    AerodromeFightBoss2,
    AerodromeLeaveDungeon,
    AerodromeLeaveDungeonClient,
    AerodromeMoveToBulmalo,
    AerodromeMoveToMaximon,
    AerodromeOpenPortal1,
    AerodromeOpenPortal2,
    AerodromeFailSafe,
    AerodromeJoinLobby,
    AerodromeMoveToAreaTwo,
    ExpStart,
    ExpEnterLobby,
    ExpSelectStage,
    ExpMoveToDungeon,
    ExpMoveToDummyRoom,
    ExpPullDummyRoom,
    ExpKillDummies,
    ExpLeaveDungeon,
    ExpFailSafe,
}

/// The instructions of a script.
#[verifier::opaque]
pub open spec fn script_spec(s: Script) -> Seq<Op> {
    match s {
        Script::WaitLoadingScreen => common::wait_loading_screen_spec(),
        Script::RunIntoDungeon => common::run_into_dungeon_spec(),
        Script::OpenChat => common::open_chat_spec(),
        Script::AcceptLobbyInvite => common::accept_lobby_invite_spec(),
        Script::ReadyUp => common::ready_up_spec(),
        Script::SelectDungeon => common::select_dungeon_spec(),
        Script::SelectStage => common::select_stage_spec(),
        Script::EnterDungeon => common::enter_dungeon_spec(),
        Script::CheatEngineOn => common::cheat_engine_on_spec(),
        Script::CheatEngineOff => common::cheat_engine_off_spec(),
        Script::ActivateAutoCombat => common::activate_auto_combat_spec(),
        Script::ClickMapOpaque => common::click_map_opaque_spec(),
        Script::ClickTrackingMap => common::click_tracking_map_spec(),
        Script::ResetMap => common::reset_map_spec(),
        Script::ResetCamera => common::reset_camera_spec(),
        Script::CameraTo0 => common::camera_to_0_spec(),
        Script::CameraTo90 => common::camera_to_90_spec(),
        Script::CameraTo270 => common::camera_to_270_spec(),
        Script::MenuExit => common::menu_exit_spec(),
        Script::PoharanStart => poharan::poharan_start_spec(),
        Script::PoharanEnterLobby => poharan::poharan_enter_lobby_spec(),
        Script::PoharanMoveToDungeon => poharan::poharan_move_to_dungeon_spec(),
        Script::PoharanMoveToBoss1 => poharan::poharan_move_to_boss_1_spec(),
        Script::PoharanGetIntoCombat => poharan::poharan_get_into_combat_spec(),
        Script::PoharanFightBoss1 => poharan::poharan_fight_boss_1_spec(),
        Script::PoharanMoveToBridge => poharan::poharan_move_to_bridge_spec(),
        Script::PoharanFightBoss2 => poharan::poharan_fight_boss_2_spec(),
        Script::PoharanLeaveDungeon => poharan::poharan_leave_dungeon_spec(),
        Script::PoharanLeaveDungeonClient => poharan::poharan_leave_dungeon_client_spec(),
        Script::PoharanOpenPortal1 => poharan::poharan_open_portal_1_spec(),
        Script::PoharanOpenPortal2 => poharan::poharan_open_portal_2_spec(),
        Script::PoharanUsePortal => poharan::poharan_use_portal_spec(),
        Script::PoharanMoveToPoharan => poharan::poharan_move_to_poharan_spec(),
        Script::PoharanMoveToPoharanWarlock => poharan::poharan_move_to_poharan_warlock_spec(),
        Script::PoharanFailSafe => poharan::poharan_fail_safe_spec(),
        Script::AerodromeStart => aerodrome::aerodrome_start_spec(),
        Script::AerodromeEnterLobby => aerodrome::aerodrome_enter_lobby_spec(),
        Script::AerodromeMoveToDungeon => aerodrome::aerodrome_move_to_dungeon_spec(),
        Script::AerodromeMoveToBoss1 => aerodrome::aerodrome_move_to_boss_1_spec(),
        Script::AerodromeFightBoss1 => aerodrome::aerodrome_fight_boss_1_spec(),
        Script::AerodromeMoveThroughPortal => aerodrome::aerodrome_move_through_portal_spec(),
        Script::AerodromeMoveToBoss2 => aerodrome::aerodrome_move_to_boss_2_spec(),
        Script::AerodromeFightBoss2 => aerodrome::aerodrome_fight_boss_2_spec(),
        Script::AerodromeLeaveDungeon => aerodrome::aerodrome_leave_dungeon_spec(),
        Script::AerodromeLeaveDungeonClient => aerodrome::aerodrome_leave_dungeon_client_spec(),
        Script::AerodromeMoveToBulmalo => aerodrome::aerodrome_move_to_bulmalo_spec(),
        Script::AerodromeMoveToMaximon => aerodrome::aerodrome_move_to_maximon_spec(),
        Script::AerodromeOpenPortal1 => aerodrome::aerodrome_open_portal_1_spec(),
        Script::AerodromeOpenPortal2 => aerodrome::aerodrome_open_portal_2_spec(),
        Script::AerodromeFailSafe => aerodrome::aerodrome_fail_safe_spec(),
        Script::AerodromeJoinLobby => aerodrome::aerodrome_join_lobby_spec(),
        Script::AerodromeMoveToAreaTwo => aerodrome::aerodrome_move_to_area_two_spec(),
        Script::ExpStart => exp::exp_start_spec(),
        Script::ExpEnterLobby => exp::exp_enter_lobby_spec(),
        Script::ExpSelectStage => exp::exp_select_stage_spec(),
        Script::ExpMoveToDungeon => exp::exp_move_to_dungeon_spec(),
        Script::ExpMoveToDummyRoom => exp::exp_move_to_dummy_room_spec(),
        Script::ExpPullDummyRoom => exp::exp_pull_dummy_room_spec(),
        Script::ExpKillDummies => exp::exp_kill_dummies_spec(),
        Script::ExpLeaveDungeon => exp::exp_leave_dungeon_spec(),
        Script::ExpFailSafe => exp::exp_fail_safe_spec(),
    }
}

/// The instructions of a script.
pub fn script_program(s: Script) -> (p: Vec<Op>)
    ensures
        p@ == script_spec(s),
{
    proof {
        reveal(script_spec);
    }
    match s {
        Script::WaitLoadingScreen => common::wait_loading_screen(),
        Script::RunIntoDungeon => common::run_into_dungeon(),
        Script::OpenChat => common::open_chat(),
        Script::AcceptLobbyInvite => common::accept_lobby_invite(),
        Script::ReadyUp => common::ready_up(),
        Script::SelectDungeon => common::select_dungeon(),
        Script::SelectStage => common::select_stage(),
        Script::EnterDungeon => common::enter_dungeon(),
        Script::CheatEngineOn => common::cheat_engine_on(),
        Script::CheatEngineOff => common::cheat_engine_off(),
        Script::ActivateAutoCombat => common::activate_auto_combat(),
        Script::ClickMapOpaque => common::click_map_opaque(),
        Script::ClickTrackingMap => common::click_tracking_map(),
        Script::ResetMap => common::reset_map(),
        Script::ResetCamera => common::reset_camera(),
        Script::CameraTo0 => common::camera_to_0(),
        Script::CameraTo90 => common::camera_to_90(),
        Script::CameraTo270 => common::camera_to_270(),
        Script::MenuExit => common::menu_exit(),
        Script::PoharanStart => poharan::poharan_start(),
        Script::PoharanEnterLobby => poharan::poharan_enter_lobby(),
        Script::PoharanMoveToDungeon => poharan::poharan_move_to_dungeon(),
        Script::PoharanMoveToBoss1 => poharan::poharan_move_to_boss_1(),
        Script::PoharanGetIntoCombat => poharan::poharan_get_into_combat(),
        Script::PoharanFightBoss1 => poharan::poharan_fight_boss_1(),
        Script::PoharanMoveToBridge => poharan::poharan_move_to_bridge(),
        Script::PoharanFightBoss2 => poharan::poharan_fight_boss_2(),
        Script::PoharanLeaveDungeon => poharan::poharan_leave_dungeon(),
        Script::PoharanLeaveDungeonClient => poharan::poharan_leave_dungeon_client(),
        Script::PoharanOpenPortal1 => poharan::poharan_open_portal_1(),
        Script::PoharanOpenPortal2 => poharan::poharan_open_portal_2(),
        Script::PoharanUsePortal => poharan::poharan_use_portal(),
        Script::PoharanMoveToPoharan => poharan::poharan_move_to_poharan(),
        Script::PoharanMoveToPoharanWarlock => poharan::poharan_move_to_poharan_warlock(),
        Script::PoharanFailSafe => poharan::poharan_fail_safe(),
        Script::AerodromeStart => aerodrome::aerodrome_start(),
        Script::AerodromeEnterLobby => aerodrome::aerodrome_enter_lobby(),
        Script::AerodromeMoveToDungeon => aerodrome::aerodrome_move_to_dungeon(),
        Script::AerodromeMoveToBoss1 => aerodrome::aerodrome_move_to_boss_1(),
        Script::AerodromeFightBoss1 => aerodrome::aerodrome_fight_boss_1(),
        Script::AerodromeMoveThroughPortal => aerodrome::aerodrome_move_through_portal(),
        Script::AerodromeMoveToBoss2 => aerodrome::aerodrome_move_to_boss_2(),
        Script::AerodromeFightBoss2 => aerodrome::aerodrome_fight_boss_2(),
        Script::AerodromeLeaveDungeon => aerodrome::aerodrome_leave_dungeon(),
        Script::AerodromeLeaveDungeonClient => aerodrome::aerodrome_leave_dungeon_client(),
        Script::AerodromeMoveToBulmalo => aerodrome::aerodrome_move_to_bulmalo(),
        Script::AerodromeMoveToMaximon => aerodrome::aerodrome_move_to_maximon(),
        Script::AerodromeOpenPortal1 => aerodrome::aerodrome_open_portal_1(),
        Script::AerodromeOpenPortal2 => aerodrome::aerodrome_open_portal_2(),
        Script::AerodromeFailSafe => aerodrome::aerodrome_fail_safe(),
        Script::AerodromeJoinLobby => aerodrome::aerodrome_join_lobby(),
        Script::AerodromeMoveToAreaTwo => aerodrome::aerodrome_move_to_area_two(),
        Script::ExpStart => exp::exp_start(),
        Script::ExpEnterLobby => exp::exp_enter_lobby(),
        Script::ExpSelectStage => exp::exp_select_stage(),
        Script::ExpMoveToDungeon => exp::exp_move_to_dungeon(),
        Script::ExpMoveToDummyRoom => exp::exp_move_to_dummy_room(),
        Script::ExpPullDummyRoom => exp::exp_pull_dummy_room(),
        Script::ExpKillDummies => exp::exp_kill_dummies(),
        Script::ExpLeaveDungeon => exp::exp_leave_dungeon(),
        Script::ExpFailSafe => exp::exp_fail_safe(),
    }
}

/// The instruction at `i` of a script of `len` instructions: its jump lands
/// on an instruction of the script.
pub open spec fn op_in_bounds(op: Op, i: int, len: int) -> bool {
    match op {
        Op::Skip(n) => i + 1 + n < len,
        Op::SkipIf(_, n) => i + 1 + n < len,
        Op::SkipIfElapsed(_, _, n) => i + 1 + n < len,
        Op::SkipIfFetchedElapsed(_, n) => i + 1 + n < len,
        Op::SkipIfFetchedSeconds(_, n) => i + 1 + n < len,
        Op::SkipIfMark(_, _, n) => i + 1 + n < len,
        Op::Back(n) => n <= i,
        _ => true,
    }
}

/// The instruction at `i` is in order: its jump lands on an instruction of
/// the script, and when it asks a question (about the game, or whether
/// there is another client or player), a conditional jump on the answer
/// comes right after it.
pub open spec fn op_ok(p: Seq<Op>, i: int) -> bool {
    &&& op_in_bounds(p[i], i, p.len() as int)
    &&& (p[i] is Ask || p[i] is NextClient || p[i] is NextPlayer) ==> i + 1 < p.len() && p[i + 1] is SkipIf
}

/// Every instruction of the script from `i` on is in order.
pub open spec fn ops_in_order_from(p: Seq<Op>, i: nat) -> bool
    decreases p.len() - i,
{
    if i >= p.len() {
        true
    } else {
        op_ok(p, i as int) && ops_in_order_from(p, i + 1)
    }
}

/// A script is well formed: it is not empty, each of its jumps lands on one
/// of its instructions, each question it asks decides a jump, and it ends
/// with an instruction that never goes on to the next (an end or a jump
/// back).
pub open spec fn script_wf(p: Seq<Op>) -> bool {
    &&& p.len() > 0
    &&& p.last() is Finish || p.last() is Back
    &&& forall|i: int| 0 <= i < p.len() ==> #[trigger] op_ok(p, i)
}

proof fn lemma_ops_in_order(p: Seq<Op>, i: nat)
    requires
        ops_in_order_from(p, i),
    ensures
        forall|j: int| i <= j < p.len() ==> #[trigger] op_ok(p, j),
    decreases p.len() - i,
{
    if i < p.len() {
        lemma_ops_in_order(p, i + 1);
    }
}

/// Every script of the bots is well formed.
pub proof fn lemma_scripts_well_formed(s: Script)
    ensures
        script_wf(script_spec(s)),
{
    reveal(script_spec);
    let p = script_spec(s);
    match s {
        Script::WaitLoadingScreen => common::lemma_wait_loading_screen_in_order(),
        Script::RunIntoDungeon => common::lemma_run_into_dungeon_in_order(),
        Script::OpenChat => common::lemma_open_chat_in_order(),
        Script::AcceptLobbyInvite => common::lemma_accept_lobby_invite_in_order(),
        Script::ReadyUp => common::lemma_ready_up_in_order(),
        Script::SelectDungeon => common::lemma_select_dungeon_in_order(),
        Script::SelectStage => common::lemma_select_stage_in_order(),
        Script::EnterDungeon => common::lemma_enter_dungeon_in_order(),
        Script::CheatEngineOn => common::lemma_cheat_engine_on_in_order(),
        Script::CheatEngineOff => common::lemma_cheat_engine_off_in_order(),
        Script::ActivateAutoCombat => common::lemma_activate_auto_combat_in_order(),
        Script::ClickMapOpaque => common::lemma_click_map_opaque_in_order(),
        Script::ClickTrackingMap => common::lemma_click_tracking_map_in_order(),
        Script::ResetMap => common::lemma_reset_map_in_order(),
        Script::ResetCamera => common::lemma_reset_camera_in_order(),
        Script::CameraTo0 => common::lemma_camera_to_0_in_order(),
        Script::CameraTo90 => common::lemma_camera_to_90_in_order(),
        Script::CameraTo270 => common::lemma_camera_to_270_in_order(),
        Script::MenuExit => common::lemma_menu_exit_in_order(),
        Script::PoharanStart => poharan::lemma_poharan_start_in_order(),
        Script::PoharanEnterLobby => poharan::lemma_poharan_enter_lobby_in_order(),
        Script::PoharanMoveToDungeon => poharan::lemma_poharan_move_to_dungeon_in_order(),
        Script::PoharanMoveToBoss1 => poharan::lemma_poharan_move_to_boss_1_in_order(),
        Script::PoharanGetIntoCombat => poharan::lemma_poharan_get_into_combat_in_order(),
        Script::PoharanFightBoss1 => poharan::lemma_poharan_fight_boss_1_in_order(),
        Script::PoharanMoveToBridge => poharan::lemma_poharan_move_to_bridge_in_order(),
        Script::PoharanFightBoss2 => poharan::lemma_poharan_fight_boss_2_in_order(),
        Script::PoharanLeaveDungeon => poharan::lemma_poharan_leave_dungeon_in_order(),
        Script::PoharanLeaveDungeonClient => poharan::lemma_poharan_leave_dungeon_client_in_order(),
        Script::PoharanOpenPortal1 => poharan::lemma_poharan_open_portal_1_in_order(),
        Script::PoharanOpenPortal2 => poharan::lemma_poharan_open_portal_2_in_order(),
        Script::PoharanUsePortal => poharan::lemma_poharan_use_portal_in_order(),
        Script::PoharanMoveToPoharan => poharan::lemma_poharan_move_to_poharan_in_order(),
        Script::PoharanMoveToPoharanWarlock => poharan::lemma_poharan_move_to_poharan_warlock_in_order(),
        Script::PoharanFailSafe => poharan::lemma_poharan_fail_safe_in_order(),
        Script::AerodromeStart => aerodrome::lemma_aerodrome_start_in_order(),
        Script::AerodromeEnterLobby => aerodrome::lemma_aerodrome_enter_lobby_in_order(),
        Script::AerodromeMoveToDungeon => aerodrome::lemma_aerodrome_move_to_dungeon_in_order(),
        Script::AerodromeMoveToBoss1 => aerodrome::lemma_aerodrome_move_to_boss_1_in_order(),
        Script::AerodromeFightBoss1 => aerodrome::lemma_aerodrome_fight_boss_1_in_order(),
        Script::AerodromeMoveThroughPortal => aerodrome::lemma_aerodrome_move_through_portal_in_order(),
        Script::AerodromeMoveToBoss2 => aerodrome::lemma_aerodrome_move_to_boss_2_in_order(),
        Script::AerodromeFightBoss2 => aerodrome::lemma_aerodrome_fight_boss_2_in_order(),
        Script::AerodromeLeaveDungeon => aerodrome::lemma_aerodrome_leave_dungeon_in_order(),
        Script::AerodromeLeaveDungeonClient => aerodrome::lemma_aerodrome_leave_dungeon_client_in_order(),
        Script::AerodromeMoveToBulmalo => aerodrome::lemma_aerodrome_move_to_bulmalo_in_order(),
        Script::AerodromeMoveToMaximon => aerodrome::lemma_aerodrome_move_to_maximon_in_order(),
        Script::AerodromeOpenPortal1 => aerodrome::lemma_aerodrome_open_portal_1_in_order(),
        Script::AerodromeOpenPortal2 => aerodrome::lemma_aerodrome_open_portal_2_in_order(),
        Script::AerodromeFailSafe => aerodrome::lemma_aerodrome_fail_safe_in_order(),
        Script::AerodromeJoinLobby => aerodrome::lemma_aerodrome_join_lobby_in_order(),
        Script::AerodromeMoveToAreaTwo => aerodrome::lemma_aerodrome_move_to_area_two_in_order(),
        Script::ExpStart => exp::lemma_exp_start_in_order(),
        Script::ExpEnterLobby => exp::lemma_exp_enter_lobby_in_order(),
        Script::ExpSelectStage => exp::lemma_exp_select_stage_in_order(),
        Script::ExpMoveToDungeon => exp::lemma_exp_move_to_dungeon_in_order(),
        Script::ExpMoveToDummyRoom => exp::lemma_exp_move_to_dummy_room_in_order(),
        Script::ExpPullDummyRoom => exp::lemma_exp_pull_dummy_room_in_order(),
        Script::ExpKillDummies => exp::lemma_exp_kill_dummies_in_order(),
        Script::ExpLeaveDungeon => exp::lemma_exp_leave_dungeon_in_order(),
        Script::ExpFailSafe => exp::lemma_exp_fail_safe_in_order(),
    }
    lemma_ops_in_order(p, 0);
}

/// The scripts that run a bot from its start; only they record and count runs.
pub open spec fn is_start_script(s: Script) -> bool {
    s == Script::PoharanStart || s == Script::AerodromeStart || s == Script::ExpStart
}

/// An instruction that records or counts a run, or calls a bot's start.
pub open spec fn touches_runs(op: Op) -> bool {
    match op {
        Op::Act(vm::Act::RecordRun(_)) => true,
        Op::Act(vm::Act::RecordMarkedRun) => true,
        Op::Act(vm::Act::CountRun) => true,
        Op::Call(c) => is_start_script(c),
        _ => false,
    }
}

/// No instruction of the script from `i` on records or counts a run, or
/// calls a bot's start.
pub open spec fn runs_untouched_from(p: Seq<Op>, i: nat) -> bool
    decreases p.len() - i,
{
    if i >= p.len() {
        true
    } else {
        !touches_runs(p[i as int]) && runs_untouched_from(p, i + 1)
    }
}

proof fn lemma_runs_untouched(p: Seq<Op>, i: nat)
    requires
        runs_untouched_from(p, i),
    ensures
        forall|j: int| i <= j < p.len() ==> !touches_runs(#[trigger] p[j]),
    decreases p.len() - i,
{
    if i < p.len() {
        lemma_runs_untouched(p, i + 1);
    }
}

/// Only the start scripts record and count runs, and no other script calls
/// a start script.
pub proof fn lemma_runs_only_at_start(s: Script)
    requires
        !is_start_script(s),
    ensures
        forall|i: int| 0 <= i < script_spec(s).len() ==> !touches_runs(#[trigger] script_spec(s)[i]),
{
    reveal(script_spec);
    let p = script_spec(s);
    match s {
        Script::WaitLoadingScreen => common::lemma_wait_loading_screen_leaves_runs(),
        Script::RunIntoDungeon => common::lemma_run_into_dungeon_leaves_runs(),
        Script::OpenChat => common::lemma_open_chat_leaves_runs(),
        Script::AcceptLobbyInvite => common::lemma_accept_lobby_invite_leaves_runs(),
        Script::ReadyUp => common::lemma_ready_up_leaves_runs(),
        Script::SelectDungeon => common::lemma_select_dungeon_leaves_runs(),
        Script::SelectStage => common::lemma_select_stage_leaves_runs(),
        Script::EnterDungeon => common::lemma_enter_dungeon_leaves_runs(),
        Script::CheatEngineOn => common::lemma_cheat_engine_on_leaves_runs(),
        Script::CheatEngineOff => common::lemma_cheat_engine_off_leaves_runs(),
        Script::ActivateAutoCombat => common::lemma_activate_auto_combat_leaves_runs(),
        Script::ClickMapOpaque => common::lemma_click_map_opaque_leaves_runs(),
        Script::ClickTrackingMap => common::lemma_click_tracking_map_leaves_runs(),
        Script::ResetMap => common::lemma_reset_map_leaves_runs(),
        Script::ResetCamera => common::lemma_reset_camera_leaves_runs(),
        Script::CameraTo0 => common::lemma_camera_to_0_leaves_runs(),
        Script::CameraTo90 => common::lemma_camera_to_90_leaves_runs(),
        Script::CameraTo270 => common::lemma_camera_to_270_leaves_runs(),
        Script::MenuExit => common::lemma_menu_exit_leaves_runs(),
        Script::PoharanStart => {},
        Script::PoharanEnterLobby => poharan::lemma_poharan_enter_lobby_leaves_runs(),
        Script::PoharanMoveToDungeon => poharan::lemma_poharan_move_to_dungeon_leaves_runs(),
        Script::PoharanMoveToBoss1 => poharan::lemma_poharan_move_to_boss_1_leaves_runs(),
        Script::PoharanGetIntoCombat => poharan::lemma_poharan_get_into_combat_leaves_runs(),
        Script::PoharanFightBoss1 => poharan::lemma_poharan_fight_boss_1_leaves_runs(),
        Script::PoharanMoveToBridge => poharan::lemma_poharan_move_to_bridge_leaves_runs(),
        Script::PoharanFightBoss2 => poharan::lemma_poharan_fight_boss_2_leaves_runs(),
        Script::PoharanLeaveDungeon => poharan::lemma_poharan_leave_dungeon_leaves_runs(),
        Script::PoharanLeaveDungeonClient => poharan::lemma_poharan_leave_dungeon_client_leaves_runs(),
        Script::PoharanOpenPortal1 => poharan::lemma_poharan_open_portal_1_leaves_runs(),
        Script::PoharanOpenPortal2 => poharan::lemma_poharan_open_portal_2_leaves_runs(),
        Script::PoharanUsePortal => poharan::lemma_poharan_use_portal_leaves_runs(),
        Script::PoharanMoveToPoharan => poharan::lemma_poharan_move_to_poharan_leaves_runs(),
        Script::PoharanMoveToPoharanWarlock => poharan::lemma_poharan_move_to_poharan_warlock_leaves_runs(),
        Script::PoharanFailSafe => poharan::lemma_poharan_fail_safe_leaves_runs(),
        Script::AerodromeStart => {},
        Script::AerodromeEnterLobby => aerodrome::lemma_aerodrome_enter_lobby_leaves_runs(),
        Script::AerodromeMoveToDungeon => aerodrome::lemma_aerodrome_move_to_dungeon_leaves_runs(),
        Script::AerodromeMoveToBoss1 => aerodrome::lemma_aerodrome_move_to_boss_1_leaves_runs(),
        Script::AerodromeFightBoss1 => aerodrome::lemma_aerodrome_fight_boss_1_leaves_runs(),
        Script::AerodromeMoveThroughPortal => aerodrome::lemma_aerodrome_move_through_portal_leaves_runs(),
        Script::AerodromeMoveToBoss2 => aerodrome::lemma_aerodrome_move_to_boss_2_leaves_runs(),
        Script::AerodromeFightBoss2 => aerodrome::lemma_aerodrome_fight_boss_2_leaves_runs(),
        Script::AerodromeLeaveDungeon => aerodrome::lemma_aerodrome_leave_dungeon_leaves_runs(),
        Script::AerodromeLeaveDungeonClient => aerodrome::lemma_aerodrome_leave_dungeon_client_leaves_runs(),
        Script::AerodromeMoveToBulmalo => aerodrome::lemma_aerodrome_move_to_bulmalo_leaves_runs(),
        Script::AerodromeMoveToMaximon => aerodrome::lemma_aerodrome_move_to_maximon_leaves_runs(),
        Script::AerodromeOpenPortal1 => aerodrome::lemma_aerodrome_open_portal_1_leaves_runs(),
        Script::AerodromeOpenPortal2 => aerodrome::lemma_aerodrome_open_portal_2_leaves_runs(),
        Script::AerodromeFailSafe => aerodrome::lemma_aerodrome_fail_safe_leaves_runs(),
        Script::AerodromeJoinLobby => aerodrome::lemma_aerodrome_join_lobby_leaves_runs(),
        Script::AerodromeMoveToAreaTwo => aerodrome::lemma_aerodrome_move_to_area_two_leaves_runs(),
        Script::ExpStart => {},
        Script::ExpEnterLobby => exp::lemma_exp_enter_lobby_leaves_runs(),
        Script::ExpSelectStage => exp::lemma_exp_select_stage_leaves_runs(),
        Script::ExpMoveToDungeon => exp::lemma_exp_move_to_dungeon_leaves_runs(),
        Script::ExpMoveToDummyRoom => exp::lemma_exp_move_to_dummy_room_leaves_runs(),
        Script::ExpPullDummyRoom => exp::lemma_exp_pull_dummy_room_leaves_runs(),
        Script::ExpKillDummies => exp::lemma_exp_kill_dummies_leaves_runs(),
        Script::ExpLeaveDungeon => exp::lemma_exp_leave_dungeon_leaves_runs(),
        Script::ExpFailSafe => exp::lemma_exp_fail_safe_leaves_runs(),
    }
    lemma_runs_untouched(p, 0);
}

/// A failed call at `i` ends the script with `false`: right after the call
/// comes a jump on `false` to an end with `false`.
pub open spec fn call_failure_ends(p: Seq<Op>, i: int) -> bool {
    p[i] is Call ==> i + 1 < p.len() && (p[i + 1] matches Op::SkipIf(false, n) && i + 2 + n < p.len() && p[i + 2
        + n] == Op::Finish(false))
}

/// A failed call ends the script with `false` from instruction `i` on.
pub open spec fn call_failures_end_from(p: Seq<Op>, i: nat) -> bool
    decreases p.len() - i,
{
    if i >= p.len() {
        true
    } else {
        call_failure_ends(p, i as int) && call_failures_end_from(p, i + 1)
    }
}

proof fn lemma_call_failures_end(p: Seq<Op>, i: nat)
    requires
        call_failures_end_from(p, i),
    ensures
        forall|j: int| i <= j < p.len() ==> #[trigger] call_failure_ends(p, j),
    decreases p.len() - i,
{
    if i < p.len() {
        lemma_call_failures_end(p, i + 1);
    }
}

/// The routines that give up as soon as one of the routines they call
/// fails: among them the walks through the portals and the leaving of the
/// dungeon.
pub open spec fn gives_up_on_failed_calls(s: Script) -> bool {
    ||| s == Script::ResetMap
    ||| s == Script::ResetCamera
    ||| s == Script::CameraTo0
    ||| s == Script::CameraTo90
    ||| s == Script::CameraTo270
    ||| s == Script::PoharanLeaveDungeon
    ||| s == Script::PoharanLeaveDungeonClient
    ||| s == Script::AerodromeMoveThroughPortal
    ||| s == Script::AerodromeMoveToBoss2
    ||| s == Script::AerodromeLeaveDungeon
    ||| s == Script::ExpPullDummyRoom
}

/// In the routines that give up on a failed call, every call is followed by
/// a jump on `false` to an end with `false`; with
/// [`vm::lemma_failed_call_fails`], a call that comes back with `false`
/// ends the routine with `false`.
pub proof fn lemma_failed_calls_end(s: Script)
    requires
        gives_up_on_failed_calls(s),
    ensures
        forall|i: int| 0 <= i < script_spec(s).len() ==> #[trigger] call_failure_ends(script_spec(s), i),
{
    reveal(script_spec);
    let p = script_spec(s);
    match s {
        Script::ResetMap => common::lemma_reset_map_fails_with_its_calls(),
        Script::ResetCamera => common::lemma_reset_camera_fails_with_its_calls(),
        Script::CameraTo0 => common::lemma_camera_to_0_fails_with_its_calls(),
        Script::CameraTo90 => common::lemma_camera_to_90_fails_with_its_calls(),
        Script::CameraTo270 => common::lemma_camera_to_270_fails_with_its_calls(),
        Script::PoharanLeaveDungeon => poharan::lemma_poharan_leave_dungeon_fails_with_its_calls(),
        Script::PoharanLeaveDungeonClient => poharan::lemma_poharan_leave_dungeon_client_fails_with_its_calls(),
        Script::AerodromeMoveThroughPortal => aerodrome::lemma_aerodrome_move_through_portal_fails_with_its_calls(),
        Script::AerodromeMoveToBoss2 => aerodrome::lemma_aerodrome_move_to_boss_2_fails_with_its_calls(),
        Script::AerodromeLeaveDungeon => aerodrome::lemma_aerodrome_leave_dungeon_fails_with_its_calls(),
        Script::ExpPullDummyRoom => exp::lemma_exp_pull_dummy_room_fails_with_its_calls(),
        _ => {},
    }
    lemma_call_failures_end(p, 0);
}

/// The instructions of the start scripts.
pub proof fn lemma_start_programs()
    ensures
        script_spec(Script::PoharanStart) == poharan::poharan_start_spec(),
        script_spec(Script::AerodromeStart) == aerodrome::aerodrome_start_spec(),
        script_spec(Script::ExpStart) == exp::exp_start_spec(),
{
    reveal(script_spec);
}

/// In a well-formed script the machine never runs past the end: an
/// instruction other than a call or an end leaves the machine on an
/// instruction of the same script.
pub proof fn lemma_stays_in_script(s: vm::VmView, now: u64)
    requires
        script_wf(script_spec(s.script)),
        s.pc < script_spec(s.script).len(),
        !(script_spec(s.script)[s.pc as int] is Call),
        !(script_spec(s.script)[s.pc as int] is Finish),
    ensures
        ({
            let p = script_spec(s.script);
            let t = vm::vm_exec(s, p[s.pc as int], now, p.len()).0;
            t.script == s.script && t.pc < p.len()
        }),
{
    let p = script_spec(s.script);
    assert(op_ok(p, s.pc as int));
    if s.pc + 1 == p.len() {
        assert(p[s.pc as int] == p.last());
    }
}

} // verus!
