//! The scripts of the experience bot: one client runs the Aerodrome's dummy
//! room for experience.
use vstd::prelude::*;

use super::vm::{Act, Cond, Hotkey, Op, Place, Quantity, Speed, Target, TimerId};
use super::{call_failures_end_from, ops_in_order_from, runs_untouched_from, Script};
use crate::keys::{VK_4, VK_A, VK_D, VK_ESCAPE, VK_F, VK_N, VK_S, VK_SHIFT, VK_W, VK_Y};

verus! {

/// The experience bot: waits for the game window, enters the lobby, then runs
/// the dungeon over and over, adding up the experience gained.
pub open spec fn exp_start_spec() -> Seq<Op> {
    seq![
        Op::Ask(Cond::GameInFront),
        Op::SkipIf(true, 2),
        Op::Act(Act::Sleep(100)),
        Op::Back(3),
        Op::Call(Script::ExpEnterLobby),
        Op::Call(Script::ExpMoveToDungeon),
        Op::SkipIf(true, 5),
        Op::Act(Act::Hotkey(Hotkey::ShadowPlay)),
        Op::Act(Act::RecordRun(false)),
        Op::Call(Script::ExpFailSafe),
        Op::Call(Script::ExpEnterLobby),
        Op::Skip(1),
        Op::Act(Act::RecordMarkedRun),
        Op::Act(Act::AddGainedExp),
        Op::Act(Act::CountRun),
        Op::Back(10),
    ]
}

/// The experience bot: waits for the game window, enters the lobby, then runs
/// the dungeon over and over, adding up the experience gained.
pub fn exp_start() -> (p: Vec<Op>)
    ensures
        p@ == exp_start_spec(),
{
    vec![
        Op::Ask(Cond::GameInFront),
        Op::SkipIf(true, 2),
        Op::Act(Act::Sleep(100)),
        Op::Back(3),
        Op::Call(Script::ExpEnterLobby),
        Op::Call(Script::ExpMoveToDungeon),
        Op::SkipIf(true, 5),
        Op::Act(Act::Hotkey(Hotkey::ShadowPlay)),
        Op::Act(Act::RecordRun(false)),
        Op::Call(Script::ExpFailSafe),
        Op::Call(Script::ExpEnterLobby),
        Op::Skip(1),
        Op::Act(Act::RecordMarkedRun),
        Op::Act(Act::AddGainedExp),
        Op::Act(Act::CountRun),
        Op::Back(10),
    ]
}

pub(crate) proof fn lemma_exp_start_in_order()
    ensures
        ops_in_order_from(exp_start_spec(), 0),
{
    reveal_with_fuel(ops_in_order_from, 17);
}

/// The lobby: selects the dungeon and stage and enters; starts over when the
/// loading screen does not come within 7 seconds.
pub open spec fn exp_enter_lobby_spec() -> Seq<Op> {
    seq![
        Op::Ask(Cond::InF8Lobby),
        Op::SkipIf(true, 3),
        Op::Act(Act::CheckActivity),
        Op::Act(Act::Sleep(100)),
        Op::Back(4),
        Op::Call(Script::SelectDungeon),
        Op::Call(Script::ExpSelectStage),
        Op::Call(Script::EnterDungeon),
        Op::Call(Script::CheatEngineOn),
        Op::StartTimer(TimerId::First),
        Op::Ask(Cond::LoadingScreen),
        Op::SkipIf(true, 4),
        Op::SkipIfElapsed(TimerId::First, 7999, 2),
        Op::Act(Act::CheckActivity),
        Op::Back(4),
        Op::Back(15),
        Op::Call(Script::CheatEngineOff),
        Op::Finish(true),
    ]
}

/// The lobby: selects the dungeon and stage and enters; starts over when the
/// loading screen does not come within 7 seconds.
pub fn exp_enter_lobby() -> (p: Vec<Op>)
    ensures
        p@ == exp_enter_lobby_spec(),
{
    vec![
        Op::Ask(Cond::InF8Lobby),
        Op::SkipIf(true, 3),
        Op::Act(Act::CheckActivity),
        Op::Act(Act::Sleep(100)),
        Op::Back(4),
        Op::Call(Script::SelectDungeon),
        Op::Call(Script::ExpSelectStage),
        Op::Call(Script::EnterDungeon),
        Op::Call(Script::CheatEngineOn),
        Op::StartTimer(TimerId::First),
        Op::Ask(Cond::LoadingScreen),
        Op::SkipIf(true, 4),
        Op::SkipIfElapsed(TimerId::First, 7999, 2),
        Op::Act(Act::CheckActivity),
        Op::Back(4),
        Op::Back(15),
        Op::Call(Script::CheatEngineOff),
        Op::Finish(true),
    ]
}

pub(crate) proof fn lemma_exp_enter_lobby_in_order()
    ensures
        ops_in_order_from(exp_enter_lobby_spec(), 0),
{
    reveal_with_fuel(ops_in_order_from, 19);
}

pub(crate) proof fn lemma_exp_enter_lobby_leaves_runs()
    ensures
        runs_untouched_from(exp_enter_lobby_spec(), 0),
{
    reveal_with_fuel(runs_untouched_from, 19);
}

/// Drags the stage selection to the left until a stage is selected, and once
/// more when the selection is gone 200 ms later; then types the configured
/// stage.
pub open spec fn exp_select_stage_spec() -> Seq<Op> {
    seq![
        Op::Act(Act::CheckActivity),
        Op::Ask(Cond::StageSelected),
        Op::SkipIf(true, 9),
        Op::Act(Act::Cursor(Target::StageRight)),
        Op::Act(Act::Sleep(50)),
        Op::Act(Act::MouseDown),
        Op::Act(Act::Sleep(50)),
        Op::Act(Act::MouseLeft(400)),
        Op::Act(Act::Sleep(50)),
        Op::Act(Act::MouseUp),
        Op::Act(Act::Sleep(50)),
        Op::Back(11),
        Op::Act(Act::Sleep(200)),
        Op::Ask(Cond::StageSelected),
        Op::SkipIf(true, 1),
        Op::Back(15),
        Op::Act(Act::TypeStage),
        Op::Act(Act::Sleep(150)),
        Op::Finish(true),
    ]
}

/// Drags the stage selection to the left until a stage is selected, and once
/// more when the selection is gone 200 ms later; then types the configured
/// stage.
pub fn exp_select_stage() -> (p: Vec<Op>)
    ensures
        p@ == exp_select_stage_spec(),
{
    vec![
        Op::Act(Act::CheckActivity),
        Op::Ask(Cond::StageSelected),
        Op::SkipIf(true, 9),
        Op::Act(Act::Cursor(Target::StageRight)),
        Op::Act(Act::Sleep(50)),
        Op::Act(Act::MouseDown),
        Op::Act(Act::Sleep(50)),
        Op::Act(Act::MouseLeft(400)),
        Op::Act(Act::Sleep(50)),
        Op::Act(Act::MouseUp),
        Op::Act(Act::Sleep(50)),
        Op::Back(11),
        Op::Act(Act::Sleep(200)),
        Op::Ask(Cond::StageSelected),
        Op::SkipIf(true, 1),
        Op::Back(15),
        Op::Act(Act::TypeStage),
        Op::Act(Act::Sleep(150)),
        Op::Finish(true),
    ]
}

pub(crate) proof fn lemma_exp_select_stage_in_order()
    ensures
        ops_in_order_from(exp_select_stage_spec(), 0),
{
    reveal_with_fuel(ops_in_order_from, 20);
}

pub(crate) proof fn lemma_exp_select_stage_leaves_runs()
    ensures
        runs_untouched_from(exp_select_stage_spec(), 0),
{
    reveal_with_fuel(runs_untouched_from, 20);
}

/// Starts a run: the game's own animation speed, the experience at the start,
/// into the dungeon and on to the dummy room.
pub open spec fn exp_move_to_dungeon_spec() -> Seq<Op> {
    seq![
        Op::Act(Act::MarkRunStart),
        Op::Act(Act::AnimationSpeed(Speed::Normal)),
        Op::Call(Script::WaitLoadingScreen),
        Op::Act(Act::MarkRunStartExp),
        Op::Call(Script::RunIntoDungeon),
        Op::SkipIf(false, 3),
        Op::Call(Script::ExpMoveToDummyRoom),
        Op::SkipIf(false, 1),
        Op::Finish(true),
        Op::Finish(false),
    ]
}

/// Starts a run: the game's own animation speed, the experience at the start,
/// into the dungeon and on to the dummy room.
pub fn exp_move_to_dungeon() -> (p: Vec<Op>)
    ensures
        p@ == exp_move_to_dungeon_spec(),
{
    vec![
        Op::Act(Act::MarkRunStart),
        Op::Act(Act::AnimationSpeed(Speed::Normal)),
        Op::Call(Script::WaitLoadingScreen),
        Op::Act(Act::MarkRunStartExp),
        Op::Call(Script::RunIntoDungeon),
        Op::SkipIf(false, 3),
        Op::Call(Script::ExpMoveToDummyRoom),
        Op::SkipIf(false, 1),
        Op::Finish(true),
        Op::Finish(false),
    ]
}

pub(crate) proof fn lemma_exp_move_to_dungeon_in_order()
    ensures
        ops_in_order_from(exp_move_to_dungeon_spec(), 0),
{
    reveal_with_fuel(ops_in_order_from, 11);
}

pub(crate) proof fn lemma_exp_move_to_dungeon_leaves_runs()
    ensures
        runs_untouched_from(exp_move_to_dungeon_spec(), 0),
{
    reveal_with_fuel(runs_untouched_from, 11);
}

/// Uses the experience charm and the soup when they are not active, the
/// repair tools when due (for 6 seconds), then walks to the dummy room.
pub open spec fn exp_move_to_dummy_room_spec() -> Seq<Op> {
    seq![
        Op::Call(Script::WaitLoadingScreen),
        Op::Act(Act::Sleep(250)),
        Op::Ask(Cond::ExpCharmActive),
        Op::SkipIf(true, 1),
        Op::Act(Act::Hotkey(Hotkey::UseExpCharm)),
        Op::Ask(Cond::SoupActive),
        Op::SkipIf(true, 5),
        Op::Act(Act::Hotkey(Hotkey::UseSoup)),
        Op::Act(Act::Sleep(1000)),
        Op::Act(Act::KeyDown(VK_W)),
        Op::Act(Act::Sleep(2)),
        Op::Act(Act::KeyUp(VK_W)),
        Op::Ask(Cond::RepairDue),
        Op::SkipIf(false, 5),
        Op::StartTimer(TimerId::First),
        Op::SkipIfElapsed(TimerId::First, 6999, 3),
        Op::Act(Act::Hotkey(Hotkey::UseRepairTools)),
        Op::Act(Act::Sleep(250)),
        Op::Back(3),
        Op::Act(Act::AnimationSpeed(Speed::Configured)),
        Op::Act(Act::KeyDown(VK_W)),
        Op::Act(Act::KeyDown(VK_SHIFT)),
        Op::Act(Act::SleepScaled(12500)),
        Op::Act(Act::KeyUp(VK_SHIFT)),
        Op::Act(Act::KeyUp(VK_W)),
        Op::Act(Act::KeyDown(VK_S)),
        Op::Act(Act::SleepScaled(1500)),
        Op::Act(Act::KeyUp(VK_S)),
        Op::Act(Act::KeyDown(VK_A)),
        Op::Act(Act::SleepScaled(11000)),
        Op::Act(Act::KeyUp(VK_A)),
        Op::Act(Act::KeyDown(VK_W)),
        Op::Act(Act::KeyDown(VK_SHIFT)),
        Op::Act(Act::SleepScaled(3500)),
        Op::Act(Act::KeyUp(VK_SHIFT)),
        Op::Act(Act::KeyUp(VK_W)),
        Op::Call(Script::ExpPullDummyRoom),
        Op::SkipIf(false, 1),
        Op::Finish(true),
        Op::Finish(false),
    ]
}

/// Uses the experience charm and the soup when they are not active, the
/// repair tools when due (for 6 seconds), then walks to the dummy room.
pub fn exp_move_to_dummy_room() -> (p: Vec<Op>)
    ensures
        p@ == exp_move_to_dummy_room_spec(),
{
    vec![
        Op::Call(Script::WaitLoadingScreen),
        Op::Act(Act::Sleep(250)),
        Op::Ask(Cond::ExpCharmActive),
        Op::SkipIf(true, 1),
        Op::Act(Act::Hotkey(Hotkey::UseExpCharm)),
        Op::Ask(Cond::SoupActive),
        Op::SkipIf(true, 5),
        Op::Act(Act::Hotkey(Hotkey::UseSoup)),
        Op::Act(Act::Sleep(1000)),
        Op::Act(Act::KeyDown(VK_W)),
        Op::Act(Act::Sleep(2)),
        Op::Act(Act::KeyUp(VK_W)),
        Op::Ask(Cond::RepairDue),
        Op::SkipIf(false, 5),
        Op::StartTimer(TimerId::First),
        Op::SkipIfElapsed(TimerId::First, 6999, 3),
        Op::Act(Act::Hotkey(Hotkey::UseRepairTools)),
        Op::Act(Act::Sleep(250)),
        Op::Back(3),
        Op::Act(Act::AnimationSpeed(Speed::Configured)),
        Op::Act(Act::KeyDown(VK_W)),
        Op::Act(Act::KeyDown(VK_SHIFT)),
        Op::Act(Act::SleepScaled(12500)),
        Op::Act(Act::KeyUp(VK_SHIFT)),
        Op::Act(Act::KeyUp(VK_W)),
        Op::Act(Act::KeyDown(VK_S)),
        Op::Act(Act::SleepScaled(1500)),
        Op::Act(Act::KeyUp(VK_S)),
        Op::Act(Act::KeyDown(VK_A)),
        Op::Act(Act::SleepScaled(11000)),
        Op::Act(Act::KeyUp(VK_A)),
        Op::Act(Act::KeyDown(VK_W)),
        Op::Act(Act::KeyDown(VK_SHIFT)),
        Op::Act(Act::SleepScaled(3500)),
        Op::Act(Act::KeyUp(VK_SHIFT)),
        Op::Act(Act::KeyUp(VK_W)),
        Op::Call(Script::ExpPullDummyRoom),
        Op::SkipIf(false, 1),
        Op::Finish(true),
        Op::Finish(false),
    ]
}

pub(crate) proof fn lemma_exp_move_to_dummy_room_in_order()
    ensures
        ops_in_order_from(exp_move_to_dummy_room_spec(), 0),
{
    reveal_with_fuel(ops_in_order_from, 41);
}

pub(crate) proof fn lemma_exp_move_to_dummy_room_leaves_runs()
    ensures
        runs_untouched_from(exp_move_to_dummy_room_spec(), 0),
{
    reveal_with_fuel(runs_untouched_from, 41);
}

/// Walks the path through the dummy room that pulls all the dummies.
pub open spec fn exp_pull_dummy_room_spec() -> Seq<Op> {
    seq![
        Op::Act(Act::KeyDown(VK_W)),
        Op::Act(Act::KeyDown(VK_A)),
        Op::Act(Act::Sleep(300)),
        Op::Act(Act::KeyUp(VK_W)),
        Op::Act(Act::Sleep(150)),
        Op::Act(Act::KeyUp(VK_A)),
        Op::Act(Act::Sleep(500)),
        Op::Act(Act::KeyDown(VK_D)),
        Op::Act(Act::Sleep(2550)),
        Op::Act(Act::KeyDown(VK_W)),
        Op::Act(Act::Sleep(550)),
        Op::Act(Act::KeyUp(VK_D)),
        Op::Act(Act::Sleep(1700)),
        Op::Act(Act::KeyDown(VK_A)),
        Op::Act(Act::Sleep(900)),
        Op::Act(Act::KeyUp(VK_W)),
        Op::Act(Act::Sleep(1400)),
        Op::Act(Act::KeyUp(VK_A)),
        Op::Act(Act::Sleep(515)),
        Op::Act(Act::KeyDown(VK_W)),
        Op::Act(Act::KeyDown(VK_D)),
        Op::Act(Act::Sleep(2000)),
        Op::Act(Act::KeyUp(VK_W)),
        Op::Act(Act::Sleep(2150)),
        Op::Act(Act::KeyDown(VK_W)),
        Op::Act(Act::Sleep(650)),
        Op::Act(Act::KeyUp(VK_D)),
        Op::Act(Act::Sleep(1625)),
        Op::Act(Act::KeyDown(VK_A)),
        Op::Act(Act::Sleep(450)),
        Op::Act(Act::KeyUp(VK_W)),
        Op::Act(Act::Sleep(1350)),
        Op::Act(Act::KeyUp(VK_A)),
        Op::Act(Act::KeyUp(VK_W)),
        Op::Call(Script::ExpKillDummies),
        Op::SkipIf(false, 1),
        Op::Finish(true),
        Op::Finish(false),
    ]
}

/// Walks the path through the dummy room that pulls all the dummies.
pub fn exp_pull_dummy_room() -> (p: Vec<Op>)
    ensures
        p@ == exp_pull_dummy_room_spec(),
{
    vec![
        Op::Act(Act::KeyDown(VK_W)),
        Op::Act(Act::KeyDown(VK_A)),
        Op::Act(Act::Sleep(300)),
        Op::Act(Act::KeyUp(VK_W)),
        Op::Act(Act::Sleep(150)),
        Op::Act(Act::KeyUp(VK_A)),
        Op::Act(Act::Sleep(500)),
        Op::Act(Act::KeyDown(VK_D)),
        Op::Act(Act::Sleep(2550)),
        Op::Act(Act::KeyDown(VK_W)),
        Op::Act(Act::Sleep(550)),
        Op::Act(Act::KeyUp(VK_D)),
        Op::Act(Act::Sleep(1700)),
        Op::Act(Act::KeyDown(VK_A)),
        Op::Act(Act::Sleep(900)),
        Op::Act(Act::KeyUp(VK_W)),
        Op::Act(Act::Sleep(1400)),
        Op::Act(Act::KeyUp(VK_A)),
        Op::Act(Act::Sleep(515)),
        Op::Act(Act::KeyDown(VK_W)),
        Op::Act(Act::KeyDown(VK_D)),
        Op::Act(Act::Sleep(2000)),
        Op::Act(Act::KeyUp(VK_W)),
        Op::Act(Act::Sleep(2150)),
        Op::Act(Act::KeyDown(VK_W)),
        Op::Act(Act::Sleep(650)),
        Op::Act(Act::KeyUp(VK_D)),
        Op::Act(Act::Sleep(1625)),
        Op::Act(Act::KeyDown(VK_A)),
        Op::Act(Act::Sleep(450)),
        Op::Act(Act::KeyUp(VK_W)),
        Op::Act(Act::Sleep(1350)),
        Op::Act(Act::KeyUp(VK_A)),
        Op::Act(Act::KeyUp(VK_W)),
        Op::Call(Script::ExpKillDummies),
        Op::SkipIf(false, 1),
        Op::Finish(true),
        Op::Finish(false),
    ]
}

pub(crate) proof fn lemma_exp_pull_dummy_room_in_order()
    ensures
        ops_in_order_from(exp_pull_dummy_room_spec(), 0),
{
    reveal_with_fuel(ops_in_order_from, 39);
}

pub(crate) proof fn lemma_exp_pull_dummy_room_fails_with_its_calls()
    ensures
        call_failures_end_from(exp_pull_dummy_room_spec(), 0),
{
    reveal_with_fuel(call_failures_end_from, 39);
}

pub(crate) proof fn lemma_exp_pull_dummy_room_leaves_runs()
    ensures
        runs_untouched_from(exp_pull_dummy_room_spec(), 0),
{
    reveal_with_fuel(runs_untouched_from, 39);
}

/// Fights the dummies in auto combat for the configured time (crowd control
/// after 3 and 6 seconds); a death fails the run. Then either out of combat,
/// which leaves the run undecided, or dead to the totems, then revived and out.
pub open spec fn exp_kill_dummies_spec() -> Seq<Op> {
    seq![
        Op::Act(Act::CameraYaw(90)),
        Op::Act(Act::Sleep(3850)),
        Op::Act(Act::Hotkey(Hotkey::DummyOpener)),
        Op::Act(Act::Sleep(100)),
        Op::Act(Act::Hotkey(Hotkey::DummyOpener)),
        Op::Act(Act::Sleep(100)),
        Op::Act(Act::Hotkey(Hotkey::DummyOpener)),
        Op::Act(Act::Sleep(100)),
        Op::Act(Act::Hotkey(Hotkey::DummyOpener)),
        Op::Act(Act::Sleep(100)),
        Op::Act(Act::Hotkey(Hotkey::DummyOpener)),
        Op::Act(Act::Sleep(100)),
        Op::Act(Act::Hotkey(Hotkey::ToggleAutoCombat)),
        Op::StartTimer(TimerId::First),
        Op::Fetch(Quantity::CombatTime),
        Op::Act(Act::CheckActivity),
        Op::SkipIfElapsed(TimerId::First, 3000, 1),
        Op::Skip(2),
        Op::Act(Act::Hotkey(Hotkey::CcDummies)),
        Op::Act(Act::Sleep(100)),
        Op::SkipIfElapsed(TimerId::First, 6000, 1),
        Op::Skip(2),
        Op::Act(Act::Hotkey(Hotkey::CcDummies2)),
        Op::Act(Act::Sleep(100)),
        Op::SkipIfFetchedSeconds(TimerId::First, 7),
        Op::Ask(Cond::Revive),
        Op::SkipIf(true, 1),
        Op::Back(12),
        Op::Act(Act::Hotkey(Hotkey::ToggleAutoCombat)),
        Op::Act(Act::MarkRunFailed),
        Op::Call(Script::ExpLeaveDungeon),
        Op::Finish(true),
        Op::Act(Act::Hotkey(Hotkey::ToggleAutoCombat)),
        Op::Act(Act::CheckActivity),
        Op::Ask(Cond::Revive),
        Op::SkipIf(true, 3),
        Op::Ask(Cond::OutOfCombat),
        Op::SkipIf(true, 12),
        Op::Back(5),
        Op::Act(Act::CheckActivity),
        Op::Ask(Cond::Revive),
        Op::SkipIf(false, 6),
        Op::Call(Script::CheatEngineOn),
        Op::Act(Act::KeyDown(VK_4)),
        Op::Act(Act::Sleep(2)),
        Op::Act(Act::KeyUp(VK_4)),
        Op::Act(Act::Sleep(10)),
        Op::Back(8),
        Op::Call(Script::ExpLeaveDungeon),
        Op::Finish(true),
        Op::Finish(false),
    ]
}

/// Fights the dummies in auto combat for the configured time (crowd control
/// after 3 and 6 seconds); a death fails the run. Then either out of combat,
/// which leaves the run undecided, or dead to the totems, then revived and out.
pub fn exp_kill_dummies() -> (p: Vec<Op>)
    ensures
        p@ == exp_kill_dummies_spec(),
{
    vec![
        Op::Act(Act::CameraYaw(90)),
        Op::Act(Act::Sleep(3850)),
        Op::Act(Act::Hotkey(Hotkey::DummyOpener)),
        Op::Act(Act::Sleep(100)),
        Op::Act(Act::Hotkey(Hotkey::DummyOpener)),
        Op::Act(Act::Sleep(100)),
        Op::Act(Act::Hotkey(Hotkey::DummyOpener)),
        Op::Act(Act::Sleep(100)),
        Op::Act(Act::Hotkey(Hotkey::DummyOpener)),
        Op::Act(Act::Sleep(100)),
        Op::Act(Act::Hotkey(Hotkey::DummyOpener)),
        Op::Act(Act::Sleep(100)),
        Op::Act(Act::Hotkey(Hotkey::ToggleAutoCombat)),
        Op::StartTimer(TimerId::First),
        Op::Fetch(Quantity::CombatTime),
        Op::Act(Act::CheckActivity),
        Op::SkipIfElapsed(TimerId::First, 3000, 1),
        Op::Skip(2),
        Op::Act(Act::Hotkey(Hotkey::CcDummies)),
        Op::Act(Act::Sleep(100)),
        Op::SkipIfElapsed(TimerId::First, 6000, 1),
        Op::Skip(2),
        Op::Act(Act::Hotkey(Hotkey::CcDummies2)),
        Op::Act(Act::Sleep(100)),
        Op::SkipIfFetchedSeconds(TimerId::First, 7),
        Op::Ask(Cond::Revive),
        Op::SkipIf(true, 1),
        Op::Back(12),
        Op::Act(Act::Hotkey(Hotkey::ToggleAutoCombat)),
        Op::Act(Act::MarkRunFailed),
        Op::Call(Script::ExpLeaveDungeon),
        Op::Finish(true),
        Op::Act(Act::Hotkey(Hotkey::ToggleAutoCombat)),
        Op::Act(Act::CheckActivity),
        Op::Ask(Cond::Revive),
        Op::SkipIf(true, 3),
        Op::Ask(Cond::OutOfCombat),
        Op::SkipIf(true, 12),
        Op::Back(5),
        Op::Act(Act::CheckActivity),
        Op::Ask(Cond::Revive),
        Op::SkipIf(false, 6),
        Op::Call(Script::CheatEngineOn),
        Op::Act(Act::KeyDown(VK_4)),
        Op::Act(Act::Sleep(2)),
        Op::Act(Act::KeyUp(VK_4)),
        Op::Act(Act::Sleep(10)),
        Op::Back(8),
        Op::Call(Script::ExpLeaveDungeon),
        Op::Finish(true),
        Op::Finish(false),
    ]
}

pub(crate) proof fn lemma_exp_kill_dummies_in_order()
    ensures
        ops_in_order_from(exp_kill_dummies_spec(), 0),
{
    reveal_with_fuel(ops_in_order_from, 52);
}

pub(crate) proof fn lemma_exp_kill_dummies_leaves_runs()
    ensures
        runs_untouched_from(exp_kill_dummies_spec(), 0),
{
    reveal_with_fuel(runs_untouched_from, 52);
}

/// Leaves the dungeon: until the loading screen shows, revives when dead,
/// ends the speed hack and walks out backwards.
pub open spec fn exp_leave_dungeon_spec() -> Seq<Op> {
    seq![
        Op::Act(Act::CheckActivity),
        Op::Ask(Cond::LoadingScreen),
        Op::SkipIf(false, 2),
        Op::Call(Script::CheatEngineOff),
        Op::Finish(true),
        Op::Ask(Cond::Revive),
        Op::SkipIf(false, 2),
        Op::Act(Act::Press(VK_4)),
        Op::Act(Act::Sleep(50)),
        Op::Call(Script::CheatEngineOff),
        Op::Act(Act::KeyDown(VK_W)),
        Op::Act(Act::CameraYaw(180)),
        Op::Act(Act::Sleep(1000)),
        Op::Back(13),
    ]
}

/// Leaves the dungeon: until the loading screen shows, revives when dead,
/// ends the speed hack and walks out backwards.
pub fn exp_leave_dungeon() -> (p: Vec<Op>)
    ensures
        p@ == exp_leave_dungeon_spec(),
{
    vec![
        Op::Act(Act::CheckActivity),
        Op::Ask(Cond::LoadingScreen),
        Op::SkipIf(false, 2),
        Op::Call(Script::CheatEngineOff),
        Op::Finish(true),
        Op::Ask(Cond::Revive),
        Op::SkipIf(false, 2),
        Op::Act(Act::Press(VK_4)),
        Op::Act(Act::Sleep(50)),
        Op::Call(Script::CheatEngineOff),
        Op::Act(Act::KeyDown(VK_W)),
        Op::Act(Act::CameraYaw(180)),
        Op::Act(Act::Sleep(1000)),
        Op::Back(13),
    ]
}

pub(crate) proof fn lemma_exp_leave_dungeon_in_order()
    ensures
        ops_in_order_from(exp_leave_dungeon_spec(), 0),
{
    reveal_with_fuel(ops_in_order_from, 15);
}

pub(crate) proof fn lemma_exp_leave_dungeon_leaves_runs()
    ensures
        runs_untouched_from(exp_leave_dungeon_spec(), 0),
{
    reveal_with_fuel(runs_untouched_from, 15);
}

/// Brings the client back to the dungeon's entrance: waits out a loading
/// screen, then clears dialogues and escapes through the menu until the
/// player stands at the entrance; the run counts as failed.
pub open spec fn exp_fail_safe_spec() -> Seq<Op> {
    seq![
        Op::Ask(Cond::LoadingScreen),
        Op::SkipIf(false, 2),
        Op::Act(Act::Sleep(100)),
        Op::Back(3),
        Op::Act(Act::CheckActivity),
        Op::Ask(Cond::At(Place::ExpEntrance)),
        Op::SkipIf(true, 63),
        Op::Act(Act::KeyDown(VK_Y)),
        Op::Act(Act::KeyDown(VK_F)),
        Op::Act(Act::KeyUp(VK_Y)),
        Op::Act(Act::KeyUp(VK_F)),
        Op::Act(Act::Sleep(100)),
        Op::Act(Act::KeyDown(VK_Y)),
        Op::Act(Act::KeyDown(VK_F)),
        Op::Act(Act::KeyUp(VK_Y)),
        Op::Act(Act::KeyUp(VK_F)),
        Op::Act(Act::Sleep(100)),
        Op::Act(Act::KeyDown(VK_Y)),
        Op::Act(Act::KeyDown(VK_F)),
        Op::Act(Act::KeyUp(VK_Y)),
        Op::Act(Act::KeyUp(VK_F)),
        Op::Act(Act::Sleep(100)),
        Op::Act(Act::KeyDown(VK_Y)),
        Op::Act(Act::KeyDown(VK_F)),
        Op::Act(Act::KeyUp(VK_Y)),
        Op::Act(Act::KeyUp(VK_F)),
        Op::Act(Act::Sleep(100)),
        Op::Act(Act::KeyDown(VK_Y)),
        Op::Act(Act::KeyDown(VK_F)),
        Op::Act(Act::KeyUp(VK_Y)),
        Op::Act(Act::KeyUp(VK_F)),
        Op::Act(Act::Sleep(100)),
        Op::Act(Act::KeyDown(VK_Y)),
        Op::Act(Act::KeyDown(VK_F)),
        Op::Act(Act::KeyUp(VK_Y)),
        Op::Act(Act::KeyUp(VK_F)),
        Op::Act(Act::Sleep(100)),
        Op::Act(Act::KeyDown(VK_Y)),
        Op::Act(Act::KeyDown(VK_F)),
        Op::Act(Act::KeyUp(VK_Y)),
        Op::Act(Act::KeyUp(VK_F)),
        Op::Act(Act::Sleep(100)),
        Op::Act(Act::KeyDown(VK_Y)),
        Op::Act(Act::KeyDown(VK_F)),
        Op::Act(Act::KeyUp(VK_Y)),
        Op::Act(Act::KeyUp(VK_F)),
        Op::Act(Act::Sleep(100)),
        Op::Act(Act::KeyDown(VK_Y)),
        Op::Act(Act::KeyDown(VK_F)),
        Op::Act(Act::KeyUp(VK_Y)),
        Op::Act(Act::KeyUp(VK_F)),
        Op::Act(Act::Sleep(100)),
        Op::Act(Act::KeyDown(VK_Y)),
        Op::Act(Act::KeyDown(VK_F)),
        Op::Act(Act::KeyUp(VK_Y)),
        Op::Act(Act::KeyUp(VK_F)),
        Op::Act(Act::Sleep(100)),
        Op::Act(Act::KeyDown(VK_Y)),
        Op::Act(Act::KeyDown(VK_N)),
        Op::Act(Act::KeyDown(VK_F)),
        Op::Act(Act::KeyUp(VK_Y)),
        Op::Act(Act::KeyUp(VK_N)),
        Op::Act(Act::KeyUp(VK_F)),
        Op::Act(Act::Sleep(150)),
        Op::Act(Act::Press(VK_ESCAPE)),
        Op::Act(Act::Sleep(500)),
        Op::Act(Act::Cursor(Target::Escape)),
        Op::Act(Act::Sleep(50)),
        Op::Act(Act::Click(Target::Escape)),
        Op::Back(65),
        Op::Act(Act::MarkRunFailed),
        Op::Call(Script::ExpLeaveDungeon),
        Op::Finish(true),
    ]
}

/// Brings the client back to the dungeon's entrance: waits out a loading
/// screen, then clears dialogues and escapes through the menu until the
/// player stands at the entrance; the run counts as failed.
pub fn exp_fail_safe() -> (p: Vec<Op>)
    ensures
        p@ == exp_fail_safe_spec(),
{
    vec![
        Op::Ask(Cond::LoadingScreen),
        Op::SkipIf(false, 2),
        Op::Act(Act::Sleep(100)),
        Op::Back(3),
        Op::Act(Act::CheckActivity),
        Op::Ask(Cond::At(Place::ExpEntrance)),
        Op::SkipIf(true, 63),
        Op::Act(Act::KeyDown(VK_Y)),
        Op::Act(Act::KeyDown(VK_F)),
        Op::Act(Act::KeyUp(VK_Y)),
        Op::Act(Act::KeyUp(VK_F)),
        Op::Act(Act::Sleep(100)),
        Op::Act(Act::KeyDown(VK_Y)),
        Op::Act(Act::KeyDown(VK_F)),
        Op::Act(Act::KeyUp(VK_Y)),
        Op::Act(Act::KeyUp(VK_F)),
        Op::Act(Act::Sleep(100)),
        Op::Act(Act::KeyDown(VK_Y)),
        Op::Act(Act::KeyDown(VK_F)),
        Op::Act(Act::KeyUp(VK_Y)),
        Op::Act(Act::KeyUp(VK_F)),
        Op::Act(Act::Sleep(100)),
        Op::Act(Act::KeyDown(VK_Y)),
        Op::Act(Act::KeyDown(VK_F)),
        Op::Act(Act::KeyUp(VK_Y)),
        Op::Act(Act::KeyUp(VK_F)),
        Op::Act(Act::Sleep(100)),
        Op::Act(Act::KeyDown(VK_Y)),
        Op::Act(Act::KeyDown(VK_F)),
        Op::Act(Act::KeyUp(VK_Y)),
        Op::Act(Act::KeyUp(VK_F)),
        Op::Act(Act::Sleep(100)),
        Op::Act(Act::KeyDown(VK_Y)),
        Op::Act(Act::KeyDown(VK_F)),
        Op::Act(Act::KeyUp(VK_Y)),
        Op::Act(Act::KeyUp(VK_F)),
        Op::Act(Act::Sleep(100)),
        Op::Act(Act::KeyDown(VK_Y)),
        Op::Act(Act::KeyDown(VK_F)),
        Op::Act(Act::KeyUp(VK_Y)),
        Op::Act(Act::KeyUp(VK_F)),
        Op::Act(Act::Sleep(100)),
        Op::Act(Act::KeyDown(VK_Y)),
        Op::Act(Act::KeyDown(VK_F)),
        Op::Act(Act::KeyUp(VK_Y)),
        Op::Act(Act::KeyUp(VK_F)),
        Op::Act(Act::Sleep(100)),
        Op::Act(Act::KeyDown(VK_Y)),
        Op::Act(Act::KeyDown(VK_F)),
        Op::Act(Act::KeyUp(VK_Y)),
        Op::Act(Act::KeyUp(VK_F)),
        Op::Act(Act::Sleep(100)),
        Op::Act(Act::KeyDown(VK_Y)),
        Op::Act(Act::KeyDown(VK_F)),
        Op::Act(Act::KeyUp(VK_Y)),
        Op::Act(Act::KeyUp(VK_F)),
        Op::Act(Act::Sleep(100)),
        Op::Act(Act::KeyDown(VK_Y)),
        Op::Act(Act::KeyDown(VK_N)),
        Op::Act(Act::KeyDown(VK_F)),
        Op::Act(Act::KeyUp(VK_Y)),
        Op::Act(Act::KeyUp(VK_N)),
        Op::Act(Act::KeyUp(VK_F)),
        Op::Act(Act::Sleep(150)),
        Op::Act(Act::Press(VK_ESCAPE)),
        Op::Act(Act::Sleep(500)),
        Op::Act(Act::Cursor(Target::Escape)),
        Op::Act(Act::Sleep(50)),
        Op::Act(Act::Click(Target::Escape)),
        Op::Back(65),
        Op::Act(Act::MarkRunFailed),
        Op::Call(Script::ExpLeaveDungeon),
        Op::Finish(true),
    ]
}

pub(crate) proof fn lemma_exp_fail_safe_in_order()
    ensures
        ops_in_order_from(exp_fail_safe_spec(), 0),
{
    reveal_with_fuel(ops_in_order_from, 74);
}

pub(crate) proof fn lemma_exp_fail_safe_leaves_runs()
    ensures
        runs_untouched_from(exp_fail_safe_spec(), 0),
{
    reveal_with_fuel(runs_untouched_from, 74);
}

} // verus!
