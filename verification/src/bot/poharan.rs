//! The scripts of the Poharan bot: the first client (a warlock) opens the
//! portals and fights, the other clients follow.
use vstd::prelude::*;

use super::vm::{Act, Cond, Hotkey, MarkId, Op, Place, Quantity, Speed, TimerId};
use super::{call_failures_end_from, ops_in_order_from, runs_untouched_from, Script};
use crate::keys::{VK_A, VK_D, VK_ESCAPE, VK_F, VK_N, VK_RETURN, VK_S, VK_SHIFT, VK_TAB, VK_W, VK_Y};

verus! {

/// The Poharan bot: waits for the game window, enters the lobby, then runs the
/// dungeon over and over; after a failed run every client is brought back to
/// the lobby.
pub open spec fn poharan_start_spec() -> Seq<Op> {
    seq![
        Op::Ask(Cond::GameInFront),
        Op::SkipIf(true, 2),
        Op::Act(Act::Sleep(100)),
        Op::Back(3),
        Op::Act(Act::TakeStartWindow),
        Op::Call(Script::PoharanEnterLobby),
        Op::Act(Act::SwitchToStart),
        Op::Call(Script::PoharanMoveToDungeon),
        Op::SkipIf(true, 11),
        Op::Act(Act::Hotkey(Hotkey::ShadowPlay)),
        Op::Act(Act::RecordRun(false)),
        Op::Act(Act::SwitchToStart),
        Op::Call(Script::PoharanFailSafe),
        Op::ResetCount,
        Op::NextClient(false),
        Op::SkipIf(false, 2),
        Op::Call(Script::PoharanFailSafe),
        Op::Back(3),
        Op::Call(Script::PoharanEnterLobby),
        Op::Skip(1),
        Op::Act(Act::RecordRun(true)),
        Op::Act(Act::CountRun),
        Op::Back(16),
    ]
}

/// The Poharan bot: waits for the game window, enters the lobby, then runs the
/// dungeon over and over; after a failed run every client is brought back to
/// the lobby.
pub fn poharan_start() -> (p: Vec<Op>)
    ensures
        p@ == poharan_start_spec(),
{
    vec![
        Op::Ask(Cond::GameInFront),
        Op::SkipIf(true, 2),
        Op::Act(Act::Sleep(100)),
        Op::Back(3),
        Op::Act(Act::TakeStartWindow),
        Op::Call(Script::PoharanEnterLobby),
        Op::Act(Act::SwitchToStart),
        Op::Call(Script::PoharanMoveToDungeon),
        Op::SkipIf(true, 11),
        Op::Act(Act::Hotkey(Hotkey::ShadowPlay)),
        Op::Act(Act::RecordRun(false)),
        Op::Act(Act::SwitchToStart),
        Op::Call(Script::PoharanFailSafe),
        Op::ResetCount,
        Op::NextClient(false),
        Op::SkipIf(false, 2),
        Op::Call(Script::PoharanFailSafe),
        Op::Back(3),
        Op::Call(Script::PoharanEnterLobby),
        Op::Skip(1),
        Op::Act(Act::RecordRun(true)),
        Op::Act(Act::CountRun),
        Op::Back(16),
    ]
}

pub(crate) proof fn lemma_poharan_start_in_order()
    ensures
        ops_in_order_from(poharan_start_spec(), 0),
{
    reveal_with_fuel(ops_in_order_from, 24);
}

/// The lobby: the first client invites the configured players (each twice),
/// the other clients accept and ready up, then the first client selects the
/// dungeon and stage and enters. Starts over when a client cannot ready up or
/// the loading screen does not come within 7 seconds.
pub open spec fn poharan_enter_lobby_spec() -> Seq<Op> {
    seq![
        Op::Act(Act::SwitchToStart),
        Op::Ask(Cond::InF8Lobby),
        Op::SkipIf(true, 3),
        Op::Act(Act::CheckActivity),
        Op::Act(Act::Sleep(100)),
        Op::Back(4),
        Op::Call(Script::OpenChat),
        Op::Act(Act::Sleep(150)),
        Op::ResetCount,
        Op::NextPlayer,
        Op::SkipIf(false, 9),
        Op::Act(Act::TypeInvite),
        Op::Act(Act::Sleep(5)),
        Op::Act(Act::Press(VK_RETURN)),
        Op::Act(Act::Sleep(5)),
        Op::Act(Act::TypeInvite),
        Op::Act(Act::Sleep(5)),
        Op::Act(Act::Press(VK_RETURN)),
        Op::Act(Act::Sleep(5)),
        Op::Back(10),
        Op::Act(Act::Sleep(400)),
        Op::ResetCount,
        Op::NextClient(false),
        Op::SkipIf(false, 14),
        Op::Ask(Cond::InF8Lobby),
        Op::SkipIf(true, 2),
        Op::Act(Act::CheckActivity),
        Op::Back(3),
        Op::Ask(Cond::HasInvite),
        Op::SkipIf(false, 1),
        Op::Call(Script::AcceptLobbyInvite),
        Op::Ask(Cond::PlayerReady),
        Op::SkipIf(true, 1),
        Op::Call(Script::ReadyUp),
        Op::Ask(Cond::PlayerReady),
        Op::SkipIf(true, 1),
        Op::Back(36),
        Op::Back(15),
        Op::Act(Act::SwitchToStart),
        Op::Call(Script::SelectDungeon),
        Op::Call(Script::SelectStage),
        Op::Call(Script::EnterDungeon),
        Op::Call(Script::CheatEngineOn),
        Op::StartTimer(TimerId::First),
        Op::Ask(Cond::LoadingScreen),
        Op::SkipIf(true, 4),
        Op::SkipIfElapsed(TimerId::First, 7999, 2),
        Op::Act(Act::CheckActivity),
        Op::Back(4),
        Op::Back(49),
        Op::Call(Script::CheatEngineOff),
        Op::Finish(true),
    ]
}

/// The lobby: the first client invites the configured players (each twice),
/// the other clients accept and ready up, then the first client selects the
/// dungeon and stage and enters. Starts over when a client cannot ready up or
/// the loading screen does not come within 7 seconds.
pub fn poharan_enter_lobby() -> (p: Vec<Op>)
    ensures
        p@ == poharan_enter_lobby_spec(),
{
    vec![
        Op::Act(Act::SwitchToStart),
        Op::Ask(Cond::InF8Lobby),
        Op::SkipIf(true, 3),
        Op::Act(Act::CheckActivity),
        Op::Act(Act::Sleep(100)),
        Op::Back(4),
        Op::Call(Script::OpenChat),
        Op::Act(Act::Sleep(150)),
        Op::ResetCount,
        Op::NextPlayer,
        Op::SkipIf(false, 9),
        Op::Act(Act::TypeInvite),
        Op::Act(Act::Sleep(5)),
        Op::Act(Act::Press(VK_RETURN)),
        Op::Act(Act::Sleep(5)),
        Op::Act(Act::TypeInvite),
        Op::Act(Act::Sleep(5)),
        Op::Act(Act::Press(VK_RETURN)),
        Op::Act(Act::Sleep(5)),
        Op::Back(10),
        Op::Act(Act::Sleep(400)),
        Op::ResetCount,
        Op::NextClient(false),
        Op::SkipIf(false, 14),
        Op::Ask(Cond::InF8Lobby),
        Op::SkipIf(true, 2),
        Op::Act(Act::CheckActivity),
        Op::Back(3),
        Op::Ask(Cond::HasInvite),
        Op::SkipIf(false, 1),
        Op::Call(Script::AcceptLobbyInvite),
        Op::Ask(Cond::PlayerReady),
        Op::SkipIf(true, 1),
        Op::Call(Script::ReadyUp),
        Op::Ask(Cond::PlayerReady),
        Op::SkipIf(true, 1),
        Op::Back(36),
        Op::Back(15),
        Op::Act(Act::SwitchToStart),
        Op::Call(Script::SelectDungeon),
        Op::Call(Script::SelectStage),
        Op::Call(Script::EnterDungeon),
        Op::Call(Script::CheatEngineOn),
        Op::StartTimer(TimerId::First),
        Op::Ask(Cond::LoadingScreen),
        Op::SkipIf(true, 4),
        Op::SkipIfElapsed(TimerId::First, 7999, 2),
        Op::Act(Act::CheckActivity),
        Op::Back(4),
        Op::Back(49),
        Op::Call(Script::CheatEngineOff),
        Op::Finish(true),
    ]
}

pub(crate) proof fn lemma_poharan_enter_lobby_in_order()
    ensures
        ops_in_order_from(poharan_enter_lobby_spec(), 0),
{
    reveal_with_fuel(ops_in_order_from, 53);
}

pub(crate) proof fn lemma_poharan_enter_lobby_leaves_runs()
    ensures
        runs_untouched_from(poharan_enter_lobby_spec(), 0),
{
    reveal_with_fuel(runs_untouched_from, 53);
}

/// Starts a run: the camera to 0 degrees after the first run, the animation
/// speed hack off, the first client into the dungeon.
pub open spec fn poharan_move_to_dungeon_spec() -> Seq<Op> {
    seq![
        Op::Act(Act::MarkRunStart),
        Op::Ask(Cond::RunsCounted),
        Op::SkipIf(false, 1),
        Op::Call(Script::CameraTo0),
        Op::Act(Act::Hotkey(Hotkey::AnimationSpeedHackOff)),
        Op::Call(Script::WaitLoadingScreen),
        Op::Call(Script::RunIntoDungeon),
        Op::SkipIf(false, 3),
        Op::Call(Script::PoharanMoveToBoss1),
        Op::SkipIf(false, 1),
        Op::Finish(true),
        Op::Finish(false),
    ]
}

/// Starts a run: the camera to 0 degrees after the first run, the animation
/// speed hack off, the first client into the dungeon.
pub fn poharan_move_to_dungeon() -> (p: Vec<Op>)
    ensures
        p@ == poharan_move_to_dungeon_spec(),
{
    vec![
        Op::Act(Act::MarkRunStart),
        Op::Ask(Cond::RunsCounted),
        Op::SkipIf(false, 1),
        Op::Call(Script::CameraTo0),
        Op::Act(Act::Hotkey(Hotkey::AnimationSpeedHackOff)),
        Op::Call(Script::WaitLoadingScreen),
        Op::Call(Script::RunIntoDungeon),
        Op::SkipIf(false, 3),
        Op::Call(Script::PoharanMoveToBoss1),
        Op::SkipIf(false, 1),
        Op::Finish(true),
        Op::Finish(false),
    ]
}

pub(crate) proof fn lemma_poharan_move_to_dungeon_in_order()
    ensures
        ops_in_order_from(poharan_move_to_dungeon_spec(), 0),
{
    reveal_with_fuel(ops_in_order_from, 13);
}

pub(crate) proof fn lemma_poharan_move_to_dungeon_leaves_runs()
    ensures
        runs_untouched_from(poharan_move_to_dungeon_spec(), 0),
{
    reveal_with_fuel(runs_untouched_from, 13);
}

/// Moves the first client to the portal, opens it, takes it to Tae Jangum and
/// walks into position.
pub open spec fn poharan_move_to_boss_1_spec() -> Seq<Op> {
    seq![
        Op::Call(Script::WaitLoadingScreen),
        Op::Act(Act::Sleep(250)),
        Op::Act(Act::KeyDown(VK_A)),
        Op::Act(Act::KeyDown(VK_W)),
        Op::Act(Act::KeyDown(VK_SHIFT)),
        Op::Act(Act::Sleep(350)),
        Op::Act(Act::KeyUp(VK_SHIFT)),
        Op::Act(Act::KeyUp(VK_A)),
        Op::Act(Act::Sleep(1750)),
        Op::Act(Act::KeyUp(VK_W)),
        Op::Call(Script::PoharanOpenPortal1),
        Op::StartTimer(TimerId::First),
        Op::Ask(Cond::PortalIcon),
        Op::SkipIf(true, 2),
        Op::SkipIfElapsed(TimerId::First, 3000, 29),
        Op::Back(3),
        Op::Act(Act::Hotkey(Hotkey::AnimationSpeedHackWarlockOn)),
        Op::StartTimer(TimerId::First),
        Op::Ask(Cond::OutOfCombat),
        Op::SkipIf(false, 1),
        Op::SkipIfElapsed(TimerId::First, 2999, 5),
        Op::SkipIfElapsed(TimerId::First, 5999, 4),
        Op::Ask(Cond::PortalIcon),
        Op::SkipIf(false, 1),
        Op::Act(Act::Press(VK_F)),
        Op::Back(7),
        Op::Call(Script::PoharanGetIntoCombat),
        Op::Act(Act::KeyDown(VK_W)),
        Op::Act(Act::SleepScaled(6500)),
        Op::Act(Act::KeyUp(VK_W)),
        Op::Act(Act::KeyDown(VK_D)),
        Op::Act(Act::SleepScaled(9000)),
        Op::Act(Act::KeyDown(VK_W)),
        Op::Act(Act::SleepScaled(6000)),
        Op::Act(Act::KeyUp(VK_D)),
        Op::Act(Act::KeyUp(VK_W)),
        Op::Act(Act::KeyDown(VK_A)),
        Op::Act(Act::KeyDown(VK_S)),
        Op::Act(Act::SleepScaled(200)),
        Op::Act(Act::KeyUp(VK_A)),
        Op::Act(Act::KeyUp(VK_S)),
        Op::Call(Script::PoharanFightBoss1),
        Op::SkipIf(false, 1),
        Op::Finish(true),
        Op::Finish(false),
    ]
}

/// Moves the first client to the portal, opens it, takes it to Tae Jangum and
/// walks into position.
pub fn poharan_move_to_boss_1() -> (p: Vec<Op>)
    ensures
        p@ == poharan_move_to_boss_1_spec(),
{
    vec![
        Op::Call(Script::WaitLoadingScreen),
        Op::Act(Act::Sleep(250)),
        Op::Act(Act::KeyDown(VK_A)),
        Op::Act(Act::KeyDown(VK_W)),
        Op::Act(Act::KeyDown(VK_SHIFT)),
        Op::Act(Act::Sleep(350)),
        Op::Act(Act::KeyUp(VK_SHIFT)),
        Op::Act(Act::KeyUp(VK_A)),
        Op::Act(Act::Sleep(1750)),
        Op::Act(Act::KeyUp(VK_W)),
        Op::Call(Script::PoharanOpenPortal1),
        Op::StartTimer(TimerId::First),
        Op::Ask(Cond::PortalIcon),
        Op::SkipIf(true, 2),
        Op::SkipIfElapsed(TimerId::First, 3000, 29),
        Op::Back(3),
        Op::Act(Act::Hotkey(Hotkey::AnimationSpeedHackWarlockOn)),
        Op::StartTimer(TimerId::First),
        Op::Ask(Cond::OutOfCombat),
        Op::SkipIf(false, 1),
        Op::SkipIfElapsed(TimerId::First, 2999, 5),
        Op::SkipIfElapsed(TimerId::First, 5999, 4),
        Op::Ask(Cond::PortalIcon),
        Op::SkipIf(false, 1),
        Op::Act(Act::Press(VK_F)),
        Op::Back(7),
        Op::Call(Script::PoharanGetIntoCombat),
        Op::Act(Act::KeyDown(VK_W)),
        Op::Act(Act::SleepScaled(6500)),
        Op::Act(Act::KeyUp(VK_W)),
        Op::Act(Act::KeyDown(VK_D)),
        Op::Act(Act::SleepScaled(9000)),
        Op::Act(Act::KeyDown(VK_W)),
        Op::Act(Act::SleepScaled(6000)),
        Op::Act(Act::KeyUp(VK_D)),
        Op::Act(Act::KeyUp(VK_W)),
        Op::Act(Act::KeyDown(VK_A)),
        Op::Act(Act::KeyDown(VK_S)),
        Op::Act(Act::SleepScaled(200)),
        Op::Act(Act::KeyUp(VK_A)),
        Op::Act(Act::KeyUp(VK_S)),
        Op::Call(Script::PoharanFightBoss1),
        Op::SkipIf(false, 1),
        Op::Finish(true),
        Op::Finish(false),
    ]
}

pub(crate) proof fn lemma_poharan_move_to_boss_1_in_order()
    ensures
        ops_in_order_from(poharan_move_to_boss_1_spec(), 0),
{
    reveal_with_fuel(ops_in_order_from, 46);
}

pub(crate) proof fn lemma_poharan_move_to_boss_1_leaves_runs()
    ensures
        runs_untouched_from(poharan_move_to_boss_1_spec(), 0),
{
    reveal_with_fuel(runs_untouched_from, 46);
}

/// Presses the hotkey that gets the player into combat five times.
pub open spec fn poharan_get_into_combat_spec() -> Seq<Op> {
    seq![
        Op::Act(Act::Hotkey(Hotkey::GetIntoCombat)),
        Op::Act(Act::Hotkey(Hotkey::GetIntoCombat)),
        Op::Act(Act::Hotkey(Hotkey::GetIntoCombat)),
        Op::Act(Act::Hotkey(Hotkey::GetIntoCombat)),
        Op::Act(Act::Hotkey(Hotkey::GetIntoCombat)),
        Op::Finish(true),
    ]
}

/// Presses the hotkey that gets the player into combat five times.
pub fn poharan_get_into_combat() -> (p: Vec<Op>)
    ensures
        p@ == poharan_get_into_combat_spec(),
{
    vec![
        Op::Act(Act::Hotkey(Hotkey::GetIntoCombat)),
        Op::Act(Act::Hotkey(Hotkey::GetIntoCombat)),
        Op::Act(Act::Hotkey(Hotkey::GetIntoCombat)),
        Op::Act(Act::Hotkey(Hotkey::GetIntoCombat)),
        Op::Act(Act::Hotkey(Hotkey::GetIntoCombat)),
        Op::Finish(true),
    ]
}

pub(crate) proof fn lemma_poharan_get_into_combat_in_order()
    ensures
        ops_in_order_from(poharan_get_into_combat_spec(), 0),
{
    reveal_with_fuel(ops_in_order_from, 7);
}

pub(crate) proof fn lemma_poharan_get_into_combat_leaves_runs()
    ensures
        runs_untouched_from(poharan_get_into_combat_spec(), 0),
{
    reveal_with_fuel(runs_untouched_from, 7);
}

/// Tae Jangum: the first client fights in auto combat while the others run
/// into the dungeon; fails on death or after 95 seconds. Then the portal to
/// the second boss, and the camera to 90 degrees once out of combat.
pub open spec fn poharan_fight_boss_1_spec() -> Seq<Op> {
    seq![
        Op::Act(Act::Hotkey(Hotkey::ToggleAutoCombat)),
        Op::StartTimer(TimerId::First),
        Op::ResetCount,
        Op::NextClient(false),
        Op::SkipIf(false, 3),
        Op::Call(Script::RunIntoDungeon),
        Op::SkipIf(false, 24),
        Op::Back(4),
        Op::Act(Act::SwitchToStart),
        Op::Ask(Cond::DynamicQuest),
        Op::SkipIf(true, 5),
        Op::Ask(Cond::Revive),
        Op::SkipIf(true, 18),
        Op::SkipIfElapsed(TimerId::First, 95999, 17),
        Op::Act(Act::CheckActivity),
        Op::Back(6),
        Op::Act(Act::Sleep(2000)),
        Op::Act(Act::SleepScaled(6000)),
        Op::Act(Act::Hotkey(Hotkey::ToggleAutoCombat)),
        Op::Call(Script::PoharanOpenPortal2),
        Op::Act(Act::CheckActivity),
        Op::Ask(Cond::OutOfCombat),
        Op::SkipIf(true, 5),
        Op::Ask(Cond::Revive),
        Op::SkipIf(true, 6),
        Op::Call(Script::CameraTo90),
        Op::Act(Act::Sleep(100)),
        Op::Back(7),
        Op::Call(Script::PoharanMoveToBridge),
        Op::SkipIf(false, 1),
        Op::Finish(true),
        Op::Finish(false),
    ]
}

/// Tae Jangum: the first client fights in auto combat while the others run
/// into the dungeon; fails on death or after 95 seconds. Then the portal to
/// the second boss, and the camera to 90 degrees once out of combat.
pub fn poharan_fight_boss_1() -> (p: Vec<Op>)
    ensures
        p@ == poharan_fight_boss_1_spec(),
{
    vec![
        Op::Act(Act::Hotkey(Hotkey::ToggleAutoCombat)),
        Op::StartTimer(TimerId::First),
        Op::ResetCount,
        Op::NextClient(false),
        Op::SkipIf(false, 3),
        Op::Call(Script::RunIntoDungeon),
        Op::SkipIf(false, 24),
        Op::Back(4),
        Op::Act(Act::SwitchToStart),
        Op::Ask(Cond::DynamicQuest),
        Op::SkipIf(true, 5),
        Op::Ask(Cond::Revive),
        Op::SkipIf(true, 18),
        Op::SkipIfElapsed(TimerId::First, 95999, 17),
        Op::Act(Act::CheckActivity),
        Op::Back(6),
        Op::Act(Act::Sleep(2000)),
        Op::Act(Act::SleepScaled(6000)),
        Op::Act(Act::Hotkey(Hotkey::ToggleAutoCombat)),
        Op::Call(Script::PoharanOpenPortal2),
        Op::Act(Act::CheckActivity),
        Op::Ask(Cond::OutOfCombat),
        Op::SkipIf(true, 5),
        Op::Ask(Cond::Revive),
        Op::SkipIf(true, 6),
        Op::Call(Script::CameraTo90),
        Op::Act(Act::Sleep(100)),
        Op::Back(7),
        Op::Call(Script::PoharanMoveToBridge),
        Op::SkipIf(false, 1),
        Op::Finish(true),
        Op::Finish(false),
    ]
}

pub(crate) proof fn lemma_poharan_fight_boss_1_in_order()
    ensures
        ops_in_order_from(poharan_fight_boss_1_spec(), 0),
{
    reveal_with_fuel(ops_in_order_from, 33);
}

pub(crate) proof fn lemma_poharan_fight_boss_1_leaves_runs()
    ensures
        runs_untouched_from(poharan_fight_boss_1_spec(), 0),
{
    reveal_with_fuel(runs_untouched_from, 33);
}

/// Walks the first client onto the bridge and fights there in auto combat,
/// while the other clients take the portal to Poharan and walk to him; then
/// the first client follows down the bridge.
pub open spec fn poharan_move_to_bridge_spec() -> Seq<Op> {
    seq![
        Op::Act(Act::KeyDown(VK_W)),
        Op::Act(Act::KeyDown(VK_D)),
        Op::Act(Act::KeyDown(VK_SHIFT)),
        Op::Act(Act::KeyUp(VK_SHIFT)),
        Op::Act(Act::SleepScaled(5750)),
        Op::Act(Act::KeyUp(VK_W)),
        Op::Act(Act::KeyUp(VK_D)),
        Op::Act(Act::KeyDown(VK_S)),
        Op::Act(Act::SleepScaled(5000)),
        Op::Act(Act::KeyUp(VK_S)),
        Op::Act(Act::KeyDown(VK_A)),
        Op::Act(Act::SleepScaled(4200)),
        Op::Act(Act::KeyUp(VK_A)),
        Op::Act(Act::KeyDown(VK_W)),
        Op::Act(Act::SleepScaled(11000)),
        Op::Act(Act::KeyUp(VK_W)),
        Op::Act(Act::KeyDown(VK_S)),
        Op::Act(Act::SleepScaled(3000)),
        Op::Act(Act::KeyUp(VK_S)),
        Op::Act(Act::KeyDown(VK_D)),
        Op::Act(Act::SleepScaled(12000)),
        Op::Act(Act::KeyUp(VK_D)),
        Op::Call(Script::PoharanGetIntoCombat),
        Op::Act(Act::KeyDown(VK_A)),
        Op::Act(Act::SleepScaled(400)),
        Op::Act(Act::KeyUp(VK_A)),
        Op::Act(Act::KeyDown(VK_W)),
        Op::Act(Act::SleepScaled(11000)),
        Op::Act(Act::KeyUp(VK_W)),
        Op::Act(Act::Hotkey(Hotkey::ToggleAutoCombat)),
        Op::ResetCount,
        Op::NextClient(false),
        Op::SkipIf(false, 3),
        Op::Call(Script::PoharanUsePortal),
        Op::SkipIf(false, 31),
        Op::Back(4),
        Op::Act(Act::Sleep(1000)),
        Op::ResetCount,
        Op::NextClient(false),
        Op::SkipIf(false, 2),
        Op::Call(Script::PoharanMoveToPoharan),
        Op::Back(3),
        Op::Act(Act::SwitchToStart),
        Op::Act(Act::CheckActivity),
        Op::Ask(Cond::OutOfCombat),
        Op::SkipIf(true, 3),
        Op::Ask(Cond::Revive),
        Op::SkipIf(true, 18),
        Op::Back(5),
        Op::Act(Act::Hotkey(Hotkey::ToggleAutoCombat)),
        Op::Call(Script::CameraTo90),
        Op::Act(Act::KeyDown(VK_W)),
        Op::Act(Act::SleepScaled(7000)),
        Op::Act(Act::KeyUp(VK_W)),
        Op::Act(Act::Hotkey(Hotkey::ToggleAutoCombat)),
        Op::Act(Act::Sleep(2000)),
        Op::Act(Act::CheckActivity),
        Op::Ask(Cond::OutOfCombat),
        Op::SkipIf(true, 1),
        Op::Back(3),
        Op::Act(Act::Hotkey(Hotkey::ToggleAutoCombat)),
        Op::Call(Script::CameraTo90),
        Op::Call(Script::PoharanMoveToPoharanWarlock),
        Op::Call(Script::PoharanFightBoss2),
        Op::SkipIf(false, 1),
        Op::Finish(true),
        Op::Finish(false),
    ]
}

/// Walks the first client onto the bridge and fights there in auto combat,
/// while the other clients take the portal to Poharan and walk to him; then
/// the first client follows down the bridge.
pub fn poharan_move_to_bridge() -> (p: Vec<Op>)
    ensures
        p@ == poharan_move_to_bridge_spec(),
{
    vec![
        Op::Act(Act::KeyDown(VK_W)),
        Op::Act(Act::KeyDown(VK_D)),
        Op::Act(Act::KeyDown(VK_SHIFT)),
        Op::Act(Act::KeyUp(VK_SHIFT)),
        Op::Act(Act::SleepScaled(5750)),
        Op::Act(Act::KeyUp(VK_W)),
        Op::Act(Act::KeyUp(VK_D)),
        Op::Act(Act::KeyDown(VK_S)),
        Op::Act(Act::SleepScaled(5000)),
        Op::Act(Act::KeyUp(VK_S)),
        Op::Act(Act::KeyDown(VK_A)),
        Op::Act(Act::SleepScaled(4200)),
        Op::Act(Act::KeyUp(VK_A)),
        Op::Act(Act::KeyDown(VK_W)),
        Op::Act(Act::SleepScaled(11000)),
        Op::Act(Act::KeyUp(VK_W)),
        Op::Act(Act::KeyDown(VK_S)),
        Op::Act(Act::SleepScaled(3000)),
        Op::Act(Act::KeyUp(VK_S)),
        Op::Act(Act::KeyDown(VK_D)),
        Op::Act(Act::SleepScaled(12000)),
        Op::Act(Act::KeyUp(VK_D)),
        Op::Call(Script::PoharanGetIntoCombat),
        Op::Act(Act::KeyDown(VK_A)),
        Op::Act(Act::SleepScaled(400)),
        Op::Act(Act::KeyUp(VK_A)),
        Op::Act(Act::KeyDown(VK_W)),
        Op::Act(Act::SleepScaled(11000)),
        Op::Act(Act::KeyUp(VK_W)),
        Op::Act(Act::Hotkey(Hotkey::ToggleAutoCombat)),
        Op::ResetCount,
        Op::NextClient(false),
        Op::SkipIf(false, 3),
        Op::Call(Script::PoharanUsePortal),
        Op::SkipIf(false, 31),
        Op::Back(4),
        Op::Act(Act::Sleep(1000)),
        Op::ResetCount,
        Op::NextClient(false),
        Op::SkipIf(false, 2),
        Op::Call(Script::PoharanMoveToPoharan),
        Op::Back(3),
        Op::Act(Act::SwitchToStart),
        Op::Act(Act::CheckActivity),
        Op::Ask(Cond::OutOfCombat),
        Op::SkipIf(true, 3),
        Op::Ask(Cond::Revive),
        Op::SkipIf(true, 18),
        Op::Back(5),
        Op::Act(Act::Hotkey(Hotkey::ToggleAutoCombat)),
        Op::Call(Script::CameraTo90),
        Op::Act(Act::KeyDown(VK_W)),
        Op::Act(Act::SleepScaled(7000)),
        Op::Act(Act::KeyUp(VK_W)),
        Op::Act(Act::Hotkey(Hotkey::ToggleAutoCombat)),
        Op::Act(Act::Sleep(2000)),
        Op::Act(Act::CheckActivity),
        Op::Ask(Cond::OutOfCombat),
        Op::SkipIf(true, 1),
        Op::Back(3),
        Op::Act(Act::Hotkey(Hotkey::ToggleAutoCombat)),
        Op::Call(Script::CameraTo90),
        Op::Call(Script::PoharanMoveToPoharanWarlock),
        Op::Call(Script::PoharanFightBoss2),
        Op::SkipIf(false, 1),
        Op::Finish(true),
        Op::Finish(false),
    ]
}

pub(crate) proof fn lemma_poharan_move_to_bridge_in_order()
    ensures
        ops_in_order_from(poharan_move_to_bridge_spec(), 0),
{
    reveal_with_fuel(ops_in_order_from, 68);
}

pub(crate) proof fn lemma_poharan_move_to_bridge_leaves_runs()
    ensures
        runs_untouched_from(poharan_move_to_bridge_spec(), 0),
{
    reveal_with_fuel(runs_untouched_from, 68);
}

/// Poharan: every client in auto combat until the dynamic reward shows; fails
/// on death. Then the loot, and out of the dungeon.
pub open spec fn poharan_fight_boss_2_spec() -> Seq<Op> {
    seq![
        Op::Call(Script::ActivateAutoCombat),
        Op::Act(Act::CheckActivity),
        Op::Ask(Cond::DynamicReward),
        Op::SkipIf(true, 4),
        Op::Ask(Cond::Revive),
        Op::SkipIf(true, 7),
        Op::Act(Act::Sleep(1000)),
        Op::Back(6),
        Op::Act(Act::Sleep(4000)),
        Op::Act(Act::SleepScaled(6000)),
        Op::Call(Script::PoharanLeaveDungeon),
        Op::SkipIf(false, 1),
        Op::Finish(true),
        Op::Finish(false),
    ]
}

/// Poharan: every client in auto combat until the dynamic reward shows; fails
/// on death. Then the loot, and out of the dungeon.
pub fn poharan_fight_boss_2() -> (p: Vec<Op>)
    ensures
        p@ == poharan_fight_boss_2_spec(),
{
    vec![
        Op::Call(Script::ActivateAutoCombat),
        Op::Act(Act::CheckActivity),
        Op::Ask(Cond::DynamicReward),
        Op::SkipIf(true, 4),
        Op::Ask(Cond::Revive),
        Op::SkipIf(true, 7),
        Op::Act(Act::Sleep(1000)),
        Op::Back(6),
        Op::Act(Act::Sleep(4000)),
        Op::Act(Act::SleepScaled(6000)),
        Op::Call(Script::PoharanLeaveDungeon),
        Op::SkipIf(false, 1),
        Op::Finish(true),
        Op::Finish(false),
    ]
}

pub(crate) proof fn lemma_poharan_fight_boss_2_in_order()
    ensures
        ops_in_order_from(poharan_fight_boss_2_spec(), 0),
{
    reveal_with_fuel(ops_in_order_from, 15);
}

pub(crate) proof fn lemma_poharan_fight_boss_2_leaves_runs()
    ensures
        runs_untouched_from(poharan_fight_boss_2_spec(), 0),
{
    reveal_with_fuel(runs_untouched_from, 15);
}

/// Takes the first client, then every other, out of the dungeon.
pub open spec fn poharan_leave_dungeon_spec() -> Seq<Op> {
    seq![
        Op::Act(Act::SwitchToStart),
        Op::Act(Act::Hotkey(Hotkey::AnimationSpeedHackWarlockOff)),
        Op::Call(Script::PoharanLeaveDungeonClient),
        Op::SkipIf(false, 7),
        Op::ResetCount,
        Op::NextClient(false),
        Op::SkipIf(false, 3),
        Op::Call(Script::PoharanLeaveDungeonClient),
        Op::SkipIf(false, 2),
        Op::Back(4),
        Op::Finish(true),
        Op::Finish(false),
    ]
}

/// Takes the first client, then every other, out of the dungeon.
pub fn poharan_leave_dungeon() -> (p: Vec<Op>)
    ensures
        p@ == poharan_leave_dungeon_spec(),
{
    vec![
        Op::Act(Act::SwitchToStart),
        Op::Act(Act::Hotkey(Hotkey::AnimationSpeedHackWarlockOff)),
        Op::Call(Script::PoharanLeaveDungeonClient),
        Op::SkipIf(false, 7),
        Op::ResetCount,
        Op::NextClient(false),
        Op::SkipIf(false, 3),
        Op::Call(Script::PoharanLeaveDungeonClient),
        Op::SkipIf(false, 2),
        Op::Back(4),
        Op::Finish(true),
        Op::Finish(false),
    ]
}

pub(crate) proof fn lemma_poharan_leave_dungeon_in_order()
    ensures
        ops_in_order_from(poharan_leave_dungeon_spec(), 0),
{
    reveal_with_fuel(ops_in_order_from, 13);
}

pub(crate) proof fn lemma_poharan_leave_dungeon_fails_with_its_calls()
    ensures
        call_failures_end_from(poharan_leave_dungeon_spec(), 0),
{
    reveal_with_fuel(call_failures_end_from, 13);
}

pub(crate) proof fn lemma_poharan_leave_dungeon_leaves_runs()
    ensures
        runs_untouched_from(poharan_leave_dungeon_spec(), 0),
{
    reveal_with_fuel(runs_untouched_from, 13);
}

/// Takes a client out of the dungeon: back to Poharan for the loot if it died,
/// to the exit portal, through the rewards, into the loading screen.
pub open spec fn poharan_leave_dungeon_client_spec() -> Seq<Op> {
    seq![
        Op::Ask(Cond::At(Place::BeforePoharanPortal)),
        Op::SkipIf(false, 9),
        Op::Call(Script::PoharanUsePortal),
        Op::SkipIf(false, 72),
        Op::Act(Act::CheckActivity),
        Op::Ask(Cond::OutOfCombat),
        Op::SkipIf(true, 1),
        Op::Back(3),
        Op::Act(Act::Hotkey(Hotkey::ToggleAutoCombat)),
        Op::Act(Act::Sleep(4000)),
        Op::Act(Act::SleepScaled(6000)),
        Op::Act(Act::Hotkey(Hotkey::ToggleAutoCombat)),
        Op::Act(Act::CameraYaw(90)),
        Op::Act(Act::AnimationSpeed(Speed::Slow)),
        Op::Act(Act::Sleep(250)),
        Op::Act(Act::KeyDown(VK_W)),
        Op::Act(Act::KeyDown(VK_D)),
        Op::StartTimer(TimerId::First),
        Op::Act(Act::CheckActivity),
        Op::SkipIfMark(MarkId::First, true, 4),
        Op::Ask(Cond::At(Place::ExitPortalX)),
        Op::SkipIf(false, 2),
        Op::Act(Act::KeyUp(VK_D)),
        Op::SetMark(MarkId::First, true),
        Op::SkipIfMark(MarkId::Second, true, 4),
        Op::Ask(Cond::At(Place::ExitPortalY)),
        Op::SkipIf(false, 2),
        Op::Act(Act::KeyUp(VK_W)),
        Op::SetMark(MarkId::Second, true),
        Op::Ask(Cond::ExitPortalIcon),
        Op::SkipIf(true, 2),
        Op::SkipIfElapsed(TimerId::First, 1500, 1),
        Op::Back(14),
        Op::Act(Act::KeyUp(VK_W)),
        Op::Act(Act::KeyUp(VK_D)),
        Op::Act(Act::Sleep(150)),
        Op::Ask(Cond::ExitPortalIcon),
        Op::SkipIf(false, 38),
        Op::Act(Act::CheckActivity),
        Op::Ask(Cond::ExitPortalIcon),
        Op::SkipIf(false, 6),
        Op::Act(Act::KeyDown(VK_Y)),
        Op::Act(Act::KeyDown(VK_F)),
        Op::Act(Act::KeyUp(VK_Y)),
        Op::Act(Act::KeyUp(VK_F)),
        Op::Act(Act::Sleep(100)),
        Op::Back(8),
        Op::Act(Act::CheckActivity),
        Op::Ask(Cond::BonusRewardSelection),
        Op::SkipIf(true, 6),
        Op::Act(Act::KeyDown(VK_Y)),
        Op::Act(Act::KeyDown(VK_F)),
        Op::Act(Act::KeyUp(VK_Y)),
        Op::Act(Act::KeyUp(VK_F)),
        Op::Act(Act::Sleep(20)),
        Op::Back(8),
        Op::StartTimer(TimerId::First),
        Op::Act(Act::CheckActivity),
        Op::Ask(Cond::BonusRewardSelection),
        Op::SkipIf(false, 9),
        Op::SkipIfElapsed(TimerId::First, 5999, 5),
        Op::Act(Act::KeyDown(VK_Y)),
        Op::Act(Act::KeyDown(VK_N)),
        Op::Act(Act::KeyUp(VK_Y)),
        Op::Act(Act::KeyUp(VK_N)),
        Op::Skip(1),
        Op::Act(Act::Press(VK_ESCAPE)),
        Op::Act(Act::Sleep(20)),
        Op::Back(11),
        Op::Act(Act::CheckActivity),
        Op::Ask(Cond::LoadingScreen),
        Op::SkipIf(true, 3),
        Op::Act(Act::Press(VK_F)),
        Op::Act(Act::Sleep(100)),
        Op::Back(5),
        Op::Finish(true),
        Op::Finish(false),
    ]
}

/// Takes a client out of the dungeon: back to Poharan for the loot if it died,
/// to the exit portal, through the rewards, into the loading screen.
pub fn poharan_leave_dungeon_client() -> (p: Vec<Op>)
    ensures
        p@ == poharan_leave_dungeon_client_spec(),
{
    vec![
        Op::Ask(Cond::At(Place::BeforePoharanPortal)),
        Op::SkipIf(false, 9),
        Op::Call(Script::PoharanUsePortal),
        Op::SkipIf(false, 72),
        Op::Act(Act::CheckActivity),
        Op::Ask(Cond::OutOfCombat),
        Op::SkipIf(true, 1),
        Op::Back(3),
        Op::Act(Act::Hotkey(Hotkey::ToggleAutoCombat)),
        Op::Act(Act::Sleep(4000)),
        Op::Act(Act::SleepScaled(6000)),
        Op::Act(Act::Hotkey(Hotkey::ToggleAutoCombat)),
        Op::Act(Act::CameraYaw(90)),
        Op::Act(Act::AnimationSpeed(Speed::Slow)),
        Op::Act(Act::Sleep(250)),
        Op::Act(Act::KeyDown(VK_W)),
        Op::Act(Act::KeyDown(VK_D)),
        Op::StartTimer(TimerId::First),
        Op::Act(Act::CheckActivity),
        Op::SkipIfMark(MarkId::First, true, 4),
        Op::Ask(Cond::At(Place::ExitPortalX)),
        Op::SkipIf(false, 2),
        Op::Act(Act::KeyUp(VK_D)),
        Op::SetMark(MarkId::First, true),
        Op::SkipIfMark(MarkId::Second, true, 4),
        Op::Ask(Cond::At(Place::ExitPortalY)),
        Op::SkipIf(false, 2),
        Op::Act(Act::KeyUp(VK_W)),
        Op::SetMark(MarkId::Second, true),
        Op::Ask(Cond::ExitPortalIcon),
        Op::SkipIf(true, 2),
        Op::SkipIfElapsed(TimerId::First, 1500, 1),
        Op::Back(14),
        Op::Act(Act::KeyUp(VK_W)),
        Op::Act(Act::KeyUp(VK_D)),
        Op::Act(Act::Sleep(150)),
        Op::Ask(Cond::ExitPortalIcon),
        Op::SkipIf(false, 38),
        Op::Act(Act::CheckActivity),
        Op::Ask(Cond::ExitPortalIcon),
        Op::SkipIf(false, 6),
        Op::Act(Act::KeyDown(VK_Y)),
        Op::Act(Act::KeyDown(VK_F)),
        Op::Act(Act::KeyUp(VK_Y)),
        Op::Act(Act::KeyUp(VK_F)),
        Op::Act(Act::Sleep(100)),
        Op::Back(8),
        Op::Act(Act::CheckActivity),
        Op::Ask(Cond::BonusRewardSelection),
        Op::SkipIf(true, 6),
        Op::Act(Act::KeyDown(VK_Y)),
        Op::Act(Act::KeyDown(VK_F)),
        Op::Act(Act::KeyUp(VK_Y)),
        Op::Act(Act::KeyUp(VK_F)),
        Op::Act(Act::Sleep(20)),
        Op::Back(8),
        Op::StartTimer(TimerId::First),
        Op::Act(Act::CheckActivity),
        Op::Ask(Cond::BonusRewardSelection),
        Op::SkipIf(false, 9),
        Op::SkipIfElapsed(TimerId::First, 5999, 5),
        Op::Act(Act::KeyDown(VK_Y)),
        Op::Act(Act::KeyDown(VK_N)),
        Op::Act(Act::KeyUp(VK_Y)),
        Op::Act(Act::KeyUp(VK_N)),
        Op::Skip(1),
        Op::Act(Act::Press(VK_ESCAPE)),
        Op::Act(Act::Sleep(20)),
        Op::Back(11),
        Op::Act(Act::CheckActivity),
        Op::Ask(Cond::LoadingScreen),
        Op::SkipIf(true, 3),
        Op::Act(Act::Press(VK_F)),
        Op::Act(Act::Sleep(100)),
        Op::Back(5),
        Op::Finish(true),
        Op::Finish(false),
    ]
}

pub(crate) proof fn lemma_poharan_leave_dungeon_client_in_order()
    ensures
        ops_in_order_from(poharan_leave_dungeon_client_spec(), 0),
{
    reveal_with_fuel(ops_in_order_from, 78);
}

pub(crate) proof fn lemma_poharan_leave_dungeon_client_fails_with_its_calls()
    ensures
        call_failures_end_from(poharan_leave_dungeon_client_spec(), 0),
{
    reveal_with_fuel(call_failures_end_from, 78);
}

pub(crate) proof fn lemma_poharan_leave_dungeon_client_leaves_runs()
    ensures
        runs_untouched_from(poharan_leave_dungeon_client_spec(), 0),
{
    reveal_with_fuel(runs_untouched_from, 78);
}

/// Opens the portal to the first boss: flies there, spawns the thrall for 2.5
/// seconds, flies back; fails when a flight takes over 5 seconds.
pub open spec fn poharan_open_portal_1_spec() -> Seq<Op> {
    seq![
        Op::Act(Act::CheckActivity),
        Op::Ask(Cond::ThrallReady),
        Op::SkipIf(true, 2),
        Op::Act(Act::Sleep(100)),
        Op::Back(4),
        Op::Act(Act::MarkPosition),
        Op::StartTimer(TimerId::First),
        Op::Act(Act::CheckActivity),
        Op::Ask(Cond::Teleported),
        Op::SkipIf(true, 7),
        Op::SkipIfElapsed(TimerId::First, 5000, 23),
        Op::Act(Act::Hotkey(Hotkey::FlyHackBoss1)),
        Op::Act(Act::KeyDown(VK_W)),
        Op::Act(Act::Sleep(2)),
        Op::Act(Act::KeyUp(VK_W)),
        Op::Act(Act::Sleep(100)),
        Op::Back(9),
        Op::StartTimer(TimerId::First),
        Op::SkipIfElapsed(TimerId::First, 2500, 3),
        Op::Act(Act::Press(VK_TAB)),
        Op::Act(Act::Sleep(100)),
        Op::Back(3),
        Op::StartTimer(TimerId::First),
        Op::Act(Act::CheckActivity),
        Op::Ask(Cond::BackAtMark),
        Op::SkipIf(true, 7),
        Op::SkipIfElapsed(TimerId::First, 5000, 7),
        Op::Act(Act::Hotkey(Hotkey::DisableFlyHack)),
        Op::Act(Act::KeyDown(VK_S)),
        Op::Act(Act::Sleep(2)),
        Op::Act(Act::KeyUp(VK_S)),
        Op::Act(Act::Sleep(100)),
        Op::Back(9),
        Op::Finish(true),
        Op::Finish(false),
    ]
}

/// Opens the portal to the first boss: flies there, spawns the thrall for 2.5
/// seconds, flies back; fails when a flight takes over 5 seconds.
pub fn poharan_open_portal_1() -> (p: Vec<Op>)
    ensures
        p@ == poharan_open_portal_1_spec(),
{
    vec![
        Op::Act(Act::CheckActivity),
        Op::Ask(Cond::ThrallReady),
        Op::SkipIf(true, 2),
        Op::Act(Act::Sleep(100)),
        Op::Back(4),
        Op::Act(Act::MarkPosition),
        Op::StartTimer(TimerId::First),
        Op::Act(Act::CheckActivity),
        Op::Ask(Cond::Teleported),
        Op::SkipIf(true, 7),
        Op::SkipIfElapsed(TimerId::First, 5000, 23),
        Op::Act(Act::Hotkey(Hotkey::FlyHackBoss1)),
        Op::Act(Act::KeyDown(VK_W)),
        Op::Act(Act::Sleep(2)),
        Op::Act(Act::KeyUp(VK_W)),
        Op::Act(Act::Sleep(100)),
        Op::Back(9),
        Op::StartTimer(TimerId::First),
        Op::SkipIfElapsed(TimerId::First, 2500, 3),
        Op::Act(Act::Press(VK_TAB)),
        Op::Act(Act::Sleep(100)),
        Op::Back(3),
        Op::StartTimer(TimerId::First),
        Op::Act(Act::CheckActivity),
        Op::Ask(Cond::BackAtMark),
        Op::SkipIf(true, 7),
        Op::SkipIfElapsed(TimerId::First, 5000, 7),
        Op::Act(Act::Hotkey(Hotkey::DisableFlyHack)),
        Op::Act(Act::KeyDown(VK_S)),
        Op::Act(Act::Sleep(2)),
        Op::Act(Act::KeyUp(VK_S)),
        Op::Act(Act::Sleep(100)),
        Op::Back(9),
        Op::Finish(true),
        Op::Finish(false),
    ]
}

pub(crate) proof fn lemma_poharan_open_portal_1_in_order()
    ensures
        ops_in_order_from(poharan_open_portal_1_spec(), 0),
{
    reveal_with_fuel(ops_in_order_from, 36);
}

pub(crate) proof fn lemma_poharan_open_portal_1_leaves_runs()
    ensures
        runs_untouched_from(poharan_open_portal_1_spec(), 0),
{
    reveal_with_fuel(runs_untouched_from, 36);
}

/// Opens the portal to the second boss, as for the first.
pub open spec fn poharan_open_portal_2_spec() -> Seq<Op> {
    seq![
        Op::Act(Act::CheckActivity),
        Op::Ask(Cond::ThrallReady),
        Op::SkipIf(true, 2),
        Op::Act(Act::Sleep(100)),
        Op::Back(4),
        Op::Act(Act::MarkPosition),
        Op::StartTimer(TimerId::First),
        Op::Act(Act::CheckActivity),
        Op::Ask(Cond::Teleported),
        Op::SkipIf(true, 7),
        Op::SkipIfElapsed(TimerId::First, 5000, 23),
        Op::Act(Act::Hotkey(Hotkey::FlyHackBoss2)),
        Op::Act(Act::KeyDown(VK_W)),
        Op::Act(Act::Sleep(2)),
        Op::Act(Act::KeyUp(VK_W)),
        Op::Act(Act::Sleep(100)),
        Op::Back(9),
        Op::StartTimer(TimerId::First),
        Op::SkipIfElapsed(TimerId::First, 2500, 3),
        Op::Act(Act::Press(VK_TAB)),
        Op::Act(Act::Sleep(100)),
        Op::Back(3),
        Op::StartTimer(TimerId::First),
        Op::Act(Act::CheckActivity),
        Op::Ask(Cond::BackAtMark),
        Op::SkipIf(true, 7),
        Op::SkipIfElapsed(TimerId::First, 5000, 7),
        Op::Act(Act::Hotkey(Hotkey::DisableFlyHack)),
        Op::Act(Act::KeyDown(VK_S)),
        Op::Act(Act::Sleep(2)),
        Op::Act(Act::KeyUp(VK_S)),
        Op::Act(Act::Sleep(100)),
        Op::Back(9),
        Op::Finish(true),
        Op::Finish(false),
    ]
}

/// Opens the portal to the second boss, as for the first.
pub fn poharan_open_portal_2() -> (p: Vec<Op>)
    ensures
        p@ == poharan_open_portal_2_spec(),
{
    vec![
        Op::Act(Act::CheckActivity),
        Op::Ask(Cond::ThrallReady),
        Op::SkipIf(true, 2),
        Op::Act(Act::Sleep(100)),
        Op::Back(4),
        Op::Act(Act::MarkPosition),
        Op::StartTimer(TimerId::First),
        Op::Act(Act::CheckActivity),
        Op::Ask(Cond::Teleported),
        Op::SkipIf(true, 7),
        Op::SkipIfElapsed(TimerId::First, 5000, 23),
        Op::Act(Act::Hotkey(Hotkey::FlyHackBoss2)),
        Op::Act(Act::KeyDown(VK_W)),
        Op::Act(Act::Sleep(2)),
        Op::Act(Act::KeyUp(VK_W)),
        Op::Act(Act::Sleep(100)),
        Op::Back(9),
        Op::StartTimer(TimerId::First),
        Op::SkipIfElapsed(TimerId::First, 2500, 3),
        Op::Act(Act::Press(VK_TAB)),
        Op::Act(Act::Sleep(100)),
        Op::Back(3),
        Op::StartTimer(TimerId::First),
        Op::Act(Act::CheckActivity),
        Op::Ask(Cond::BackAtMark),
        Op::SkipIf(true, 7),
        Op::SkipIfElapsed(TimerId::First, 5000, 7),
        Op::Act(Act::Hotkey(Hotkey::DisableFlyHack)),
        Op::Act(Act::KeyDown(VK_S)),
        Op::Act(Act::Sleep(2)),
        Op::Act(Act::KeyUp(VK_S)),
        Op::Act(Act::Sleep(100)),
        Op::Back(9),
        Op::Finish(true),
        Op::Finish(false),
    ]
}

pub(crate) proof fn lemma_poharan_open_portal_2_in_order()
    ensures
        ops_in_order_from(poharan_open_portal_2_spec(), 0),
{
    reveal_with_fuel(ops_in_order_from, 36);
}

pub(crate) proof fn lemma_poharan_open_portal_2_leaves_runs()
    ensures
        runs_untouched_from(poharan_open_portal_2_spec(), 0),
{
    reveal_with_fuel(runs_untouched_from, 36);
}

/// Walks a client to the portal to Poharan (camera at 0 degrees, forward and
/// left until both coordinates are reached, for at most 10 seconds) and takes
/// it (for at most 5 seconds).
pub open spec fn poharan_use_portal_spec() -> Seq<Op> {
    seq![
        Op::Act(Act::CameraYaw(0)),
        Op::Act(Act::KeyDown(VK_W)),
        Op::Act(Act::KeyDown(VK_A)),
        Op::Act(Act::KeyDown(VK_SHIFT)),
        Op::Act(Act::KeyUp(VK_SHIFT)),
        Op::StartTimer(TimerId::First),
        Op::Act(Act::CheckActivity),
        Op::SkipIfMark(MarkId::Second, true, 4),
        Op::Ask(Cond::At(Place::PoharanPortalY)),
        Op::SkipIf(false, 2),
        Op::Act(Act::KeyUp(VK_A)),
        Op::SetMark(MarkId::Second, true),
        Op::SkipIfMark(MarkId::First, true, 4),
        Op::Ask(Cond::At(Place::PoharanPortalX)),
        Op::SkipIf(false, 2),
        Op::Act(Act::KeyUp(VK_W)),
        Op::SetMark(MarkId::First, true),
        Op::SkipIfMark(MarkId::First, false, 1),
        Op::SkipIfMark(MarkId::Second, true, 2),
        Op::SkipIfElapsed(TimerId::First, 10999, 10),
        Op::Back(14),
        Op::StartTimer(TimerId::First),
        Op::Ask(Cond::OutOfCombat),
        Op::SkipIf(false, 5),
        Op::SkipIfElapsed(TimerId::First, 5999, 5),
        Op::Ask(Cond::At(Place::BeforePoharanPortal)),
        Op::SkipIf(false, 2),
        Op::Act(Act::Press(VK_F)),
        Op::Back(6),
        Op::Finish(true),
        Op::Finish(false),
    ]
}

/// Walks a client to the portal to Poharan (camera at 0 degrees, forward and
/// left until both coordinates are reached, for at most 10 seconds) and takes
/// it (for at most 5 seconds).
pub fn poharan_use_portal() -> (p: Vec<Op>)
    ensures
        p@ == poharan_use_portal_spec(),
{
    vec![
        Op::Act(Act::CameraYaw(0)),
        Op::Act(Act::KeyDown(VK_W)),
        Op::Act(Act::KeyDown(VK_A)),
        Op::Act(Act::KeyDown(VK_SHIFT)),
        Op::Act(Act::KeyUp(VK_SHIFT)),
        Op::StartTimer(TimerId::First),
        Op::Act(Act::CheckActivity),
        Op::SkipIfMark(MarkId::Second, true, 4),
        Op::Ask(Cond::At(Place::PoharanPortalY)),
        Op::SkipIf(false, 2),
        Op::Act(Act::KeyUp(VK_A)),
        Op::SetMark(MarkId::Second, true),
        Op::SkipIfMark(MarkId::First, true, 4),
        Op::Ask(Cond::At(Place::PoharanPortalX)),
        Op::SkipIf(false, 2),
        Op::Act(Act::KeyUp(VK_W)),
        Op::SetMark(MarkId::First, true),
        Op::SkipIfMark(MarkId::First, false, 1),
        Op::SkipIfMark(MarkId::Second, true, 2),
        Op::SkipIfElapsed(TimerId::First, 10999, 10),
        Op::Back(14),
        Op::StartTimer(TimerId::First),
        Op::Ask(Cond::OutOfCombat),
        Op::SkipIf(false, 5),
        Op::SkipIfElapsed(TimerId::First, 5999, 5),
        Op::Ask(Cond::At(Place::BeforePoharanPortal)),
        Op::SkipIf(false, 2),
        Op::Act(Act::Press(VK_F)),
        Op::Back(6),
        Op::Finish(true),
        Op::Finish(false),
    ]
}

pub(crate) proof fn lemma_poharan_use_portal_in_order()
    ensures
        ops_in_order_from(poharan_use_portal_spec(), 0),
{
    reveal_with_fuel(ops_in_order_from, 32);
}

pub(crate) proof fn lemma_poharan_use_portal_leaves_runs()
    ensures
        runs_untouched_from(poharan_use_portal_spec(), 0),
{
    reveal_with_fuel(runs_untouched_from, 32);
}

/// Walks a client down the bridge into Poharan's pit, slowing down at its end;
/// gives up after 35 seconds (at the configured speed).
pub open spec fn poharan_move_to_poharan_spec() -> Seq<Op> {
    seq![
        Op::Act(Act::CheckActivity),
        Op::Ask(Cond::OutOfCombat),
        Op::SkipIf(true, 4),
        Op::Ask(Cond::Revive),
        Op::SkipIf(true, 2),
        Op::Act(Act::Sleep(100)),
        Op::Back(6),
        Op::Act(Act::AnimationSpeed(Speed::Configured)),
        Op::Act(Act::KeyDown(VK_W)),
        Op::StartTimer(TimerId::First),
        Op::Fetch(Quantity::Scaled(35000)),
        Op::SetMark(MarkId::First, false),
        Op::Act(Act::CheckActivity),
        Op::SkipIfFetchedElapsed(TimerId::First, 16),
        Op::SkipIfMark(MarkId::First, false, 4),
        Op::Ask(Cond::At(Place::BridgeTurn)),
        Op::SkipIf(false, 2),
        Op::Act(Act::KeyDown(VK_D)),
        Op::SetMark(MarkId::First, false),
        Op::SkipIfMark(MarkId::Second, true, 4),
        Op::Ask(Cond::At(Place::BridgeEnd)),
        Op::SkipIf(false, 2),
        Op::Act(Act::KeyUp(VK_D)),
        Op::SetMark(MarkId::Second, true),
        Op::Ask(Cond::At(Place::BridgeTooFast)),
        Op::SkipIf(false, 1),
        Op::Act(Act::AnimationSpeed(Speed::Four)),
        Op::Ask(Cond::At(Place::PoharanPit)),
        Op::SkipIf(true, 1),
        Op::Back(17),
        Op::Act(Act::KeyUp(VK_W)),
        Op::Act(Act::KeyUp(VK_D)),
        Op::Act(Act::AnimationSpeed(Speed::Configured)),
        Op::Finish(true),
    ]
}

/// Walks a client down the bridge into Poharan's pit, slowing down at its end;
/// gives up after 35 seconds (at the configured speed).
pub fn poharan_move_to_poharan() -> (p: Vec<Op>)
    ensures
        p@ == poharan_move_to_poharan_spec(),
{
    vec![
        Op::Act(Act::CheckActivity),
        Op::Ask(Cond::OutOfCombat),
        Op::SkipIf(true, 4),
        Op::Ask(Cond::Revive),
        Op::SkipIf(true, 2),
        Op::Act(Act::Sleep(100)),
        Op::Back(6),
        Op::Act(Act::AnimationSpeed(Speed::Configured)),
        Op::Act(Act::KeyDown(VK_W)),
        Op::StartTimer(TimerId::First),
        Op::Fetch(Quantity::Scaled(35000)),
        Op::SetMark(MarkId::First, false),
        Op::Act(Act::CheckActivity),
        Op::SkipIfFetchedElapsed(TimerId::First, 16),
        Op::SkipIfMark(MarkId::First, false, 4),
        Op::Ask(Cond::At(Place::BridgeTurn)),
        Op::SkipIf(false, 2),
        Op::Act(Act::KeyDown(VK_D)),
        Op::SetMark(MarkId::First, false),
        Op::SkipIfMark(MarkId::Second, true, 4),
        Op::Ask(Cond::At(Place::BridgeEnd)),
        Op::SkipIf(false, 2),
        Op::Act(Act::KeyUp(VK_D)),
        Op::SetMark(MarkId::Second, true),
        Op::Ask(Cond::At(Place::BridgeTooFast)),
        Op::SkipIf(false, 1),
        Op::Act(Act::AnimationSpeed(Speed::Four)),
        Op::Ask(Cond::At(Place::PoharanPit)),
        Op::SkipIf(true, 1),
        Op::Back(17),
        Op::Act(Act::KeyUp(VK_W)),
        Op::Act(Act::KeyUp(VK_D)),
        Op::Act(Act::AnimationSpeed(Speed::Configured)),
        Op::Finish(true),
    ]
}

pub(crate) proof fn lemma_poharan_move_to_poharan_in_order()
    ensures
        ops_in_order_from(poharan_move_to_poharan_spec(), 0),
{
    reveal_with_fuel(ops_in_order_from, 35);
}

pub(crate) proof fn lemma_poharan_move_to_poharan_leaves_runs()
    ensures
        runs_untouched_from(poharan_move_to_poharan_spec(), 0),
{
    reveal_with_fuel(runs_untouched_from, 35);
}

/// As for the other clients, with the first client's turn to the right on the
/// bridge.
pub open spec fn poharan_move_to_poharan_warlock_spec() -> Seq<Op> {
    seq![
        Op::Act(Act::CheckActivity),
        Op::Ask(Cond::OutOfCombat),
        Op::SkipIf(true, 4),
        Op::Ask(Cond::Revive),
        Op::SkipIf(true, 2),
        Op::Act(Act::Sleep(100)),
        Op::Back(6),
        Op::Act(Act::AnimationSpeed(Speed::Configured)),
        Op::Act(Act::KeyDown(VK_W)),
        Op::StartTimer(TimerId::First),
        Op::Fetch(Quantity::Scaled(35000)),
        Op::SetMark(MarkId::First, true),
        Op::Act(Act::CheckActivity),
        Op::SkipIfFetchedElapsed(TimerId::First, 16),
        Op::SkipIfMark(MarkId::First, false, 4),
        Op::Ask(Cond::At(Place::BridgeTurn)),
        Op::SkipIf(false, 2),
        Op::Act(Act::KeyDown(VK_D)),
        Op::SetMark(MarkId::First, false),
        Op::SkipIfMark(MarkId::Second, true, 4),
        Op::Ask(Cond::At(Place::BridgeEnd)),
        Op::SkipIf(false, 2),
        Op::Act(Act::KeyUp(VK_D)),
        Op::SetMark(MarkId::Second, true),
        Op::Ask(Cond::At(Place::BridgeTooFast)),
        Op::SkipIf(false, 1),
        Op::Act(Act::AnimationSpeed(Speed::Four)),
        Op::Ask(Cond::At(Place::PoharanPit)),
        Op::SkipIf(true, 1),
        Op::Back(17),
        Op::Act(Act::KeyUp(VK_W)),
        Op::Act(Act::KeyUp(VK_D)),
        Op::Act(Act::AnimationSpeed(Speed::Configured)),
        Op::Finish(true),
    ]
}

/// As for the other clients, with the first client's turn to the right on the
/// bridge.
pub fn poharan_move_to_poharan_warlock() -> (p: Vec<Op>)
    ensures
        p@ == poharan_move_to_poharan_warlock_spec(),
{
    vec![
        Op::Act(Act::CheckActivity),
        Op::Ask(Cond::OutOfCombat),
        Op::SkipIf(true, 4),
        Op::Ask(Cond::Revive),
        Op::SkipIf(true, 2),
        Op::Act(Act::Sleep(100)),
        Op::Back(6),
        Op::Act(Act::AnimationSpeed(Speed::Configured)),
        Op::Act(Act::KeyDown(VK_W)),
        Op::StartTimer(TimerId::First),
        Op::Fetch(Quantity::Scaled(35000)),
        Op::SetMark(MarkId::First, true),
        Op::Act(Act::CheckActivity),
        Op::SkipIfFetchedElapsed(TimerId::First, 16),
        Op::SkipIfMark(MarkId::First, false, 4),
        Op::Ask(Cond::At(Place::BridgeTurn)),
        Op::SkipIf(false, 2),
        Op::Act(Act::KeyDown(VK_D)),
        Op::SetMark(MarkId::First, false),
        Op::SkipIfMark(MarkId::Second, true, 4),
        Op::Ask(Cond::At(Place::BridgeEnd)),
        Op::SkipIf(false, 2),
        Op::Act(Act::KeyUp(VK_D)),
        Op::SetMark(MarkId::Second, true),
        Op::Ask(Cond::At(Place::BridgeTooFast)),
        Op::SkipIf(false, 1),
        Op::Act(Act::AnimationSpeed(Speed::Four)),
        Op::Ask(Cond::At(Place::PoharanPit)),
        Op::SkipIf(true, 1),
        Op::Back(17),
        Op::Act(Act::KeyUp(VK_W)),
        Op::Act(Act::KeyUp(VK_D)),
        Op::Act(Act::AnimationSpeed(Speed::Configured)),
        Op::Finish(true),
    ]
}

pub(crate) proof fn lemma_poharan_move_to_poharan_warlock_in_order()
    ensures
        ops_in_order_from(poharan_move_to_poharan_warlock_spec(), 0),
{
    reveal_with_fuel(ops_in_order_from, 35);
}

pub(crate) proof fn lemma_poharan_move_to_poharan_warlock_leaves_runs()
    ensures
        runs_untouched_from(poharan_move_to_poharan_warlock_spec(), 0),
{
    reveal_with_fuel(runs_untouched_from, 35);
}

/// Brings a client back to the lobby: waits out a loading screen, then clears
/// dialogues and exits through the menu until the lobby or a loading screen
/// shows.
pub open spec fn poharan_fail_safe_spec() -> Seq<Op> {
    seq![
        Op::Ask(Cond::LoadingScreen),
        Op::SkipIf(false, 2),
        Op::Act(Act::Sleep(100)),
        Op::Back(3),
        Op::Act(Act::CheckActivity),
        Op::Ask(Cond::InF8Lobby),
        Op::SkipIf(true, 63),
        Op::Ask(Cond::LoadingScreen),
        Op::SkipIf(true, 61),
        Op::Act(Act::KeyDown(VK_Y)),
        Op::Act(Act::KeyDown(VK_F)),
        Op::Act(Act::KeyUp(VK_Y)),
        Op::Act(Act::KeyUp(VK_F)),
        Op::Act(Act::Sleep(100)),
        Op::Act(Act::KeyDown(VK_Y)),
        Op::Act(Act::KeyDown(VK_F)),
        Op::Act(Act::KeyUp(VK_Y)),
        Op::Act(Act::KeyUp(VK_F)),
        Op::Act(Act::Sleep(100)),
        Op::Act(Act::KeyDown(VK_Y)),
        Op::Act(Act::KeyDown(VK_F)),
        Op::Act(Act::KeyUp(VK_Y)),
        Op::Act(Act::KeyUp(VK_F)),
        Op::Act(Act::Sleep(100)),
        Op::Act(Act::KeyDown(VK_Y)),
        Op::Act(Act::KeyDown(VK_F)),
        Op::Act(Act::KeyUp(VK_Y)),
        Op::Act(Act::KeyUp(VK_F)),
        Op::Act(Act::Sleep(100)),
        Op::Act(Act::KeyDown(VK_Y)),
        Op::Act(Act::KeyDown(VK_F)),
        Op::Act(Act::KeyUp(VK_Y)),
        Op::Act(Act::KeyUp(VK_F)),
        Op::Act(Act::Sleep(100)),
        Op::Act(Act::KeyDown(VK_Y)),
        Op::Act(Act::KeyDown(VK_F)),
        Op::Act(Act::KeyUp(VK_Y)),
        Op::Act(Act::KeyUp(VK_F)),
        Op::Act(Act::Sleep(100)),
        Op::Act(Act::KeyDown(VK_Y)),
        Op::Act(Act::KeyDown(VK_F)),
        Op::Act(Act::KeyUp(VK_Y)),
        Op::Act(Act::KeyUp(VK_F)),
        Op::Act(Act::Sleep(100)),
        Op::Act(Act::KeyDown(VK_Y)),
        Op::Act(Act::KeyDown(VK_F)),
        Op::Act(Act::KeyUp(VK_Y)),
        Op::Act(Act::KeyUp(VK_F)),
        Op::Act(Act::Sleep(100)),
        Op::Act(Act::KeyDown(VK_Y)),
        Op::Act(Act::KeyDown(VK_F)),
        Op::Act(Act::KeyUp(VK_Y)),
        Op::Act(Act::KeyUp(VK_F)),
        Op::Act(Act::Sleep(100)),
        Op::Act(Act::KeyDown(VK_Y)),
        Op::Act(Act::KeyDown(VK_F)),
        Op::Act(Act::KeyUp(VK_Y)),
        Op::Act(Act::KeyUp(VK_F)),
        Op::Act(Act::Sleep(100)),
        Op::Act(Act::KeyDown(VK_Y)),
        Op::Act(Act::KeyDown(VK_N)),
        Op::Act(Act::KeyDown(VK_F)),
        Op::Act(Act::KeyUp(VK_Y)),
        Op::Act(Act::KeyUp(VK_N)),
        Op::Act(Act::KeyUp(VK_F)),
        Op::Act(Act::Sleep(150)),
        Op::Act(Act::Press(VK_ESCAPE)),
        Op::Act(Act::Sleep(500)),
        Op::Call(Script::MenuExit),
        Op::Back(65),
        Op::Finish(true),
    ]
}

/// Brings a client back to the lobby: waits out a loading screen, then clears
/// dialogues and exits through the menu until the lobby or a loading screen
/// shows.
pub fn poharan_fail_safe() -> (p: Vec<Op>)
    ensures
        p@ == poharan_fail_safe_spec(),
{
    vec![
        Op::Ask(Cond::LoadingScreen),
        Op::SkipIf(false, 2),
        Op::Act(Act::Sleep(100)),
        Op::Back(3),
        Op::Act(Act::CheckActivity),
        Op::Ask(Cond::InF8Lobby),
        Op::SkipIf(true, 63),
        Op::Ask(Cond::LoadingScreen),
        Op::SkipIf(true, 61),
        Op::Act(Act::KeyDown(VK_Y)),
        Op::Act(Act::KeyDown(VK_F)),
        Op::Act(Act::KeyUp(VK_Y)),
        Op::Act(Act::KeyUp(VK_F)),
        Op::Act(Act::Sleep(100)),
        Op::Act(Act::KeyDown(VK_Y)),
        Op::Act(Act::KeyDown(VK_F)),
        Op::Act(Act::KeyUp(VK_Y)),
        Op::Act(Act::KeyUp(VK_F)),
        Op::Act(Act::Sleep(100)),
        Op::Act(Act::KeyDown(VK_Y)),
        Op::Act(Act::KeyDown(VK_F)),
        Op::Act(Act::KeyUp(VK_Y)),
        Op::Act(Act::KeyUp(VK_F)),
        Op::Act(Act::Sleep(100)),
        Op::Act(Act::KeyDown(VK_Y)),
        Op::Act(Act::KeyDown(VK_F)),
        Op::Act(Act::KeyUp(VK_Y)),
        Op::Act(Act::KeyUp(VK_F)),
        Op::Act(Act::Sleep(100)),
        Op::Act(Act::KeyDown(VK_Y)),
        Op::Act(Act::KeyDown(VK_F)),
        Op::Act(Act::KeyUp(VK_Y)),
        Op::Act(Act::KeyUp(VK_F)),
        Op::Act(Act::Sleep(100)),
        Op::Act(Act::KeyDown(VK_Y)),
        Op::Act(Act::KeyDown(VK_F)),
        Op::Act(Act::KeyUp(VK_Y)),
        Op::Act(Act::KeyUp(VK_F)),
        Op::Act(Act::Sleep(100)),
        Op::Act(Act::KeyDown(VK_Y)),
        Op::Act(Act::KeyDown(VK_F)),
        Op::Act(Act::KeyUp(VK_Y)),
        Op::Act(Act::KeyUp(VK_F)),
        Op::Act(Act::Sleep(100)),
        Op::Act(Act::KeyDown(VK_Y)),
        Op::Act(Act::KeyDown(VK_F)),
        Op::Act(Act::KeyUp(VK_Y)),
        Op::Act(Act::KeyUp(VK_F)),
        Op::Act(Act::Sleep(100)),
        Op::Act(Act::KeyDown(VK_Y)),
        Op::Act(Act::KeyDown(VK_F)),
        Op::Act(Act::KeyUp(VK_Y)),
        Op::Act(Act::KeyUp(VK_F)),
        Op::Act(Act::Sleep(100)),
        Op::Act(Act::KeyDown(VK_Y)),
        Op::Act(Act::KeyDown(VK_F)),
        Op::Act(Act::KeyUp(VK_Y)),
        Op::Act(Act::KeyUp(VK_F)),
        Op::Act(Act::Sleep(100)),
        Op::Act(Act::KeyDown(VK_Y)),
        Op::Act(Act::KeyDown(VK_N)),
        Op::Act(Act::KeyDown(VK_F)),
        Op::Act(Act::KeyUp(VK_Y)),
        Op::Act(Act::KeyUp(VK_N)),
        Op::Act(Act::KeyUp(VK_F)),
        Op::Act(Act::Sleep(150)),
        Op::Act(Act::Press(VK_ESCAPE)),
        Op::Act(Act::Sleep(500)),
        Op::Call(Script::MenuExit),
        Op::Back(65),
        Op::Finish(true),
    ]
}

pub(crate) proof fn lemma_poharan_fail_safe_in_order()
    ensures
        ops_in_order_from(poharan_fail_safe_spec(), 0),
{
    reveal_with_fuel(ops_in_order_from, 72);
}

pub(crate) proof fn lemma_poharan_fail_safe_leaves_runs()
    ensures
        runs_untouched_from(poharan_fail_safe_spec(), 0),
{
    reveal_with_fuel(runs_untouched_from, 72);
}

} // verus!
