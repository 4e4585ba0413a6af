//! The scripts of the Aerodrome bot: every client joins the first client's
//! lobby; the first client opens the portals, all of them fight Bulmalo and
//! Maximon.
use vstd::prelude::*;

use super::vm::{Act, Cond, Hotkey, MarkId, Op, Place, Speed, Target, TimerId};
use super::{call_failures_end_from, ops_in_order_from, runs_untouched_from, Script};
use crate::keys::{VK_A, VK_ESCAPE, VK_F, VK_N, VK_RETURN, VK_S, VK_SHIFT, VK_TAB, VK_V, VK_W, VK_Y};

verus! {

/// The Aerodrome bot: waits for the game window, enters the lobby, then runs
/// the dungeon over and over; after a failed run every client is brought back
/// to the lobby.
pub open spec fn aerodrome_start_spec() -> Seq<Op> {
    seq![
        Op::Ask(Cond::GameInFront),
        Op::SkipIf(true, 2),
        Op::Act(Act::Sleep(100)),
        Op::Back(3),
        Op::Act(Act::TakeStartWindow),
        Op::Call(Script::AerodromeEnterLobby),
        Op::Act(Act::SwitchToStart),
        Op::Call(Script::AerodromeMoveToDungeon),
        Op::SkipIf(true, 11),
        Op::Act(Act::Hotkey(Hotkey::ShadowPlay)),
        Op::Act(Act::RecordRun(false)),
        Op::Act(Act::SwitchToStart),
        Op::Call(Script::AerodromeFailSafe),
        Op::ResetCount,
        Op::NextClient(false),
        Op::SkipIf(false, 2),
        Op::Call(Script::AerodromeFailSafe),
        Op::Back(3),
        Op::Call(Script::AerodromeEnterLobby),
        Op::Skip(1),
        Op::Act(Act::RecordRun(true)),
        Op::Act(Act::CountRun),
        Op::Back(16),
    ]
}

/// The Aerodrome bot: waits for the game window, enters the lobby, then runs
/// the dungeon over and over; after a failed run every client is brought back
/// to the lobby.
pub fn aerodrome_start() -> (p: Vec<Op>)
    ensures
        p@ == aerodrome_start_spec(),
{
    vec![
        Op::Ask(Cond::GameInFront),
        Op::SkipIf(true, 2),
        Op::Act(Act::Sleep(100)),
        Op::Back(3),
        Op::Act(Act::TakeStartWindow),
        Op::Call(Script::AerodromeEnterLobby),
        Op::Act(Act::SwitchToStart),
        Op::Call(Script::AerodromeMoveToDungeon),
        Op::SkipIf(true, 11),
        Op::Act(Act::Hotkey(Hotkey::ShadowPlay)),
        Op::Act(Act::RecordRun(false)),
        Op::Act(Act::SwitchToStart),
        Op::Call(Script::AerodromeFailSafe),
        Op::ResetCount,
        Op::NextClient(false),
        Op::SkipIf(false, 2),
        Op::Call(Script::AerodromeFailSafe),
        Op::Back(3),
        Op::Call(Script::AerodromeEnterLobby),
        Op::Skip(1),
        Op::Act(Act::RecordRun(true)),
        Op::Act(Act::CountRun),
        Op::Back(16),
    ]
}

pub(crate) proof fn lemma_aerodrome_start_in_order()
    ensures
        ops_in_order_from(aerodrome_start_spec(), 0),
{
    reveal_with_fuel(ops_in_order_from, 24);
}

/// The lobby: every other client joins the first client's lobby (refocusing
/// its window when another comes in front) and readies up; then the first
/// client selects the dungeon and stage and enters. Starts over when a client
/// cannot ready up or the loading screen does not come within 7 seconds.
pub open spec fn aerodrome_enter_lobby_spec() -> Seq<Op> {
    seq![
        Op::Act(Act::SwitchToStart),
        Op::Ask(Cond::InF8Lobby),
        Op::SkipIf(true, 3),
        Op::Act(Act::CheckActivity),
        Op::Act(Act::Sleep(100)),
        Op::Back(4),
        Op::Act(Act::MarkLobbyNumber),
        Op::ResetCount,
        Op::NextClient(false),
        Op::SkipIf(false, 17),
        Op::Act(Act::Sleep(250)),
        Op::Act(Act::CheckActivity),
        Op::Ask(Cond::Foreground),
        Op::SkipIf(true, 2),
        Op::Act(Act::Refocus),
        Op::Back(4),
        Op::Ask(Cond::LobbyNumberMatches),
        Op::SkipIf(true, 2),
        Op::Call(Script::AerodromeJoinLobby),
        Op::Back(8),
        Op::Ask(Cond::PlayerReady),
        Op::SkipIf(true, 1),
        Op::Call(Script::ReadyUp),
        Op::Ask(Cond::PlayerReady),
        Op::SkipIf(true, 1),
        Op::Back(25),
        Op::Back(18),
        Op::Act(Act::SwitchToStart),
        Op::Call(Script::SelectDungeon),
        Op::Call(Script::SelectStage),
        Op::Act(Act::Sleep(250)),
        Op::Call(Script::EnterDungeon),
        Op::Call(Script::CheatEngineOn),
        Op::StartTimer(TimerId::First),
        Op::Ask(Cond::LoadingScreen),
        Op::SkipIf(true, 4),
        Op::SkipIfElapsed(TimerId::First, 7999, 2),
        Op::Act(Act::CheckActivity),
        Op::Back(4),
        Op::Back(39),
        Op::Call(Script::CheatEngineOff),
        Op::Finish(true),
    ]
}

/// The lobby: every other client joins the first client's lobby (refocusing
/// its window when another comes in front) and readies up; then the first
/// client selects the dungeon and stage and enters. Starts over when a client
/// cannot ready up or the loading screen does not come within 7 seconds.
pub fn aerodrome_enter_lobby() -> (p: Vec<Op>)
    ensures
        p@ == aerodrome_enter_lobby_spec(),
{
    vec![
        Op::Act(Act::SwitchToStart),
        Op::Ask(Cond::InF8Lobby),
        Op::SkipIf(true, 3),
        Op::Act(Act::CheckActivity),
        Op::Act(Act::Sleep(100)),
        Op::Back(4),
        Op::Act(Act::MarkLobbyNumber),
        Op::ResetCount,
        Op::NextClient(false),
        Op::SkipIf(false, 17),
        Op::Act(Act::Sleep(250)),
        Op::Act(Act::CheckActivity),
        Op::Ask(Cond::Foreground),
        Op::SkipIf(true, 2),
        Op::Act(Act::Refocus),
        Op::Back(4),
        Op::Ask(Cond::LobbyNumberMatches),
        Op::SkipIf(true, 2),
        Op::Call(Script::AerodromeJoinLobby),
        Op::Back(8),
        Op::Ask(Cond::PlayerReady),
        Op::SkipIf(true, 1),
        Op::Call(Script::ReadyUp),
        Op::Ask(Cond::PlayerReady),
        Op::SkipIf(true, 1),
        Op::Back(25),
        Op::Back(18),
        Op::Act(Act::SwitchToStart),
        Op::Call(Script::SelectDungeon),
        Op::Call(Script::SelectStage),
        Op::Act(Act::Sleep(250)),
        Op::Call(Script::EnterDungeon),
        Op::Call(Script::CheatEngineOn),
        Op::StartTimer(TimerId::First),
        Op::Ask(Cond::LoadingScreen),
        Op::SkipIf(true, 4),
        Op::SkipIfElapsed(TimerId::First, 7999, 2),
        Op::Act(Act::CheckActivity),
        Op::Back(4),
        Op::Back(39),
        Op::Call(Script::CheatEngineOff),
        Op::Finish(true),
    ]
}

pub(crate) proof fn lemma_aerodrome_enter_lobby_in_order()
    ensures
        ops_in_order_from(aerodrome_enter_lobby_spec(), 0),
{
    reveal_with_fuel(ops_in_order_from, 43);
}

pub(crate) proof fn lemma_aerodrome_enter_lobby_leaves_runs()
    ensures
        runs_untouched_from(aerodrome_enter_lobby_spec(), 0),
{
    reveal_with_fuel(runs_untouched_from, 43);
}

/// Starts a run: the game's own animation speed, then every client into the
/// dungeon.
pub open spec fn aerodrome_move_to_dungeon_spec() -> Seq<Op> {
    seq![
        Op::Act(Act::MarkRunStart),
        Op::Act(Act::AnimationSpeed(Speed::Normal)),
        Op::Call(Script::WaitLoadingScreen),
        Op::Call(Script::RunIntoDungeon),
        Op::SkipIf(false, 11),
        Op::ResetCount,
        Op::NextClient(false),
        Op::SkipIf(false, 5),
        Op::Call(Script::WaitLoadingScreen),
        Op::Act(Act::Sleep(250)),
        Op::Call(Script::RunIntoDungeon),
        Op::SkipIf(false, 4),
        Op::Back(6),
        Op::Call(Script::AerodromeMoveToBoss1),
        Op::SkipIf(false, 1),
        Op::Finish(true),
        Op::Finish(false),
    ]
}

/// Starts a run: the game's own animation speed, then every client into the
/// dungeon.
pub fn aerodrome_move_to_dungeon() -> (p: Vec<Op>)
    ensures
        p@ == aerodrome_move_to_dungeon_spec(),
{
    vec![
        Op::Act(Act::MarkRunStart),
        Op::Act(Act::AnimationSpeed(Speed::Normal)),
        Op::Call(Script::WaitLoadingScreen),
        Op::Call(Script::RunIntoDungeon),
        Op::SkipIf(false, 11),
        Op::ResetCount,
        Op::NextClient(false),
        Op::SkipIf(false, 5),
        Op::Call(Script::WaitLoadingScreen),
        Op::Act(Act::Sleep(250)),
        Op::Call(Script::RunIntoDungeon),
        Op::SkipIf(false, 4),
        Op::Back(6),
        Op::Call(Script::AerodromeMoveToBoss1),
        Op::SkipIf(false, 1),
        Op::Finish(true),
        Op::Finish(false),
    ]
}

pub(crate) proof fn lemma_aerodrome_move_to_dungeon_in_order()
    ensures
        ops_in_order_from(aerodrome_move_to_dungeon_spec(), 0),
{
    reveal_with_fuel(ops_in_order_from, 18);
}

pub(crate) proof fn lemma_aerodrome_move_to_dungeon_leaves_runs()
    ensures
        runs_untouched_from(aerodrome_move_to_dungeon_spec(), 0),
{
    reveal_with_fuel(runs_untouched_from, 18);
}

/// Opens the portal to Bulmalo (activating the barrier first when configured),
/// takes every client through it and walks them to Bulmalo, the first client
/// last.
pub open spec fn aerodrome_move_to_boss_1_spec() -> Seq<Op> {
    seq![
        Op::Act(Act::SwitchToStart),
        Op::Call(Script::WaitLoadingScreen),
        Op::Act(Act::Sleep(250)),
        Op::Call(Script::AerodromeOpenPortal1),
        Op::SkipIf(false, 59),
        Op::StartTimer(TimerId::First),
        Op::Ask(Cond::PortalIcon),
        Op::SkipIf(true, 2),
        Op::SkipIfElapsed(TimerId::First, 7000, 55),
        Op::Back(3),
        Op::Ask(Cond::ActivateBarrier),
        Op::SkipIf(false, 20),
        Op::Act(Act::AnimationSpeed(Speed::Configured)),
        Op::Act(Act::KeyDown(VK_W)),
        Op::StartTimer(TimerId::First),
        Op::Ask(Cond::At(Place::Barrier)),
        Op::SkipIf(true, 4),
        Op::SkipIfElapsed(TimerId::First, 5999, 1),
        Op::Back(3),
        Op::Act(Act::KeyUp(VK_W)),
        Op::Finish(false),
        Op::Act(Act::KeyUp(VK_W)),
        Op::Act(Act::Sleep(50)),
        Op::Act(Act::KeyDown(VK_S)),
        Op::StartTimer(TimerId::First),
        Op::Ask(Cond::At(Place::BeforeBarrier)),
        Op::SkipIf(true, 4),
        Op::SkipIfElapsed(TimerId::First, 5999, 1),
        Op::Back(3),
        Op::Act(Act::KeyUp(VK_S)),
        Op::Finish(false),
        Op::Act(Act::KeyUp(VK_S)),
        Op::ResetCount,
        Op::NextClient(true),
        Op::SkipIf(false, 17),
        Op::Call(Script::WaitLoadingScreen),
        Op::StartTimer(TimerId::First),
        Op::Ask(Cond::Foreground),
        Op::SkipIf(true, 2),
        Op::Act(Act::Refocus),
        Op::Back(3),
        Op::Ask(Cond::OutOfCombat),
        Op::SkipIf(true, 2),
        Op::Ask(Cond::CurrentIsStart),
        Op::SkipIf(false, 5),
        Op::SkipIfElapsed(TimerId::First, 5999, 4),
        Op::Ask(Cond::At(Place::BeforeBulmaloPortal)),
        Op::SkipIf(false, 2),
        Op::Act(Act::Press(VK_F)),
        Op::Back(12),
        Op::Act(Act::AnimationSpeed(Speed::Configured)),
        Op::Back(18),
        Op::ResetCount,
        Op::NextClient(false),
        Op::SkipIf(false, 3),
        Op::Call(Script::AerodromeMoveToBulmalo),
        Op::SkipIf(false, 7),
        Op::Back(4),
        Op::Act(Act::SwitchToStart),
        Op::Call(Script::AerodromeMoveToBulmalo),
        Op::SkipIf(false, 3),
        Op::Call(Script::AerodromeFightBoss1),
        Op::SkipIf(false, 1),
        Op::Finish(true),
        Op::Finish(false),
    ]
}

/// Opens the portal to Bulmalo (activating the barrier first when configured),
/// takes every client through it and walks them to Bulmalo, the first client
/// last.
pub fn aerodrome_move_to_boss_1() -> (p: Vec<Op>)
    ensures
        p@ == aerodrome_move_to_boss_1_spec(),
{
    vec![
        Op::Act(Act::SwitchToStart),
        Op::Call(Script::WaitLoadingScreen),
        Op::Act(Act::Sleep(250)),
        Op::Call(Script::AerodromeOpenPortal1),
        Op::SkipIf(false, 59),
        Op::StartTimer(TimerId::First),
        Op::Ask(Cond::PortalIcon),
        Op::SkipIf(true, 2),
        Op::SkipIfElapsed(TimerId::First, 7000, 55),
        Op::Back(3),
        Op::Ask(Cond::ActivateBarrier),
        Op::SkipIf(false, 20),
        Op::Act(Act::AnimationSpeed(Speed::Configured)),
        Op::Act(Act::KeyDown(VK_W)),
        Op::StartTimer(TimerId::First),
        Op::Ask(Cond::At(Place::Barrier)),
        Op::SkipIf(true, 4),
        Op::SkipIfElapsed(TimerId::First, 5999, 1),
        Op::Back(3),
        Op::Act(Act::KeyUp(VK_W)),
        Op::Finish(false),
        Op::Act(Act::KeyUp(VK_W)),
        Op::Act(Act::Sleep(50)),
        Op::Act(Act::KeyDown(VK_S)),
        Op::StartTimer(TimerId::First),
        Op::Ask(Cond::At(Place::BeforeBarrier)),
        Op::SkipIf(true, 4),
        Op::SkipIfElapsed(TimerId::First, 5999, 1),
        Op::Back(3),
        Op::Act(Act::KeyUp(VK_S)),
        Op::Finish(false),
        Op::Act(Act::KeyUp(VK_S)),
        Op::ResetCount,
        Op::NextClient(true),
        Op::SkipIf(false, 17),
        Op::Call(Script::WaitLoadingScreen),
        Op::StartTimer(TimerId::First),
        Op::Ask(Cond::Foreground),
        Op::SkipIf(true, 2),
        Op::Act(Act::Refocus),
        Op::Back(3),
        Op::Ask(Cond::OutOfCombat),
        Op::SkipIf(true, 2),
        Op::Ask(Cond::CurrentIsStart),
        Op::SkipIf(false, 5),
        Op::SkipIfElapsed(TimerId::First, 5999, 4),
        Op::Ask(Cond::At(Place::BeforeBulmaloPortal)),
        Op::SkipIf(false, 2),
        Op::Act(Act::Press(VK_F)),
        Op::Back(12),
        Op::Act(Act::AnimationSpeed(Speed::Configured)),
        Op::Back(18),
        Op::ResetCount,
        Op::NextClient(false),
        Op::SkipIf(false, 3),
        Op::Call(Script::AerodromeMoveToBulmalo),
        Op::SkipIf(false, 7),
        Op::Back(4),
        Op::Act(Act::SwitchToStart),
        Op::Call(Script::AerodromeMoveToBulmalo),
        Op::SkipIf(false, 3),
        Op::Call(Script::AerodromeFightBoss1),
        Op::SkipIf(false, 1),
        Op::Finish(true),
        Op::Finish(false),
    ]
}

pub(crate) proof fn lemma_aerodrome_move_to_boss_1_in_order()
    ensures
        ops_in_order_from(aerodrome_move_to_boss_1_spec(), 0),
{
    reveal_with_fuel(ops_in_order_from, 66);
}

pub(crate) proof fn lemma_aerodrome_move_to_boss_1_leaves_runs()
    ensures
        runs_untouched_from(aerodrome_move_to_boss_1_spec(), 0),
{
    reveal_with_fuel(runs_untouched_from, 66);
}

/// Bulmalo: every client in auto combat until out of combat, which is recorded
/// as the fight's time; fails on death or after 600 seconds.
pub open spec fn aerodrome_fight_boss_1_spec() -> Seq<Op> {
    seq![
        Op::Call(Script::ActivateAutoCombat),
        Op::Act(Act::Sleep(1000)),
        Op::StartTimer(TimerId::First),
        Op::Ask(Cond::OutOfCombat),
        Op::SkipIf(true, 5),
        Op::Ask(Cond::Revive),
        Op::SkipIf(true, 7),
        Op::SkipIfElapsed(TimerId::First, 600999, 6),
        Op::Act(Act::Sleep(500)),
        Op::Back(6),
        Op::RecordFight(1, TimerId::First),
        Op::Call(Script::AerodromeMoveThroughPortal),
        Op::SkipIf(false, 1),
        Op::Finish(true),
        Op::Finish(false),
    ]
}

/// Bulmalo: every client in auto combat until out of combat, which is recorded
/// as the fight's time; fails on death or after 600 seconds.
pub fn aerodrome_fight_boss_1() -> (p: Vec<Op>)
    ensures
        p@ == aerodrome_fight_boss_1_spec(),
{
    vec![
        Op::Call(Script::ActivateAutoCombat),
        Op::Act(Act::Sleep(1000)),
        Op::StartTimer(TimerId::First),
        Op::Ask(Cond::OutOfCombat),
        Op::SkipIf(true, 5),
        Op::Ask(Cond::Revive),
        Op::SkipIf(true, 7),
        Op::SkipIfElapsed(TimerId::First, 600999, 6),
        Op::Act(Act::Sleep(500)),
        Op::Back(6),
        Op::RecordFight(1, TimerId::First),
        Op::Call(Script::AerodromeMoveThroughPortal),
        Op::SkipIf(false, 1),
        Op::Finish(true),
        Op::Finish(false),
    ]
}

pub(crate) proof fn lemma_aerodrome_fight_boss_1_in_order()
    ensures
        ops_in_order_from(aerodrome_fight_boss_1_spec(), 0),
{
    reveal_with_fuel(ops_in_order_from, 16);
}

pub(crate) proof fn lemma_aerodrome_fight_boss_1_leaves_runs()
    ensures
        runs_untouched_from(aerodrome_fight_boss_1_spec(), 0),
{
    reveal_with_fuel(runs_untouched_from, 16);
}

/// Takes the first client, then every other, to the second area; then the
/// portal to Maximon.
pub open spec fn aerodrome_move_through_portal_spec() -> Seq<Op> {
    seq![
        Op::Call(Script::AerodromeMoveToAreaTwo),
        Op::SkipIf(false, 12),
        Op::ResetCount,
        Op::NextClient(false),
        Op::SkipIf(false, 3),
        Op::Call(Script::AerodromeMoveToAreaTwo),
        Op::SkipIf(false, 7),
        Op::Back(4),
        Op::Act(Act::SwitchToStart),
        Op::Call(Script::AerodromeOpenPortal2),
        Op::SkipIf(false, 3),
        Op::Call(Script::AerodromeMoveToBoss2),
        Op::SkipIf(false, 1),
        Op::Finish(true),
        Op::Finish(false),
    ]
}

/// Takes the first client, then every other, to the second area; then the
/// portal to Maximon.
pub fn aerodrome_move_through_portal() -> (p: Vec<Op>)
    ensures
        p@ == aerodrome_move_through_portal_spec(),
{
    vec![
        Op::Call(Script::AerodromeMoveToAreaTwo),
        Op::SkipIf(false, 12),
        Op::ResetCount,
        Op::NextClient(false),
        Op::SkipIf(false, 3),
        Op::Call(Script::AerodromeMoveToAreaTwo),
        Op::SkipIf(false, 7),
        Op::Back(4),
        Op::Act(Act::SwitchToStart),
        Op::Call(Script::AerodromeOpenPortal2),
        Op::SkipIf(false, 3),
        Op::Call(Script::AerodromeMoveToBoss2),
        Op::SkipIf(false, 1),
        Op::Finish(true),
        Op::Finish(false),
    ]
}

pub(crate) proof fn lemma_aerodrome_move_through_portal_in_order()
    ensures
        ops_in_order_from(aerodrome_move_through_portal_spec(), 0),
{
    reveal_with_fuel(ops_in_order_from, 16);
}

pub(crate) proof fn lemma_aerodrome_move_through_portal_fails_with_its_calls()
    ensures
        call_failures_end_from(aerodrome_move_through_portal_spec(), 0),
{
    reveal_with_fuel(call_failures_end_from, 16);
}

pub(crate) proof fn lemma_aerodrome_move_through_portal_leaves_runs()
    ensures
        runs_untouched_from(aerodrome_move_through_portal_spec(), 0),
{
    reveal_with_fuel(runs_untouched_from, 16);
}

/// Walks every other client, then the first, to Maximon.
pub open spec fn aerodrome_move_to_boss_2_spec() -> Seq<Op> {
    seq![
        Op::ResetCount,
        Op::NextClient(false),
        Op::SkipIf(false, 3),
        Op::Call(Script::AerodromeMoveToMaximon),
        Op::SkipIf(false, 7),
        Op::Back(4),
        Op::Act(Act::SwitchToStart),
        Op::Call(Script::AerodromeMoveToMaximon),
        Op::SkipIf(false, 3),
        Op::Call(Script::AerodromeFightBoss2),
        Op::SkipIf(false, 1),
        Op::Finish(true),
        Op::Finish(false),
    ]
}

/// Walks every other client, then the first, to Maximon.
pub fn aerodrome_move_to_boss_2() -> (p: Vec<Op>)
    ensures
        p@ == aerodrome_move_to_boss_2_spec(),
{
    vec![
        Op::ResetCount,
        Op::NextClient(false),
        Op::SkipIf(false, 3),
        Op::Call(Script::AerodromeMoveToMaximon),
        Op::SkipIf(false, 7),
        Op::Back(4),
        Op::Act(Act::SwitchToStart),
        Op::Call(Script::AerodromeMoveToMaximon),
        Op::SkipIf(false, 3),
        Op::Call(Script::AerodromeFightBoss2),
        Op::SkipIf(false, 1),
        Op::Finish(true),
        Op::Finish(false),
    ]
}

pub(crate) proof fn lemma_aerodrome_move_to_boss_2_in_order()
    ensures
        ops_in_order_from(aerodrome_move_to_boss_2_spec(), 0),
{
    reveal_with_fuel(ops_in_order_from, 14);
}

pub(crate) proof fn lemma_aerodrome_move_to_boss_2_fails_with_its_calls()
    ensures
        call_failures_end_from(aerodrome_move_to_boss_2_spec(), 0),
{
    reveal_with_fuel(call_failures_end_from, 14);
}

pub(crate) proof fn lemma_aerodrome_move_to_boss_2_leaves_runs()
    ensures
        runs_untouched_from(aerodrome_move_to_boss_2_spec(), 0),
{
    reveal_with_fuel(runs_untouched_from, 14);
}

/// Maximon: every client in auto combat until the dynamic reward shows, which
/// is recorded as the fight's time; fails on death or after 600 seconds. Then
/// the loot, and out of the dungeon.
pub open spec fn aerodrome_fight_boss_2_spec() -> Seq<Op> {
    seq![
        Op::Call(Script::ActivateAutoCombat),
        Op::StartTimer(TimerId::First),
        Op::Act(Act::CheckActivity),
        Op::Ask(Cond::DynamicReward),
        Op::SkipIf(true, 5),
        Op::Ask(Cond::Revive),
        Op::SkipIf(true, 9),
        Op::SkipIfElapsed(TimerId::First, 600999, 8),
        Op::Act(Act::Sleep(20)),
        Op::Back(7),
        Op::RecordFight(2, TimerId::First),
        Op::Act(Act::Sleep(4000)),
        Op::Act(Act::SleepScaled(6000)),
        Op::Call(Script::AerodromeLeaveDungeon),
        Op::SkipIf(false, 1),
        Op::Finish(true),
        Op::Finish(false),
    ]
}

/// Maximon: every client in auto combat until the dynamic reward shows, which
/// is recorded as the fight's time; fails on death or after 600 seconds. Then
/// the loot, and out of the dungeon.
pub fn aerodrome_fight_boss_2() -> (p: Vec<Op>)
    ensures
        p@ == aerodrome_fight_boss_2_spec(),
{
    vec![
        Op::Call(Script::ActivateAutoCombat),
        Op::StartTimer(TimerId::First),
        Op::Act(Act::CheckActivity),
        Op::Ask(Cond::DynamicReward),
        Op::SkipIf(true, 5),
        Op::Ask(Cond::Revive),
        Op::SkipIf(true, 9),
        Op::SkipIfElapsed(TimerId::First, 600999, 8),
        Op::Act(Act::Sleep(20)),
        Op::Back(7),
        Op::RecordFight(2, TimerId::First),
        Op::Act(Act::Sleep(4000)),
        Op::Act(Act::SleepScaled(6000)),
        Op::Call(Script::AerodromeLeaveDungeon),
        Op::SkipIf(false, 1),
        Op::Finish(true),
        Op::Finish(false),
    ]
}

pub(crate) proof fn lemma_aerodrome_fight_boss_2_in_order()
    ensures
        ops_in_order_from(aerodrome_fight_boss_2_spec(), 0),
{
    reveal_with_fuel(ops_in_order_from, 18);
}

pub(crate) proof fn lemma_aerodrome_fight_boss_2_leaves_runs()
    ensures
        runs_untouched_from(aerodrome_fight_boss_2_spec(), 0),
{
    reveal_with_fuel(runs_untouched_from, 18);
}

/// Takes the first client, then every other, out of the dungeon.
pub open spec fn aerodrome_leave_dungeon_spec() -> Seq<Op> {
    seq![
        Op::Act(Act::SwitchToStart),
        Op::Call(Script::AerodromeLeaveDungeonClient),
        Op::SkipIf(false, 8),
        Op::ResetCount,
        Op::NextClient(false),
        Op::SkipIf(false, 4),
        Op::Act(Act::Sleep(50)),
        Op::Call(Script::AerodromeLeaveDungeonClient),
        Op::SkipIf(false, 2),
        Op::Back(5),
        Op::Finish(true),
        Op::Finish(false),
    ]
}

/// Takes the first client, then every other, out of the dungeon.
pub fn aerodrome_leave_dungeon() -> (p: Vec<Op>)
    ensures
        p@ == aerodrome_leave_dungeon_spec(),
{
    vec![
        Op::Act(Act::SwitchToStart),
        Op::Call(Script::AerodromeLeaveDungeonClient),
        Op::SkipIf(false, 8),
        Op::ResetCount,
        Op::NextClient(false),
        Op::SkipIf(false, 4),
        Op::Act(Act::Sleep(50)),
        Op::Call(Script::AerodromeLeaveDungeonClient),
        Op::SkipIf(false, 2),
        Op::Back(5),
        Op::Finish(true),
        Op::Finish(false),
    ]
}

pub(crate) proof fn lemma_aerodrome_leave_dungeon_in_order()
    ensures
        ops_in_order_from(aerodrome_leave_dungeon_spec(), 0),
{
    reveal_with_fuel(ops_in_order_from, 13);
}

pub(crate) proof fn lemma_aerodrome_leave_dungeon_fails_with_its_calls()
    ensures
        call_failures_end_from(aerodrome_leave_dungeon_spec(), 0),
{
    reveal_with_fuel(call_failures_end_from, 13);
}

pub(crate) proof fn lemma_aerodrome_leave_dungeon_leaves_runs()
    ensures
        runs_untouched_from(aerodrome_leave_dungeon_spec(), 0),
{
    reveal_with_fuel(runs_untouched_from, 13);
}

/// Takes a client out of the dungeon: to the exit portal (for at most 4.5
/// seconds), through the rewards (waiting at most 10 seconds for the bonus
/// reward), into the loading screen (for at most 20 seconds).
pub open spec fn aerodrome_leave_dungeon_client_spec() -> Seq<Op> {
    seq![
        Op::Act(Act::Hotkey(Hotkey::ToggleAutoCombat)),
        Op::Act(Act::CameraYaw(0)),
        Op::Act(Act::KeyDown(VK_A)),
        Op::Act(Act::KeyDown(VK_W)),
        Op::StartTimer(TimerId::First),
        Op::Act(Act::CheckActivity),
        Op::Ask(Cond::At(Place::AerodromeExitY)),
        Op::SkipIf(false, 1),
        Op::Act(Act::KeyUp(VK_A)),
        Op::Ask(Cond::At(Place::AerodromeExitX)),
        Op::SkipIf(false, 1),
        Op::Act(Act::KeyUp(VK_W)),
        Op::Ask(Cond::ExitPortalIcon),
        Op::SkipIf(true, 3),
        Op::SkipIfElapsed(TimerId::First, 4500, 46),
        Op::Act(Act::Sleep(25)),
        Op::Back(11),
        Op::Ask(Cond::ExitPortalIcon),
        Op::SkipIf(false, 42),
        Op::Act(Act::CheckActivity),
        Op::Ask(Cond::ExitPortalIcon),
        Op::SkipIf(false, 6),
        Op::Act(Act::KeyDown(VK_Y)),
        Op::Act(Act::KeyDown(VK_F)),
        Op::Act(Act::KeyUp(VK_Y)),
        Op::Act(Act::KeyUp(VK_F)),
        Op::Act(Act::Sleep(100)),
        Op::Back(8),
        Op::StartTimer(TimerId::First),
        Op::Act(Act::CheckActivity),
        Op::SkipIfElapsed(TimerId::First, 10999, 8),
        Op::Ask(Cond::BonusRewardSelection),
        Op::SkipIf(true, 6),
        Op::Act(Act::KeyDown(VK_Y)),
        Op::Act(Act::KeyDown(VK_F)),
        Op::Act(Act::KeyUp(VK_Y)),
        Op::Act(Act::KeyUp(VK_F)),
        Op::Act(Act::Sleep(20)),
        Op::Back(9),
        Op::StartTimer(TimerId::First),
        Op::Act(Act::CheckActivity),
        Op::Ask(Cond::BonusRewardSelection),
        Op::SkipIf(false, 9),
        Op::SkipIfElapsed(TimerId::First, 5999, 5),
        Op::Act(Act::KeyDown(VK_Y)),
        Op::Act(Act::KeyDown(VK_N)),
        Op::Act(Act::KeyUp(VK_Y)),
        Op::Act(Act::KeyUp(VK_N)),
        Op::Skip(1),
        Op::Act(Act::Press(VK_ESCAPE)),
        Op::Act(Act::Sleep(20)),
        Op::Back(11),
        Op::StartTimer(TimerId::First),
        Op::Act(Act::CheckActivity),
        Op::SkipIfElapsed(TimerId::First, 20999, 6),
        Op::Ask(Cond::LoadingScreen),
        Op::SkipIf(true, 3),
        Op::Act(Act::Press(VK_F)),
        Op::Act(Act::Sleep(100)),
        Op::Back(6),
        Op::Finish(true),
        Op::Finish(false),
    ]
}

/// Takes a client out of the dungeon: to the exit portal (for at most 4.5
/// seconds), through the rewards (waiting at most 10 seconds for the bonus
/// reward), into the loading screen (for at most 20 seconds).
pub fn aerodrome_leave_dungeon_client() -> (p: Vec<Op>)
    ensures
        p@ == aerodrome_leave_dungeon_client_spec(),
{
    vec![
        Op::Act(Act::Hotkey(Hotkey::ToggleAutoCombat)),
        Op::Act(Act::CameraYaw(0)),
        Op::Act(Act::KeyDown(VK_A)),
        Op::Act(Act::KeyDown(VK_W)),
        Op::StartTimer(TimerId::First),
        Op::Act(Act::CheckActivity),
        Op::Ask(Cond::At(Place::AerodromeExitY)),
        Op::SkipIf(false, 1),
        Op::Act(Act::KeyUp(VK_A)),
        Op::Ask(Cond::At(Place::AerodromeExitX)),
        Op::SkipIf(false, 1),
        Op::Act(Act::KeyUp(VK_W)),
        Op::Ask(Cond::ExitPortalIcon),
        Op::SkipIf(true, 3),
        Op::SkipIfElapsed(TimerId::First, 4500, 46),
        Op::Act(Act::Sleep(25)),
        Op::Back(11),
        Op::Ask(Cond::ExitPortalIcon),
        Op::SkipIf(false, 42),
        Op::Act(Act::CheckActivity),
        Op::Ask(Cond::ExitPortalIcon),
        Op::SkipIf(false, 6),
        Op::Act(Act::KeyDown(VK_Y)),
        Op::Act(Act::KeyDown(VK_F)),
        Op::Act(Act::KeyUp(VK_Y)),
        Op::Act(Act::KeyUp(VK_F)),
        Op::Act(Act::Sleep(100)),
        Op::Back(8),
        Op::StartTimer(TimerId::First),
        Op::Act(Act::CheckActivity),
        Op::SkipIfElapsed(TimerId::First, 10999, 8),
        Op::Ask(Cond::BonusRewardSelection),
        Op::SkipIf(true, 6),
        Op::Act(Act::KeyDown(VK_Y)),
        Op::Act(Act::KeyDown(VK_F)),
        Op::Act(Act::KeyUp(VK_Y)),
        Op::Act(Act::KeyUp(VK_F)),
        Op::Act(Act::Sleep(20)),
        Op::Back(9),
        Op::StartTimer(TimerId::First),
        Op::Act(Act::CheckActivity),
        Op::Ask(Cond::BonusRewardSelection),
        Op::SkipIf(false, 9),
        Op::SkipIfElapsed(TimerId::First, 5999, 5),
        Op::Act(Act::KeyDown(VK_Y)),
        Op::Act(Act::KeyDown(VK_N)),
        Op::Act(Act::KeyUp(VK_Y)),
        Op::Act(Act::KeyUp(VK_N)),
        Op::Skip(1),
        Op::Act(Act::Press(VK_ESCAPE)),
        Op::Act(Act::Sleep(20)),
        Op::Back(11),
        Op::StartTimer(TimerId::First),
        Op::Act(Act::CheckActivity),
        Op::SkipIfElapsed(TimerId::First, 20999, 6),
        Op::Ask(Cond::LoadingScreen),
        Op::SkipIf(true, 3),
        Op::Act(Act::Press(VK_F)),
        Op::Act(Act::Sleep(100)),
        Op::Back(6),
        Op::Finish(true),
        Op::Finish(false),
    ]
}

pub(crate) proof fn lemma_aerodrome_leave_dungeon_client_in_order()
    ensures
        ops_in_order_from(aerodrome_leave_dungeon_client_spec(), 0),
{
    reveal_with_fuel(ops_in_order_from, 63);
}

pub(crate) proof fn lemma_aerodrome_leave_dungeon_client_leaves_runs()
    ensures
        runs_untouched_from(aerodrome_leave_dungeon_client_spec(), 0),
{
    reveal_with_fuel(runs_untouched_from, 63);
}

/// Walks a client to Bulmalo, sprinting once out of combat; fails on death or
/// after 30 seconds.
pub open spec fn aerodrome_move_to_bulmalo_spec() -> Seq<Op> {
    seq![
        Op::Act(Act::KeyDown(VK_W)),
        Op::StartTimer(TimerId::First),
        Op::Act(Act::CheckActivity),
        Op::SkipIfMark(MarkId::First, true, 7),
        Op::Ask(Cond::OutOfCombat),
        Op::SkipIf(false, 5),
        Op::Act(Act::Sleep(150)),
        Op::Act(Act::KeyDown(VK_SHIFT)),
        Op::Act(Act::Sleep(2)),
        Op::Act(Act::KeyUp(VK_SHIFT)),
        Op::SetMark(MarkId::First, true),
        Op::Ask(Cond::Revive),
        Op::SkipIf(true, 7),
        Op::SkipIfElapsed(TimerId::First, 30999, 6),
        Op::Ask(Cond::At(Place::Bulmalo)),
        Op::SkipIf(true, 1),
        Op::Back(14),
        Op::Act(Act::KeyUp(VK_W)),
        Op::Act(Act::KeyUp(VK_W)),
        Op::Finish(true),
        Op::Finish(false),
    ]
}

/// Walks a client to Bulmalo, sprinting once out of combat; fails on death or
/// after 30 seconds.
pub fn aerodrome_move_to_bulmalo() -> (p: Vec<Op>)
    ensures
        p@ == aerodrome_move_to_bulmalo_spec(),
{
    vec![
        Op::Act(Act::KeyDown(VK_W)),
        Op::StartTimer(TimerId::First),
        Op::Act(Act::CheckActivity),
        Op::SkipIfMark(MarkId::First, true, 7),
        Op::Ask(Cond::OutOfCombat),
        Op::SkipIf(false, 5),
        Op::Act(Act::Sleep(150)),
        Op::Act(Act::KeyDown(VK_SHIFT)),
        Op::Act(Act::Sleep(2)),
        Op::Act(Act::KeyUp(VK_SHIFT)),
        Op::SetMark(MarkId::First, true),
        Op::Ask(Cond::Revive),
        Op::SkipIf(true, 7),
        Op::SkipIfElapsed(TimerId::First, 30999, 6),
        Op::Ask(Cond::At(Place::Bulmalo)),
        Op::SkipIf(true, 1),
        Op::Back(14),
        Op::Act(Act::KeyUp(VK_W)),
        Op::Act(Act::KeyUp(VK_W)),
        Op::Finish(true),
        Op::Finish(false),
    ]
}

pub(crate) proof fn lemma_aerodrome_move_to_bulmalo_in_order()
    ensures
        ops_in_order_from(aerodrome_move_to_bulmalo_spec(), 0),
{
    reveal_with_fuel(ops_in_order_from, 22);
}

pub(crate) proof fn lemma_aerodrome_move_to_bulmalo_leaves_runs()
    ensures
        runs_untouched_from(aerodrome_move_to_bulmalo_spec(), 0),
{
    reveal_with_fuel(runs_untouched_from, 22);
}

/// Walks a client to Maximon at the configured speed, sprinting once out of
/// combat; fails after 40 seconds.
pub open spec fn aerodrome_move_to_maximon_spec() -> Seq<Op> {
    seq![
        Op::Act(Act::AnimationSpeed(Speed::Configured)),
        Op::Act(Act::Sleep(250)),
        Op::Act(Act::KeyDown(VK_W)),
        Op::StartTimer(TimerId::First),
        Op::Act(Act::CheckActivity),
        Op::SkipIfMark(MarkId::First, true, 7),
        Op::Ask(Cond::OutOfCombat),
        Op::SkipIf(false, 5),
        Op::Act(Act::Sleep(150)),
        Op::Act(Act::KeyDown(VK_SHIFT)),
        Op::Act(Act::Sleep(2)),
        Op::Act(Act::KeyUp(VK_SHIFT)),
        Op::SetMark(MarkId::First, true),
        Op::SkipIfElapsed(TimerId::First, 40999, 5),
        Op::Ask(Cond::At(Place::Maximon)),
        Op::SkipIf(true, 1),
        Op::Back(12),
        Op::Act(Act::KeyUp(VK_W)),
        Op::Finish(true),
        Op::Finish(false),
    ]
}

/// Walks a client to Maximon at the configured speed, sprinting once out of
/// combat; fails after 40 seconds.
pub fn aerodrome_move_to_maximon() -> (p: Vec<Op>)
    ensures
        p@ == aerodrome_move_to_maximon_spec(),
{
    vec![
        Op::Act(Act::AnimationSpeed(Speed::Configured)),
        Op::Act(Act::Sleep(250)),
        Op::Act(Act::KeyDown(VK_W)),
        Op::StartTimer(TimerId::First),
        Op::Act(Act::CheckActivity),
        Op::SkipIfMark(MarkId::First, true, 7),
        Op::Ask(Cond::OutOfCombat),
        Op::SkipIf(false, 5),
        Op::Act(Act::Sleep(150)),
        Op::Act(Act::KeyDown(VK_SHIFT)),
        Op::Act(Act::Sleep(2)),
        Op::Act(Act::KeyUp(VK_SHIFT)),
        Op::SetMark(MarkId::First, true),
        Op::SkipIfElapsed(TimerId::First, 40999, 5),
        Op::Ask(Cond::At(Place::Maximon)),
        Op::SkipIf(true, 1),
        Op::Back(12),
        Op::Act(Act::KeyUp(VK_W)),
        Op::Finish(true),
        Op::Finish(false),
    ]
}

pub(crate) proof fn lemma_aerodrome_move_to_maximon_in_order()
    ensures
        ops_in_order_from(aerodrome_move_to_maximon_spec(), 0),
{
    reveal_with_fuel(ops_in_order_from, 21);
}

pub(crate) proof fn lemma_aerodrome_move_to_maximon_leaves_runs()
    ensures
        runs_untouched_from(aerodrome_move_to_maximon_spec(), 0),
{
    reveal_with_fuel(runs_untouched_from, 21);
}

/// Opens the portal to Bulmalo: flies there, spawns the thrall for 2.5
/// seconds, flies back and presses V four times; fails when a flight takes
/// over 5 seconds.
pub open spec fn aerodrome_open_portal_1_spec() -> Seq<Op> {
    seq![
        Op::Act(Act::CheckActivity),
        Op::Ask(Cond::ThrallReady),
        Op::SkipIf(true, 2),
        Op::Act(Act::Sleep(100)),
        Op::Back(4),
        Op::Act(Act::MarkPosition),
        Op::StartTimer(TimerId::First),
        Op::Act(Act::CheckActivity),
        Op::Ask(Cond::Teleported),
        Op::SkipIf(true, 7),
        Op::SkipIfElapsed(TimerId::First, 5000, 31),
        Op::Act(Act::Hotkey(Hotkey::FlyHackBoss1)),
        Op::Act(Act::KeyDown(VK_W)),
        Op::Act(Act::Sleep(2)),
        Op::Act(Act::KeyUp(VK_W)),
        Op::Act(Act::Sleep(100)),
        Op::Back(9),
        Op::StartTimer(TimerId::First),
        Op::SkipIfElapsed(TimerId::First, 2500, 3),
        Op::Act(Act::Press(VK_TAB)),
        Op::Act(Act::Sleep(100)),
        Op::Back(3),
        Op::StartTimer(TimerId::First),
        Op::Act(Act::CheckActivity),
        Op::Ask(Cond::BackAtMark),
        Op::SkipIf(true, 7),
        Op::SkipIfElapsed(TimerId::First, 5000, 15),
        Op::Act(Act::Hotkey(Hotkey::DisableFlyHack)),
        Op::Act(Act::KeyDown(VK_S)),
        Op::Act(Act::Sleep(2)),
        Op::Act(Act::KeyUp(VK_S)),
        Op::Act(Act::Sleep(100)),
        Op::Back(9),
        Op::Act(Act::Press(VK_V)),
        Op::Act(Act::Sleep(50)),
        Op::Act(Act::Press(VK_V)),
        Op::Act(Act::Sleep(50)),
        Op::Act(Act::Press(VK_V)),
        Op::Act(Act::Sleep(50)),
        Op::Act(Act::Press(VK_V)),
        Op::Act(Act::Sleep(50)),
        Op::Finish(true),
        Op::Finish(false),
    ]
}

/// Opens the portal to Bulmalo: flies there, spawns the thrall for 2.5
/// seconds, flies back and presses V four times; fails when a flight takes
/// over 5 seconds.
pub fn aerodrome_open_portal_1() -> (p: Vec<Op>)
    ensures
        p@ == aerodrome_open_portal_1_spec(),
{
    vec![
        Op::Act(Act::CheckActivity),
        Op::Ask(Cond::ThrallReady),
        Op::SkipIf(true, 2),
        Op::Act(Act::Sleep(100)),
        Op::Back(4),
        Op::Act(Act::MarkPosition),
        Op::StartTimer(TimerId::First),
        Op::Act(Act::CheckActivity),
        Op::Ask(Cond::Teleported),
        Op::SkipIf(true, 7),
        Op::SkipIfElapsed(TimerId::First, 5000, 31),
        Op::Act(Act::Hotkey(Hotkey::FlyHackBoss1)),
        Op::Act(Act::KeyDown(VK_W)),
        Op::Act(Act::Sleep(2)),
        Op::Act(Act::KeyUp(VK_W)),
        Op::Act(Act::Sleep(100)),
        Op::Back(9),
        Op::StartTimer(TimerId::First),
        Op::SkipIfElapsed(TimerId::First, 2500, 3),
        Op::Act(Act::Press(VK_TAB)),
        Op::Act(Act::Sleep(100)),
        Op::Back(3),
        Op::StartTimer(TimerId::First),
        Op::Act(Act::CheckActivity),
        Op::Ask(Cond::BackAtMark),
        Op::SkipIf(true, 7),
        Op::SkipIfElapsed(TimerId::First, 5000, 15),
        Op::Act(Act::Hotkey(Hotkey::DisableFlyHack)),
        Op::Act(Act::KeyDown(VK_S)),
        Op::Act(Act::Sleep(2)),
        Op::Act(Act::KeyUp(VK_S)),
        Op::Act(Act::Sleep(100)),
        Op::Back(9),
        Op::Act(Act::Press(VK_V)),
        Op::Act(Act::Sleep(50)),
        Op::Act(Act::Press(VK_V)),
        Op::Act(Act::Sleep(50)),
        Op::Act(Act::Press(VK_V)),
        Op::Act(Act::Sleep(50)),
        Op::Act(Act::Press(VK_V)),
        Op::Act(Act::Sleep(50)),
        Op::Finish(true),
        Op::Finish(false),
    ]
}

pub(crate) proof fn lemma_aerodrome_open_portal_1_in_order()
    ensures
        ops_in_order_from(aerodrome_open_portal_1_spec(), 0),
{
    reveal_with_fuel(ops_in_order_from, 44);
}

pub(crate) proof fn lemma_aerodrome_open_portal_1_leaves_runs()
    ensures
        runs_untouched_from(aerodrome_open_portal_1_spec(), 0),
{
    reveal_with_fuel(runs_untouched_from, 44);
}

/// Opens the portal to Maximon, as to Bulmalo but with 5 seconds for the thrall.
pub open spec fn aerodrome_open_portal_2_spec() -> Seq<Op> {
    seq![
        Op::Act(Act::CheckActivity),
        Op::Ask(Cond::ThrallReady),
        Op::SkipIf(true, 2),
        Op::Act(Act::Sleep(100)),
        Op::Back(4),
        Op::Act(Act::MarkPosition),
        Op::StartTimer(TimerId::First),
        Op::Act(Act::CheckActivity),
        Op::Ask(Cond::Teleported),
        Op::SkipIf(true, 7),
        Op::SkipIfElapsed(TimerId::First, 5000, 31),
        Op::Act(Act::Hotkey(Hotkey::FlyHackBoss2)),
        Op::Act(Act::KeyDown(VK_W)),
        Op::Act(Act::Sleep(2)),
        Op::Act(Act::KeyUp(VK_W)),
        Op::Act(Act::Sleep(100)),
        Op::Back(9),
        Op::StartTimer(TimerId::First),
        Op::SkipIfElapsed(TimerId::First, 5000, 3),
        Op::Act(Act::Press(VK_TAB)),
        Op::Act(Act::Sleep(100)),
        Op::Back(3),
        Op::StartTimer(TimerId::First),
        Op::Act(Act::CheckActivity),
        Op::Ask(Cond::BackAtMark),
        Op::SkipIf(true, 7),
        Op::SkipIfElapsed(TimerId::First, 5000, 15),
        Op::Act(Act::Hotkey(Hotkey::DisableFlyHack)),
        Op::Act(Act::KeyDown(VK_S)),
        Op::Act(Act::Sleep(2)),
        Op::Act(Act::KeyUp(VK_S)),
        Op::Act(Act::Sleep(100)),
        Op::Back(9),
        Op::Act(Act::Press(VK_V)),
        Op::Act(Act::Sleep(50)),
        Op::Act(Act::Press(VK_V)),
        Op::Act(Act::Sleep(50)),
        Op::Act(Act::Press(VK_V)),
        Op::Act(Act::Sleep(50)),
        Op::Act(Act::Press(VK_V)),
        Op::Act(Act::Sleep(50)),
        Op::Finish(true),
        Op::Finish(false),
    ]
}

/// Opens the portal to Maximon, as to Bulmalo but with 5 seconds for the thrall.
pub fn aerodrome_open_portal_2() -> (p: Vec<Op>)
    ensures
        p@ == aerodrome_open_portal_2_spec(),
{
    vec![
        Op::Act(Act::CheckActivity),
        Op::Ask(Cond::ThrallReady),
        Op::SkipIf(true, 2),
        Op::Act(Act::Sleep(100)),
        Op::Back(4),
        Op::Act(Act::MarkPosition),
        Op::StartTimer(TimerId::First),
        Op::Act(Act::CheckActivity),
        Op::Ask(Cond::Teleported),
        Op::SkipIf(true, 7),
        Op::SkipIfElapsed(TimerId::First, 5000, 31),
        Op::Act(Act::Hotkey(Hotkey::FlyHackBoss2)),
        Op::Act(Act::KeyDown(VK_W)),
        Op::Act(Act::Sleep(2)),
        Op::Act(Act::KeyUp(VK_W)),
        Op::Act(Act::Sleep(100)),
        Op::Back(9),
        Op::StartTimer(TimerId::First),
        Op::SkipIfElapsed(TimerId::First, 5000, 3),
        Op::Act(Act::Press(VK_TAB)),
        Op::Act(Act::Sleep(100)),
        Op::Back(3),
        Op::StartTimer(TimerId::First),
        Op::Act(Act::CheckActivity),
        Op::Ask(Cond::BackAtMark),
        Op::SkipIf(true, 7),
        Op::SkipIfElapsed(TimerId::First, 5000, 15),
        Op::Act(Act::Hotkey(Hotkey::DisableFlyHack)),
        Op::Act(Act::KeyDown(VK_S)),
        Op::Act(Act::Sleep(2)),
        Op::Act(Act::KeyUp(VK_S)),
        Op::Act(Act::Sleep(100)),
        Op::Back(9),
        Op::Act(Act::Press(VK_V)),
        Op::Act(Act::Sleep(50)),
        Op::Act(Act::Press(VK_V)),
        Op::Act(Act::Sleep(50)),
        Op::Act(Act::Press(VK_V)),
        Op::Act(Act::Sleep(50)),
        Op::Act(Act::Press(VK_V)),
        Op::Act(Act::Sleep(50)),
        Op::Finish(true),
        Op::Finish(false),
    ]
}

pub(crate) proof fn lemma_aerodrome_open_portal_2_in_order()
    ensures
        ops_in_order_from(aerodrome_open_portal_2_spec(), 0),
{
    reveal_with_fuel(ops_in_order_from, 44);
}

pub(crate) proof fn lemma_aerodrome_open_portal_2_leaves_runs()
    ensures
        runs_untouched_from(aerodrome_open_portal_2_spec(), 0),
{
    reveal_with_fuel(runs_untouched_from, 44);
}

/// Brings a client back to the lobby: keeps its window in front, waits out a
/// loading screen (or a death), starting over after 60 seconds, then ends any
/// fly hack, clears dialogues (unless it can resurrect) and exits through the
/// menu until the lobby or a loading screen shows.
pub open spec fn aerodrome_fail_safe_spec() -> Seq<Op> {
    seq![
        Op::StartTimer(TimerId::First),
        Op::Ask(Cond::Foreground),
        Op::SkipIf(true, 2),
        Op::Act(Act::Refocus),
        Op::Back(3),
        Op::SkipIfElapsed(TimerId::First, 60999, 8),
        Op::Ask(Cond::InF8Lobby),
        Op::SkipIf(true, 7),
        Op::Ask(Cond::OutOfLoadingScreen),
        Op::SkipIf(true, 5),
        Op::Ask(Cond::Revive),
        Op::SkipIf(true, 3),
        Op::Act(Act::Sleep(100)),
        Op::Back(12),
        Op::Back(14),
        Op::Act(Act::CheckActivity),
        Op::Ask(Cond::Foreground),
        Op::SkipIf(true, 2),
        Op::Act(Act::Refocus),
        Op::Back(4),
        Op::Ask(Cond::InF8Lobby),
        Op::SkipIf(true, 66),
        Op::Ask(Cond::LoadingScreen),
        Op::SkipIf(true, 64),
        Op::Act(Act::Hotkey(Hotkey::DisableFlyHack)),
        Op::Ask(Cond::Resurrect),
        Op::SkipIf(true, 57),
        Op::Act(Act::KeyDown(VK_Y)),
        Op::Act(Act::KeyDown(VK_F)),
        Op::Act(Act::KeyUp(VK_Y)),
        Op::Act(Act::KeyUp(VK_F)),
        Op::Act(Act::Sleep(100)),
        Op::Act(Act::KeyDown(VK_Y)),
        Op::Act(Act::KeyDown(VK_F)),
        Op::Act(Act::KeyUp(VK_Y)),
        Op::Act(Act::KeyUp(VK_F)),
        Op::Act(Act::Sleep(100)),
        Op::Act(Act::KeyDown(VK_Y)),
        Op::Act(Act::KeyDown(VK_F)),
        Op::Act(Act::KeyUp(VK_Y)),
        Op::Act(Act::KeyUp(VK_F)),
        Op::Act(Act::Sleep(100)),
        Op::Act(Act::KeyDown(VK_Y)),
        Op::Act(Act::KeyDown(VK_F)),
        Op::Act(Act::KeyUp(VK_Y)),
        Op::Act(Act::KeyUp(VK_F)),
        Op::Act(Act::Sleep(100)),
        Op::Act(Act::KeyDown(VK_Y)),
        Op::Act(Act::KeyDown(VK_F)),
        Op::Act(Act::KeyUp(VK_Y)),
        Op::Act(Act::KeyUp(VK_F)),
        Op::Act(Act::Sleep(100)),
        Op::Act(Act::KeyDown(VK_Y)),
        Op::Act(Act::KeyDown(VK_F)),
        Op::Act(Act::KeyUp(VK_Y)),
        Op::Act(Act::KeyUp(VK_F)),
        Op::Act(Act::Sleep(100)),
        Op::Act(Act::KeyDown(VK_Y)),
        Op::Act(Act::KeyDown(VK_F)),
        Op::Act(Act::KeyUp(VK_Y)),
        Op::Act(Act::KeyUp(VK_F)),
        Op::Act(Act::Sleep(100)),
        Op::Act(Act::KeyDown(VK_Y)),
        Op::Act(Act::KeyDown(VK_F)),
        Op::Act(Act::KeyUp(VK_Y)),
        Op::Act(Act::KeyUp(VK_F)),
        Op::Act(Act::Sleep(100)),
        Op::Act(Act::KeyDown(VK_Y)),
        Op::Act(Act::KeyDown(VK_F)),
        Op::Act(Act::KeyUp(VK_Y)),
        Op::Act(Act::KeyUp(VK_F)),
        Op::Act(Act::Sleep(100)),
        Op::Act(Act::KeyDown(VK_Y)),
        Op::Act(Act::KeyDown(VK_F)),
        Op::Act(Act::KeyUp(VK_Y)),
        Op::Act(Act::KeyUp(VK_F)),
        Op::Act(Act::Sleep(100)),
        Op::Act(Act::KeyDown(VK_Y)),
        Op::Act(Act::KeyDown(VK_N)),
        Op::Act(Act::KeyDown(VK_F)),
        Op::Act(Act::KeyUp(VK_Y)),
        Op::Act(Act::KeyUp(VK_N)),
        Op::Act(Act::KeyUp(VK_F)),
        Op::Act(Act::Sleep(150)),
        Op::Act(Act::Press(VK_ESCAPE)),
        Op::Act(Act::Sleep(500)),
        Op::Call(Script::MenuExit),
        Op::Back(72),
        Op::Finish(true),
    ]
}

/// Brings a client back to the lobby: keeps its window in front, waits out a
/// loading screen (or a death), starting over after 60 seconds, then ends any
/// fly hack, clears dialogues (unless it can resurrect) and exits through the
/// menu until the lobby or a loading screen shows.
pub fn aerodrome_fail_safe() -> (p: Vec<Op>)
    ensures
        p@ == aerodrome_fail_safe_spec(),
{
    vec![
        Op::StartTimer(TimerId::First),
        Op::Ask(Cond::Foreground),
        Op::SkipIf(true, 2),
        Op::Act(Act::Refocus),
        Op::Back(3),
        Op::SkipIfElapsed(TimerId::First, 60999, 8),
        Op::Ask(Cond::InF8Lobby),
        Op::SkipIf(true, 7),
        Op::Ask(Cond::OutOfLoadingScreen),
        Op::SkipIf(true, 5),
        Op::Ask(Cond::Revive),
        Op::SkipIf(true, 3),
        Op::Act(Act::Sleep(100)),
        Op::Back(12),
        Op::Back(14),
        Op::Act(Act::CheckActivity),
        Op::Ask(Cond::Foreground),
        Op::SkipIf(true, 2),
        Op::Act(Act::Refocus),
        Op::Back(4),
        Op::Ask(Cond::InF8Lobby),
        Op::SkipIf(true, 66),
        Op::Ask(Cond::LoadingScreen),
        Op::SkipIf(true, 64),
        Op::Act(Act::Hotkey(Hotkey::DisableFlyHack)),
        Op::Ask(Cond::Resurrect),
        Op::SkipIf(true, 57),
        Op::Act(Act::KeyDown(VK_Y)),
        Op::Act(Act::KeyDown(VK_F)),
        Op::Act(Act::KeyUp(VK_Y)),
        Op::Act(Act::KeyUp(VK_F)),
        Op::Act(Act::Sleep(100)),
        Op::Act(Act::KeyDown(VK_Y)),
        Op::Act(Act::KeyDown(VK_F)),
        Op::Act(Act::KeyUp(VK_Y)),
        Op::Act(Act::KeyUp(VK_F)),
        Op::Act(Act::Sleep(100)),
        Op::Act(Act::KeyDown(VK_Y)),
        Op::Act(Act::KeyDown(VK_F)),
        Op::Act(Act::KeyUp(VK_Y)),
        Op::Act(Act::KeyUp(VK_F)),
        Op::Act(Act::Sleep(100)),
        Op::Act(Act::KeyDown(VK_Y)),
        Op::Act(Act::KeyDown(VK_F)),
        Op::Act(Act::KeyUp(VK_Y)),
        Op::Act(Act::KeyUp(VK_F)),
        Op::Act(Act::Sleep(100)),
        Op::Act(Act::KeyDown(VK_Y)),
        Op::Act(Act::KeyDown(VK_F)),
        Op::Act(Act::KeyUp(VK_Y)),
        Op::Act(Act::KeyUp(VK_F)),
        Op::Act(Act::Sleep(100)),
        Op::Act(Act::KeyDown(VK_Y)),
        Op::Act(Act::KeyDown(VK_F)),
        Op::Act(Act::KeyUp(VK_Y)),
        Op::Act(Act::KeyUp(VK_F)),
        Op::Act(Act::Sleep(100)),
        Op::Act(Act::KeyDown(VK_Y)),
        Op::Act(Act::KeyDown(VK_F)),
        Op::Act(Act::KeyUp(VK_Y)),
        Op::Act(Act::KeyUp(VK_F)),
        Op::Act(Act::Sleep(100)),
        Op::Act(Act::KeyDown(VK_Y)),
        Op::Act(Act::KeyDown(VK_F)),
        Op::Act(Act::KeyUp(VK_Y)),
        Op::Act(Act::KeyUp(VK_F)),
        Op::Act(Act::Sleep(100)),
        Op::Act(Act::KeyDown(VK_Y)),
        Op::Act(Act::KeyDown(VK_F)),
        Op::Act(Act::KeyUp(VK_Y)),
        Op::Act(Act::KeyUp(VK_F)),
        Op::Act(Act::Sleep(100)),
        Op::Act(Act::KeyDown(VK_Y)),
        Op::Act(Act::KeyDown(VK_F)),
        Op::Act(Act::KeyUp(VK_Y)),
        Op::Act(Act::KeyUp(VK_F)),
        Op::Act(Act::Sleep(100)),
        Op::Act(Act::KeyDown(VK_Y)),
        Op::Act(Act::KeyDown(VK_N)),
        Op::Act(Act::KeyDown(VK_F)),
        Op::Act(Act::KeyUp(VK_Y)),
        Op::Act(Act::KeyUp(VK_N)),
        Op::Act(Act::KeyUp(VK_F)),
        Op::Act(Act::Sleep(150)),
        Op::Act(Act::Press(VK_ESCAPE)),
        Op::Act(Act::Sleep(500)),
        Op::Call(Script::MenuExit),
        Op::Back(72),
        Op::Finish(true),
    ]
}

pub(crate) proof fn lemma_aerodrome_fail_safe_in_order()
    ensures
        ops_in_order_from(aerodrome_fail_safe_spec(), 0),
{
    reveal_with_fuel(ops_in_order_from, 90);
}

pub(crate) proof fn lemma_aerodrome_fail_safe_leaves_runs()
    ensures
        runs_untouched_from(aerodrome_fail_safe_spec(), 0),
{
    reveal_with_fuel(runs_untouched_from, 90);
}

/// Joins the first client's lobby: clicks the lobby search and, when the
/// join dialogue shows, types the first client's lobby number and confirms.
pub open spec fn aerodrome_join_lobby_spec() -> Seq<Op> {
    seq![
        Op::Act(Act::Cursor(Target::FindLobby)),
        Op::Act(Act::Sleep(50)),
        Op::Act(Act::Click(Target::FindLobby)),
        Op::Act(Act::Sleep(250)),
        Op::Ask(Cond::JoinLobbyDialogue),
        Op::SkipIf(false, 3),
        Op::Act(Act::TypeLobbyNumber),
        Op::Act(Act::Sleep(50)),
        Op::Act(Act::Press(VK_RETURN)),
        Op::Act(Act::Sleep(500)),
        Op::Finish(true),
    ]
}

/// Joins the first client's lobby: clicks the lobby search and, when the
/// join dialogue shows, types the first client's lobby number and confirms.
pub fn aerodrome_join_lobby() -> (p: Vec<Op>)
    ensures
        p@ == aerodrome_join_lobby_spec(),
{
    vec![
        Op::Act(Act::Cursor(Target::FindLobby)),
        Op::Act(Act::Sleep(50)),
        Op::Act(Act::Click(Target::FindLobby)),
        Op::Act(Act::Sleep(250)),
        Op::Ask(Cond::JoinLobbyDialogue),
        Op::SkipIf(false, 3),
        Op::Act(Act::TypeLobbyNumber),
        Op::Act(Act::Sleep(50)),
        Op::Act(Act::Press(VK_RETURN)),
        Op::Act(Act::Sleep(500)),
        Op::Finish(true),
    ]
}

pub(crate) proof fn lemma_aerodrome_join_lobby_in_order()
    ensures
        ops_in_order_from(aerodrome_join_lobby_spec(), 0),
{
    reveal_with_fuel(ops_in_order_from, 12);
}

pub(crate) proof fn lemma_aerodrome_join_lobby_leaves_runs()
    ensures
        runs_untouched_from(aerodrome_join_lobby_spec(), 0),
{
    reveal_with_fuel(runs_untouched_from, 12);
}

/// Takes the portal to the second area: uses it (F) while its icon shows;
/// fails when the icon still shows after 5 seconds.
pub open spec fn aerodrome_move_to_area_two_spec() -> Seq<Op> {
    seq![
        Op::StartTimer(TimerId::First),
        Op::Act(Act::CheckActivity),
        Op::Ask(Cond::PortalIcon),
        Op::SkipIf(false, 4),
        Op::SkipIfElapsed(TimerId::First, 5999, 4),
        Op::Act(Act::Press(VK_F)),
        Op::Act(Act::Sleep(100)),
        Op::Back(6),
        Op::Finish(true),
        Op::Finish(false),
    ]
}

/// Takes the portal to the second area: uses it (F) while its icon shows;
/// fails when the icon still shows after 5 seconds.
pub fn aerodrome_move_to_area_two() -> (p: Vec<Op>)
    ensures
        p@ == aerodrome_move_to_area_two_spec(),
{
    vec![
        Op::StartTimer(TimerId::First),
        Op::Act(Act::CheckActivity),
        Op::Ask(Cond::PortalIcon),
        Op::SkipIf(false, 4),
        Op::SkipIfElapsed(TimerId::First, 5999, 4),
        Op::Act(Act::Press(VK_F)),
        Op::Act(Act::Sleep(100)),
        Op::Back(6),
        Op::Finish(true),
        Op::Finish(false),
    ]
}

pub(crate) proof fn lemma_aerodrome_move_to_area_two_in_order()
    ensures
        ops_in_order_from(aerodrome_move_to_area_two_spec(), 0),
{
    reveal_with_fuel(ops_in_order_from, 11);
}

pub(crate) proof fn lemma_aerodrome_move_to_area_two_leaves_runs()
    ensures
        runs_untouched_from(aerodrome_move_to_area_two_spec(), 0),
{
    reveal_with_fuel(runs_untouched_from, 11);
}

} // verus!
