//! The scripts that the bots share: loading screens, the lobby, the camera.
use vstd::prelude::*;

use super::vm::{Act, Cond, Hotkey, MarkId, Op, Place, Target, TimerId};
use super::{call_failures_end_from, ops_in_order_from, runs_untouched_from, Script};
use crate::keys::{VK_MENU, VK_RETURN, VK_SHIFT, VK_W, VK_Y};

verus! {

/// Waits until a loading screen shows, then until the game is out of it (the
/// lobby counts as out of it).
pub open spec fn wait_loading_screen_spec() -> Seq<Op> {
    seq![
        Op::Ask(Cond::LoadingScreen),
        Op::SkipIf(true, 3),
        Op::Act(Act::CheckActivity),
        Op::Act(Act::Sleep(100)),
        Op::Back(4),
        Op::Ask(Cond::InF8Lobby),
        Op::SkipIf(true, 5),
        Op::Ask(Cond::OutOfLoadingScreen),
        Op::SkipIf(true, 3),
        Op::Act(Act::CheckActivity),
        Op::Act(Act::Sleep(100)),
        Op::Back(6),
        Op::Finish(true),
    ]
}

/// Waits until a loading screen shows, then until the game is out of it (the
/// lobby counts as out of it).
pub fn wait_loading_screen() -> (p: Vec<Op>)
    ensures
        p@ == wait_loading_screen_spec(),
{
    vec![
        Op::Ask(Cond::LoadingScreen),
        Op::SkipIf(true, 3),
        Op::Act(Act::CheckActivity),
        Op::Act(Act::Sleep(100)),
        Op::Back(4),
        Op::Ask(Cond::InF8Lobby),
        Op::SkipIf(true, 5),
        Op::Ask(Cond::OutOfLoadingScreen),
        Op::SkipIf(true, 3),
        Op::Act(Act::CheckActivity),
        Op::Act(Act::Sleep(100)),
        Op::Back(6),
        Op::Finish(true),
    ]
}

pub(crate) proof fn lemma_wait_loading_screen_in_order()
    ensures
        ops_in_order_from(wait_loading_screen_spec(), 0),
{
    reveal_with_fuel(ops_in_order_from, 14);
}

pub(crate) proof fn lemma_wait_loading_screen_leaves_runs()
    ensures
        runs_untouched_from(wait_loading_screen_spec(), 0),
{
    reveal_with_fuel(runs_untouched_from, 14);
}

/// Sprints forward into the dungeon entrance until the loading screen shows;
/// fails after 15 seconds.
pub open spec fn run_into_dungeon_spec() -> Seq<Op> {
    seq![
        Op::Act(Act::KeyDown(VK_W)),
        Op::Act(Act::KeyDown(VK_SHIFT)),
        Op::Act(Act::KeyUp(VK_SHIFT)),
        Op::StartTimer(TimerId::First),
        Op::Act(Act::CheckActivity),
        Op::Ask(Cond::LoadingScreen),
        Op::SkipIf(true, 5),
        Op::SkipIfElapsed(TimerId::First, 15999, 2),
        Op::Act(Act::Sleep(100)),
        Op::Back(5),
        Op::Act(Act::KeyUp(VK_W)),
        Op::Finish(false),
        Op::Act(Act::KeyUp(VK_W)),
        Op::Finish(true),
    ]
}

/// Sprints forward into the dungeon entrance until the loading screen shows;
/// fails after 15 seconds.
pub fn run_into_dungeon() -> (p: Vec<Op>)
    ensures
        p@ == run_into_dungeon_spec(),
{
    vec![
        Op::Act(Act::KeyDown(VK_W)),
        Op::Act(Act::KeyDown(VK_SHIFT)),
        Op::Act(Act::KeyUp(VK_SHIFT)),
        Op::StartTimer(TimerId::First),
        Op::Act(Act::CheckActivity),
        Op::Ask(Cond::LoadingScreen),
        Op::SkipIf(true, 5),
        Op::SkipIfElapsed(TimerId::First, 15999, 2),
        Op::Act(Act::Sleep(100)),
        Op::Back(5),
        Op::Act(Act::KeyUp(VK_W)),
        Op::Finish(false),
        Op::Act(Act::KeyUp(VK_W)),
        Op::Finish(true),
    ]
}

pub(crate) proof fn lemma_run_into_dungeon_in_order()
    ensures
        ops_in_order_from(run_into_dungeon_spec(), 0),
{
    reveal_with_fuel(ops_in_order_from, 15);
}

pub(crate) proof fn lemma_run_into_dungeon_leaves_runs()
    ensures
        runs_untouched_from(run_into_dungeon_spec(), 0),
{
    reveal_with_fuel(runs_untouched_from, 15);
}

/// Clicks five times into the chat of the lobby.
pub open spec fn open_chat_spec() -> Seq<Op> {
    seq![
        Op::Act(Act::Cursor(Target::Chat)),
        Op::Act(Act::Sleep(20)),
        Op::Act(Act::Click(Target::Chat)),
        Op::Act(Act::Sleep(20)),
        Op::Act(Act::Cursor(Target::Chat)),
        Op::Act(Act::Sleep(20)),
        Op::Act(Act::Click(Target::Chat)),
        Op::Act(Act::Sleep(20)),
        Op::Act(Act::Cursor(Target::Chat)),
        Op::Act(Act::Sleep(20)),
        Op::Act(Act::Click(Target::Chat)),
        Op::Act(Act::Sleep(20)),
        Op::Act(Act::Cursor(Target::Chat)),
        Op::Act(Act::Sleep(20)),
        Op::Act(Act::Click(Target::Chat)),
        Op::Act(Act::Sleep(20)),
        Op::Act(Act::Cursor(Target::Chat)),
        Op::Act(Act::Sleep(20)),
        Op::Act(Act::Click(Target::Chat)),
        Op::Act(Act::Sleep(20)),
        Op::Finish(true),
    ]
}

/// Clicks five times into the chat of the lobby.
pub fn open_chat() -> (p: Vec<Op>)
    ensures
        p@ == open_chat_spec(),
{
    vec![
        Op::Act(Act::Cursor(Target::Chat)),
        Op::Act(Act::Sleep(20)),
        Op::Act(Act::Click(Target::Chat)),
        Op::Act(Act::Sleep(20)),
        Op::Act(Act::Cursor(Target::Chat)),
        Op::Act(Act::Sleep(20)),
        Op::Act(Act::Click(Target::Chat)),
        Op::Act(Act::Sleep(20)),
        Op::Act(Act::Cursor(Target::Chat)),
        Op::Act(Act::Sleep(20)),
        Op::Act(Act::Click(Target::Chat)),
        Op::Act(Act::Sleep(20)),
        Op::Act(Act::Cursor(Target::Chat)),
        Op::Act(Act::Sleep(20)),
        Op::Act(Act::Click(Target::Chat)),
        Op::Act(Act::Sleep(20)),
        Op::Act(Act::Cursor(Target::Chat)),
        Op::Act(Act::Sleep(20)),
        Op::Act(Act::Click(Target::Chat)),
        Op::Act(Act::Sleep(20)),
        Op::Finish(true),
    ]
}

pub(crate) proof fn lemma_open_chat_in_order()
    ensures
        ops_in_order_from(open_chat_spec(), 0),
{
    reveal_with_fuel(ops_in_order_from, 22);
}

pub(crate) proof fn lemma_open_chat_leaves_runs()
    ensures
        runs_untouched_from(open_chat_spec(), 0),
{
    reveal_with_fuel(runs_untouched_from, 22);
}

/// Accepts the lobby invite while it shows (clicking the corner of the screen
/// first, out of the chat), then the party join requests.
pub open spec fn accept_lobby_invite_spec() -> Seq<Op> {
    seq![
        Op::Ask(Cond::HasInvite),
        Op::SkipIf(false, 25),
        Op::SetMark(MarkId::First, true),
        Op::Act(Act::CheckActivity),
        Op::Act(Act::Cursor(Target::Origin)),
        Op::Act(Act::Sleep(20)),
        Op::Act(Act::Click(Target::Origin)),
        Op::Act(Act::Sleep(20)),
        Op::Act(Act::Cursor(Target::Origin)),
        Op::Act(Act::Sleep(20)),
        Op::Act(Act::Click(Target::Origin)),
        Op::Act(Act::Sleep(20)),
        Op::Act(Act::Cursor(Target::Origin)),
        Op::Act(Act::Sleep(20)),
        Op::Act(Act::Click(Target::Origin)),
        Op::Act(Act::Sleep(20)),
        Op::Act(Act::Cursor(Target::Origin)),
        Op::Act(Act::Sleep(20)),
        Op::Act(Act::Click(Target::Origin)),
        Op::Act(Act::Sleep(20)),
        Op::Act(Act::Cursor(Target::Origin)),
        Op::Act(Act::Sleep(20)),
        Op::Act(Act::Click(Target::Origin)),
        Op::Act(Act::Sleep(20)),
        Op::Act(Act::Press(VK_Y)),
        Op::Act(Act::Sleep(20)),
        Op::Back(26),
        Op::SkipIfMark(MarkId::First, false, 1),
        Op::Act(Act::Sleep(250)),
        Op::Act(Act::CheckActivity),
        Op::Ask(Cond::HasPartyJoinRequest),
        Op::SkipIf(false, 3),
        Op::Act(Act::Press(VK_Y)),
        Op::Act(Act::Sleep(20)),
        Op::Back(5),
        Op::Finish(true),
    ]
}

/// Accepts the lobby invite while it shows (clicking the corner of the screen
/// first, out of the chat), then the party join requests.
pub fn accept_lobby_invite() -> (p: Vec<Op>)
    ensures
        p@ == accept_lobby_invite_spec(),
{
    vec![
        Op::Ask(Cond::HasInvite),
        Op::SkipIf(false, 25),
        Op::SetMark(MarkId::First, true),
        Op::Act(Act::CheckActivity),
        Op::Act(Act::Cursor(Target::Origin)),
        Op::Act(Act::Sleep(20)),
        Op::Act(Act::Click(Target::Origin)),
        Op::Act(Act::Sleep(20)),
        Op::Act(Act::Cursor(Target::Origin)),
        Op::Act(Act::Sleep(20)),
        Op::Act(Act::Click(Target::Origin)),
        Op::Act(Act::Sleep(20)),
        Op::Act(Act::Cursor(Target::Origin)),
        Op::Act(Act::Sleep(20)),
        Op::Act(Act::Click(Target::Origin)),
        Op::Act(Act::Sleep(20)),
        Op::Act(Act::Cursor(Target::Origin)),
        Op::Act(Act::Sleep(20)),
        Op::Act(Act::Click(Target::Origin)),
        Op::Act(Act::Sleep(20)),
        Op::Act(Act::Cursor(Target::Origin)),
        Op::Act(Act::Sleep(20)),
        Op::Act(Act::Click(Target::Origin)),
        Op::Act(Act::Sleep(20)),
        Op::Act(Act::Press(VK_Y)),
        Op::Act(Act::Sleep(20)),
        Op::Back(26),
        Op::SkipIfMark(MarkId::First, false, 1),
        Op::Act(Act::Sleep(250)),
        Op::Act(Act::CheckActivity),
        Op::Ask(Cond::HasPartyJoinRequest),
        Op::SkipIf(false, 3),
        Op::Act(Act::Press(VK_Y)),
        Op::Act(Act::Sleep(20)),
        Op::Back(5),
        Op::Finish(true),
    ]
}

pub(crate) proof fn lemma_accept_lobby_invite_in_order()
    ensures
        ops_in_order_from(accept_lobby_invite_spec(), 0),
{
    reveal_with_fuel(ops_in_order_from, 37);
}

pub(crate) proof fn lemma_accept_lobby_invite_leaves_runs()
    ensures
        runs_untouched_from(accept_lobby_invite_spec(), 0),
{
    reveal_with_fuel(runs_untouched_from, 37);
}

/// Clicks the ready button until the player is ready, for at most 3 seconds.
pub open spec fn ready_up_spec() -> Seq<Op> {
    seq![
        Op::StartTimer(TimerId::First),
        Op::Ask(Cond::PlayerReady),
        Op::SkipIf(true, 6),
        Op::Act(Act::CheckActivity),
        Op::SkipIfElapsed(TimerId::First, 3999, 4),
        Op::Act(Act::Cursor(Target::Ready)),
        Op::Act(Act::Sleep(50)),
        Op::Act(Act::Click(Target::Ready)),
        Op::Back(7),
        Op::Finish(true),
    ]
}

/// Clicks the ready button until the player is ready, for at most 3 seconds.
pub fn ready_up() -> (p: Vec<Op>)
    ensures
        p@ == ready_up_spec(),
{
    vec![
        Op::StartTimer(TimerId::First),
        Op::Ask(Cond::PlayerReady),
        Op::SkipIf(true, 6),
        Op::Act(Act::CheckActivity),
        Op::SkipIfElapsed(TimerId::First, 3999, 4),
        Op::Act(Act::Cursor(Target::Ready)),
        Op::Act(Act::Sleep(50)),
        Op::Act(Act::Click(Target::Ready)),
        Op::Back(7),
        Op::Finish(true),
    ]
}

pub(crate) proof fn lemma_ready_up_in_order()
    ensures
        ops_in_order_from(ready_up_spec(), 0),
{
    reveal_with_fuel(ops_in_order_from, 11);
}

pub(crate) proof fn lemma_ready_up_leaves_runs()
    ensures
        runs_untouched_from(ready_up_spec(), 0),
{
    reveal_with_fuel(runs_untouched_from, 11);
}

/// Clicks the dungeon until it is selected.
pub open spec fn select_dungeon_spec() -> Seq<Op> {
    seq![
        Op::Ask(Cond::DungeonSelected),
        Op::SkipIf(true, 5),
        Op::Act(Act::CheckActivity),
        Op::Act(Act::Cursor(Target::Dungeon)),
        Op::Act(Act::Sleep(50)),
        Op::Act(Act::Click(Target::Dungeon)),
        Op::Back(6),
        Op::Finish(true),
    ]
}

/// Clicks the dungeon until it is selected.
pub fn select_dungeon() -> (p: Vec<Op>)
    ensures
        p@ == select_dungeon_spec(),
{
    vec![
        Op::Ask(Cond::DungeonSelected),
        Op::SkipIf(true, 5),
        Op::Act(Act::CheckActivity),
        Op::Act(Act::Cursor(Target::Dungeon)),
        Op::Act(Act::Sleep(50)),
        Op::Act(Act::Click(Target::Dungeon)),
        Op::Back(6),
        Op::Finish(true),
    ]
}

pub(crate) proof fn lemma_select_dungeon_in_order()
    ensures
        ops_in_order_from(select_dungeon_spec(), 0),
{
    reveal_with_fuel(ops_in_order_from, 9);
}

pub(crate) proof fn lemma_select_dungeon_leaves_runs()
    ensures
        runs_untouched_from(select_dungeon_spec(), 0),
{
    reveal_with_fuel(runs_untouched_from, 9);
}

/// Drags the stage selection to the left until a stage is selected, then
/// types the configured stage.
pub open spec fn select_stage_spec() -> Seq<Op> {
    seq![
        Op::Act(Act::CheckActivity),
        Op::Ask(Cond::StageSelected),
        Op::SkipIf(true, 9),
        Op::Act(Act::Cursor(Target::StageRight)),
        Op::Act(Act::Sleep(10)),
        Op::Act(Act::MouseDown),
        Op::Act(Act::Sleep(10)),
        Op::Act(Act::MouseLeft(400)),
        Op::Act(Act::Sleep(10)),
        Op::Act(Act::MouseUp),
        Op::Act(Act::Sleep(10)),
        Op::Back(11),
        Op::Act(Act::Sleep(10)),
        Op::Act(Act::TypeStage),
        Op::Act(Act::Sleep(10)),
        Op::Finish(true),
    ]
}

/// Drags the stage selection to the left until a stage is selected, then
/// types the configured stage.
pub fn select_stage() -> (p: Vec<Op>)
    ensures
        p@ == select_stage_spec(),
{
    vec![
        Op::Act(Act::CheckActivity),
        Op::Ask(Cond::StageSelected),
        Op::SkipIf(true, 9),
        Op::Act(Act::Cursor(Target::StageRight)),
        Op::Act(Act::Sleep(10)),
        Op::Act(Act::MouseDown),
        Op::Act(Act::Sleep(10)),
        Op::Act(Act::MouseLeft(400)),
        Op::Act(Act::Sleep(10)),
        Op::Act(Act::MouseUp),
        Op::Act(Act::Sleep(10)),
        Op::Back(11),
        Op::Act(Act::Sleep(10)),
        Op::Act(Act::TypeStage),
        Op::Act(Act::Sleep(10)),
        Op::Finish(true),
    ]
}

pub(crate) proof fn lemma_select_stage_in_order()
    ensures
        ops_in_order_from(select_stage_spec(), 0),
{
    reveal_with_fuel(ops_in_order_from, 17);
}

pub(crate) proof fn lemma_select_stage_leaves_runs()
    ensures
        runs_untouched_from(select_stage_spec(), 0),
{
    reveal_with_fuel(runs_untouched_from, 17);
}

/// Clicks the enter button while it is there.
pub open spec fn enter_dungeon_spec() -> Seq<Op> {
    seq![
        Op::Act(Act::CheckActivity),
        Op::Ask(Cond::EnterAvailable),
        Op::SkipIf(false, 4),
        Op::Act(Act::Cursor(Target::Enter)),
        Op::Act(Act::Sleep(50)),
        Op::Act(Act::Click(Target::Enter)),
        Op::Back(6),
        Op::Finish(true),
    ]
}

/// Clicks the enter button while it is there.
pub fn enter_dungeon() -> (p: Vec<Op>)
    ensures
        p@ == enter_dungeon_spec(),
{
    vec![
        Op::Act(Act::CheckActivity),
        Op::Ask(Cond::EnterAvailable),
        Op::SkipIf(false, 4),
        Op::Act(Act::Cursor(Target::Enter)),
        Op::Act(Act::Sleep(50)),
        Op::Act(Act::Click(Target::Enter)),
        Op::Back(6),
        Op::Finish(true),
    ]
}

pub(crate) proof fn lemma_enter_dungeon_in_order()
    ensures
        ops_in_order_from(enter_dungeon_spec(), 0),
{
    reveal_with_fuel(ops_in_order_from, 9);
}

pub(crate) proof fn lemma_enter_dungeon_leaves_runs()
    ensures
        runs_untouched_from(enter_dungeon_spec(), 0),
{
    reveal_with_fuel(runs_untouched_from, 9);
}

/// Presses the speed hack hotkey ten times, 150 ms apart.
pub open spec fn cheat_engine_on_spec() -> Seq<Op> {
    seq![
        Op::Act(Act::Hotkey(Hotkey::CheatEngineSpeedHackOn)),
        Op::Act(Act::Sleep(150)),
        Op::Act(Act::Hotkey(Hotkey::CheatEngineSpeedHackOn)),
        Op::Act(Act::Sleep(150)),
        Op::Act(Act::Hotkey(Hotkey::CheatEngineSpeedHackOn)),
        Op::Act(Act::Sleep(150)),
        Op::Act(Act::Hotkey(Hotkey::CheatEngineSpeedHackOn)),
        Op::Act(Act::Sleep(150)),
        Op::Act(Act::Hotkey(Hotkey::CheatEngineSpeedHackOn)),
        Op::Act(Act::Sleep(150)),
        Op::Act(Act::Hotkey(Hotkey::CheatEngineSpeedHackOn)),
        Op::Act(Act::Sleep(150)),
        Op::Act(Act::Hotkey(Hotkey::CheatEngineSpeedHackOn)),
        Op::Act(Act::Sleep(150)),
        Op::Act(Act::Hotkey(Hotkey::CheatEngineSpeedHackOn)),
        Op::Act(Act::Sleep(150)),
        Op::Act(Act::Hotkey(Hotkey::CheatEngineSpeedHackOn)),
        Op::Act(Act::Sleep(150)),
        Op::Act(Act::Hotkey(Hotkey::CheatEngineSpeedHackOn)),
        Op::Act(Act::Sleep(150)),
        Op::Finish(true),
    ]
}

/// Presses the speed hack hotkey ten times, 150 ms apart.
pub fn cheat_engine_on() -> (p: Vec<Op>)
    ensures
        p@ == cheat_engine_on_spec(),
{
    vec![
        Op::Act(Act::Hotkey(Hotkey::CheatEngineSpeedHackOn)),
        Op::Act(Act::Sleep(150)),
        Op::Act(Act::Hotkey(Hotkey::CheatEngineSpeedHackOn)),
        Op::Act(Act::Sleep(150)),
        Op::Act(Act::Hotkey(Hotkey::CheatEngineSpeedHackOn)),
        Op::Act(Act::Sleep(150)),
        Op::Act(Act::Hotkey(Hotkey::CheatEngineSpeedHackOn)),
        Op::Act(Act::Sleep(150)),
        Op::Act(Act::Hotkey(Hotkey::CheatEngineSpeedHackOn)),
        Op::Act(Act::Sleep(150)),
        Op::Act(Act::Hotkey(Hotkey::CheatEngineSpeedHackOn)),
        Op::Act(Act::Sleep(150)),
        Op::Act(Act::Hotkey(Hotkey::CheatEngineSpeedHackOn)),
        Op::Act(Act::Sleep(150)),
        Op::Act(Act::Hotkey(Hotkey::CheatEngineSpeedHackOn)),
        Op::Act(Act::Sleep(150)),
        Op::Act(Act::Hotkey(Hotkey::CheatEngineSpeedHackOn)),
        Op::Act(Act::Sleep(150)),
        Op::Act(Act::Hotkey(Hotkey::CheatEngineSpeedHackOn)),
        Op::Act(Act::Sleep(150)),
        Op::Finish(true),
    ]
}

pub(crate) proof fn lemma_cheat_engine_on_in_order()
    ensures
        ops_in_order_from(cheat_engine_on_spec(), 0),
{
    reveal_with_fuel(ops_in_order_from, 22);
}

pub(crate) proof fn lemma_cheat_engine_on_leaves_runs()
    ensures
        runs_untouched_from(cheat_engine_on_spec(), 0),
{
    reveal_with_fuel(runs_untouched_from, 22);
}

/// Presses the hotkey that ends the speed hack fifteen times, 50 ms apart.
pub open spec fn cheat_engine_off_spec() -> Seq<Op> {
    seq![
        Op::Act(Act::Hotkey(Hotkey::CheatEngineSpeedHackOff)),
        Op::Act(Act::Sleep(50)),
        Op::Act(Act::Hotkey(Hotkey::CheatEngineSpeedHackOff)),
        Op::Act(Act::Sleep(50)),
        Op::Act(Act::Hotkey(Hotkey::CheatEngineSpeedHackOff)),
        Op::Act(Act::Sleep(50)),
        Op::Act(Act::Hotkey(Hotkey::CheatEngineSpeedHackOff)),
        Op::Act(Act::Sleep(50)),
        Op::Act(Act::Hotkey(Hotkey::CheatEngineSpeedHackOff)),
        Op::Act(Act::Sleep(50)),
        Op::Act(Act::Hotkey(Hotkey::CheatEngineSpeedHackOff)),
        Op::Act(Act::Sleep(50)),
        Op::Act(Act::Hotkey(Hotkey::CheatEngineSpeedHackOff)),
        Op::Act(Act::Sleep(50)),
        Op::Act(Act::Hotkey(Hotkey::CheatEngineSpeedHackOff)),
        Op::Act(Act::Sleep(50)),
        Op::Act(Act::Hotkey(Hotkey::CheatEngineSpeedHackOff)),
        Op::Act(Act::Sleep(50)),
        Op::Act(Act::Hotkey(Hotkey::CheatEngineSpeedHackOff)),
        Op::Act(Act::Sleep(50)),
        Op::Act(Act::Hotkey(Hotkey::CheatEngineSpeedHackOff)),
        Op::Act(Act::Sleep(50)),
        Op::Act(Act::Hotkey(Hotkey::CheatEngineSpeedHackOff)),
        Op::Act(Act::Sleep(50)),
        Op::Act(Act::Hotkey(Hotkey::CheatEngineSpeedHackOff)),
        Op::Act(Act::Sleep(50)),
        Op::Act(Act::Hotkey(Hotkey::CheatEngineSpeedHackOff)),
        Op::Act(Act::Sleep(50)),
        Op::Act(Act::Hotkey(Hotkey::CheatEngineSpeedHackOff)),
        Op::Act(Act::Sleep(50)),
        Op::Finish(true),
    ]
}

/// Presses the hotkey that ends the speed hack fifteen times, 50 ms apart.
pub fn cheat_engine_off() -> (p: Vec<Op>)
    ensures
        p@ == cheat_engine_off_spec(),
{
    vec![
        Op::Act(Act::Hotkey(Hotkey::CheatEngineSpeedHackOff)),
        Op::Act(Act::Sleep(50)),
        Op::Act(Act::Hotkey(Hotkey::CheatEngineSpeedHackOff)),
        Op::Act(Act::Sleep(50)),
        Op::Act(Act::Hotkey(Hotkey::CheatEngineSpeedHackOff)),
        Op::Act(Act::Sleep(50)),
        Op::Act(Act::Hotkey(Hotkey::CheatEngineSpeedHackOff)),
        Op::Act(Act::Sleep(50)),
        Op::Act(Act::Hotkey(Hotkey::CheatEngineSpeedHackOff)),
        Op::Act(Act::Sleep(50)),
        Op::Act(Act::Hotkey(Hotkey::CheatEngineSpeedHackOff)),
        Op::Act(Act::Sleep(50)),
        Op::Act(Act::Hotkey(Hotkey::CheatEngineSpeedHackOff)),
        Op::Act(Act::Sleep(50)),
        Op::Act(Act::Hotkey(Hotkey::CheatEngineSpeedHackOff)),
        Op::Act(Act::Sleep(50)),
        Op::Act(Act::Hotkey(Hotkey::CheatEngineSpeedHackOff)),
        Op::Act(Act::Sleep(50)),
        Op::Act(Act::Hotkey(Hotkey::CheatEngineSpeedHackOff)),
        Op::Act(Act::Sleep(50)),
        Op::Act(Act::Hotkey(Hotkey::CheatEngineSpeedHackOff)),
        Op::Act(Act::Sleep(50)),
        Op::Act(Act::Hotkey(Hotkey::CheatEngineSpeedHackOff)),
        Op::Act(Act::Sleep(50)),
        Op::Act(Act::Hotkey(Hotkey::CheatEngineSpeedHackOff)),
        Op::Act(Act::Sleep(50)),
        Op::Act(Act::Hotkey(Hotkey::CheatEngineSpeedHackOff)),
        Op::Act(Act::Sleep(50)),
        Op::Act(Act::Hotkey(Hotkey::CheatEngineSpeedHackOff)),
        Op::Act(Act::Sleep(50)),
        Op::Finish(true),
    ]
}

pub(crate) proof fn lemma_cheat_engine_off_in_order()
    ensures
        ops_in_order_from(cheat_engine_off_spec(), 0),
{
    reveal_with_fuel(ops_in_order_from, 32);
}

pub(crate) proof fn lemma_cheat_engine_off_leaves_runs()
    ensures
        runs_untouched_from(cheat_engine_off_spec(), 0),
{
    reveal_with_fuel(runs_untouched_from, 32);
}

/// Toggles auto combat on every other client, then on the first client,
/// whose window stays in front.
pub open spec fn activate_auto_combat_spec() -> Seq<Op> {
    seq![
        Op::ResetCount,
        Op::NextClient(false),
        Op::SkipIf(false, 2),
        Op::Act(Act::Hotkey(Hotkey::ToggleAutoCombat)),
        Op::Back(3),
        Op::Act(Act::SwitchToStart),
        Op::Act(Act::Hotkey(Hotkey::ToggleAutoCombat)),
        Op::Finish(true),
    ]
}

/// Toggles auto combat on every other client, then on the first client,
/// whose window stays in front.
pub fn activate_auto_combat() -> (p: Vec<Op>)
    ensures
        p@ == activate_auto_combat_spec(),
{
    vec![
        Op::ResetCount,
        Op::NextClient(false),
        Op::SkipIf(false, 2),
        Op::Act(Act::Hotkey(Hotkey::ToggleAutoCombat)),
        Op::Back(3),
        Op::Act(Act::SwitchToStart),
        Op::Act(Act::Hotkey(Hotkey::ToggleAutoCombat)),
        Op::Finish(true),
    ]
}

pub(crate) proof fn lemma_activate_auto_combat_in_order()
    ensures
        ops_in_order_from(activate_auto_combat_spec(), 0),
{
    reveal_with_fuel(ops_in_order_from, 9);
}

pub(crate) proof fn lemma_activate_auto_combat_leaves_runs()
    ensures
        runs_untouched_from(activate_auto_combat_spec(), 0),
{
    reveal_with_fuel(runs_untouched_from, 9);
}

/// Toggles the map transparency until the map is opaque; fails after 3 seconds.
pub open spec fn click_map_opaque_spec() -> Seq<Op> {
    seq![
        Op::StartTimer(TimerId::First),
        Op::Act(Act::CheckActivity),
        Op::SkipIfElapsed(TimerId::First, 3000, 6),
        Op::Ask(Cond::MapNotTransparent),
        Op::SkipIf(true, 3),
        Op::Act(Act::Hotkey(Hotkey::MapTransparencyToggle)),
        Op::Act(Act::Sleep(20)),
        Op::Back(6),
        Op::Finish(true),
        Op::Finish(false),
    ]
}

/// Toggles the map transparency until the map is opaque; fails after 3 seconds.
pub fn click_map_opaque() -> (p: Vec<Op>)
    ensures
        p@ == click_map_opaque_spec(),
{
    vec![
        Op::StartTimer(TimerId::First),
        Op::Act(Act::CheckActivity),
        Op::SkipIfElapsed(TimerId::First, 3000, 6),
        Op::Ask(Cond::MapNotTransparent),
        Op::SkipIf(true, 3),
        Op::Act(Act::Hotkey(Hotkey::MapTransparencyToggle)),
        Op::Act(Act::Sleep(20)),
        Op::Back(6),
        Op::Finish(true),
        Op::Finish(false),
    ]
}

pub(crate) proof fn lemma_click_map_opaque_in_order()
    ensures
        ops_in_order_from(click_map_opaque_spec(), 0),
{
    reveal_with_fuel(ops_in_order_from, 11);
}

pub(crate) proof fn lemma_click_map_opaque_leaves_runs()
    ensures
        runs_untouched_from(click_map_opaque_spec(), 0),
{
    reveal_with_fuel(runs_untouched_from, 11);
}

/// Alt-clicks the map's tracking button until the map tracks the player;
/// fails after 3 seconds.
pub open spec fn click_tracking_map_spec() -> Seq<Op> {
    seq![
        Op::StartTimer(TimerId::First),
        Op::Act(Act::CheckActivity),
        Op::SkipIfElapsed(TimerId::First, 3000, 10),
        Op::Ask(Cond::TrackingMap),
        Op::SkipIf(true, 7),
        Op::Act(Act::KeyDown(VK_MENU)),
        Op::Act(Act::Cursor(Target::TrackingMap)),
        Op::Act(Act::Sleep(20)),
        Op::Act(Act::Click(Target::TrackingMap)),
        Op::Act(Act::Sleep(20)),
        Op::Act(Act::KeyUp(VK_MENU)),
        Op::Back(10),
        Op::Finish(true),
        Op::Finish(false),
    ]
}

/// Alt-clicks the map's tracking button until the map tracks the player;
/// fails after 3 seconds.
pub fn click_tracking_map() -> (p: Vec<Op>)
    ensures
        p@ == click_tracking_map_spec(),
{
    vec![
        Op::StartTimer(TimerId::First),
        Op::Act(Act::CheckActivity),
        Op::SkipIfElapsed(TimerId::First, 3000, 10),
        Op::Ask(Cond::TrackingMap),
        Op::SkipIf(true, 7),
        Op::Act(Act::KeyDown(VK_MENU)),
        Op::Act(Act::Cursor(Target::TrackingMap)),
        Op::Act(Act::Sleep(20)),
        Op::Act(Act::Click(Target::TrackingMap)),
        Op::Act(Act::Sleep(20)),
        Op::Act(Act::KeyUp(VK_MENU)),
        Op::Back(10),
        Op::Finish(true),
        Op::Finish(false),
    ]
}

pub(crate) proof fn lemma_click_tracking_map_in_order()
    ensures
        ops_in_order_from(click_tracking_map_spec(), 0),
{
    reveal_with_fuel(ops_in_order_from, 15);
}

pub(crate) proof fn lemma_click_tracking_map_leaves_runs()
    ensures
        runs_untouched_from(click_tracking_map_spec(), 0),
{
    reveal_with_fuel(runs_untouched_from, 15);
}

/// Makes the map opaque, zooms the dungeon map out (the lobby's map does not
/// zoom), and has it track the player.
pub open spec fn reset_map_spec() -> Seq<Op> {
    seq![
        Op::Call(Script::ClickMapOpaque),
        Op::SkipIf(false, 59),
        Op::Ask(Cond::CrossServerLobbyMap),
        Op::SkipIf(true, 54),
        Op::Act(Act::KeyDown(VK_MENU)),
        Op::Act(Act::Cursor(Target::OverMap)),
        Op::Act(Act::Sleep(20)),
        Op::Act(Act::ScrollOut),
        Op::Act(Act::Sleep(20)),
        Op::Act(Act::KeyUp(VK_MENU)),
        Op::Act(Act::KeyDown(VK_MENU)),
        Op::Act(Act::Cursor(Target::OverMap)),
        Op::Act(Act::Sleep(20)),
        Op::Act(Act::ScrollOut),
        Op::Act(Act::Sleep(20)),
        Op::Act(Act::KeyUp(VK_MENU)),
        Op::Act(Act::KeyDown(VK_MENU)),
        Op::Act(Act::Cursor(Target::OverMap)),
        Op::Act(Act::Sleep(20)),
        Op::Act(Act::ScrollOut),
        Op::Act(Act::Sleep(20)),
        Op::Act(Act::KeyUp(VK_MENU)),
        Op::Act(Act::KeyDown(VK_MENU)),
        Op::Act(Act::Cursor(Target::OverMap)),
        Op::Act(Act::Sleep(20)),
        Op::Act(Act::ScrollOut),
        Op::Act(Act::Sleep(20)),
        Op::Act(Act::KeyUp(VK_MENU)),
        Op::Act(Act::KeyDown(VK_MENU)),
        Op::Act(Act::Cursor(Target::OverMap)),
        Op::Act(Act::Sleep(20)),
        Op::Act(Act::ScrollOut),
        Op::Act(Act::Sleep(20)),
        Op::Act(Act::KeyUp(VK_MENU)),
        Op::Act(Act::KeyDown(VK_MENU)),
        Op::Act(Act::Cursor(Target::OverMap)),
        Op::Act(Act::Sleep(20)),
        Op::Act(Act::ScrollOut),
        Op::Act(Act::Sleep(20)),
        Op::Act(Act::KeyUp(VK_MENU)),
        Op::Act(Act::KeyDown(VK_MENU)),
        Op::Act(Act::Cursor(Target::OverMap)),
        Op::Act(Act::Sleep(20)),
        Op::Act(Act::ScrollOut),
        Op::Act(Act::Sleep(20)),
        Op::Act(Act::KeyUp(VK_MENU)),
        Op::Act(Act::KeyDown(VK_MENU)),
        Op::Act(Act::Cursor(Target::OverMap)),
        Op::Act(Act::Sleep(20)),
        Op::Act(Act::ScrollOut),
        Op::Act(Act::Sleep(20)),
        Op::Act(Act::KeyUp(VK_MENU)),
        Op::Act(Act::KeyDown(VK_MENU)),
        Op::Act(Act::Cursor(Target::OverMap)),
        Op::Act(Act::Sleep(20)),
        Op::Act(Act::ScrollOut),
        Op::Act(Act::Sleep(20)),
        Op::Act(Act::KeyUp(VK_MENU)),
        Op::Call(Script::ClickTrackingMap),
        Op::SkipIf(false, 1),
        Op::Finish(true),
        Op::Finish(false),
    ]
}

/// Makes the map opaque, zooms the dungeon map out (the lobby's map does not
/// zoom), and has it track the player.
pub fn reset_map() -> (p: Vec<Op>)
    ensures
        p@ == reset_map_spec(),
{
    vec![
        Op::Call(Script::ClickMapOpaque),
        Op::SkipIf(false, 59),
        Op::Ask(Cond::CrossServerLobbyMap),
        Op::SkipIf(true, 54),
        Op::Act(Act::KeyDown(VK_MENU)),
        Op::Act(Act::Cursor(Target::OverMap)),
        Op::Act(Act::Sleep(20)),
        Op::Act(Act::ScrollOut),
        Op::Act(Act::Sleep(20)),
        Op::Act(Act::KeyUp(VK_MENU)),
        Op::Act(Act::KeyDown(VK_MENU)),
        Op::Act(Act::Cursor(Target::OverMap)),
        Op::Act(Act::Sleep(20)),
        Op::Act(Act::ScrollOut),
        Op::Act(Act::Sleep(20)),
        Op::Act(Act::KeyUp(VK_MENU)),
        Op::Act(Act::KeyDown(VK_MENU)),
        Op::Act(Act::Cursor(Target::OverMap)),
        Op::Act(Act::Sleep(20)),
        Op::Act(Act::ScrollOut),
        Op::Act(Act::Sleep(20)),
        Op::Act(Act::KeyUp(VK_MENU)),
        Op::Act(Act::KeyDown(VK_MENU)),
        Op::Act(Act::Cursor(Target::OverMap)),
        Op::Act(Act::Sleep(20)),
        Op::Act(Act::ScrollOut),
        Op::Act(Act::Sleep(20)),
        Op::Act(Act::KeyUp(VK_MENU)),
        Op::Act(Act::KeyDown(VK_MENU)),
        Op::Act(Act::Cursor(Target::OverMap)),
        Op::Act(Act::Sleep(20)),
        Op::Act(Act::ScrollOut),
        Op::Act(Act::Sleep(20)),
        Op::Act(Act::KeyUp(VK_MENU)),
        Op::Act(Act::KeyDown(VK_MENU)),
        Op::Act(Act::Cursor(Target::OverMap)),
        Op::Act(Act::Sleep(20)),
        Op::Act(Act::ScrollOut),
        Op::Act(Act::Sleep(20)),
        Op::Act(Act::KeyUp(VK_MENU)),
        Op::Act(Act::KeyDown(VK_MENU)),
        Op::Act(Act::Cursor(Target::OverMap)),
        Op::Act(Act::Sleep(20)),
        Op::Act(Act::ScrollOut),
        Op::Act(Act::Sleep(20)),
        Op::Act(Act::KeyUp(VK_MENU)),
        Op::Act(Act::KeyDown(VK_MENU)),
        Op::Act(Act::Cursor(Target::OverMap)),
        Op::Act(Act::Sleep(20)),
        Op::Act(Act::ScrollOut),
        Op::Act(Act::Sleep(20)),
        Op::Act(Act::KeyUp(VK_MENU)),
        Op::Act(Act::KeyDown(VK_MENU)),
        Op::Act(Act::Cursor(Target::OverMap)),
        Op::Act(Act::Sleep(20)),
        Op::Act(Act::ScrollOut),
        Op::Act(Act::Sleep(20)),
        Op::Act(Act::KeyUp(VK_MENU)),
        Op::Call(Script::ClickTrackingMap),
        Op::SkipIf(false, 1),
        Op::Finish(true),
        Op::Finish(false),
    ]
}

pub(crate) proof fn lemma_reset_map_in_order()
    ensures
        ops_in_order_from(reset_map_spec(), 0),
{
    reveal_with_fuel(ops_in_order_from, 63);
}

pub(crate) proof fn lemma_reset_map_fails_with_its_calls()
    ensures
        call_failures_end_from(reset_map_spec(), 0),
{
    reveal_with_fuel(call_failures_end_from, 63);
}

pub(crate) proof fn lemma_reset_map_leaves_runs()
    ensures
        runs_untouched_from(reset_map_spec(), 0),
{
    reveal_with_fuel(runs_untouched_from, 63);
}

/// Resets the map, then turns the camera to 0 degrees with its hotkey until
/// the map shows it; fails after 3 seconds.
pub open spec fn reset_camera_spec() -> Seq<Op> {
    seq![
        Op::Call(Script::ResetMap),
        Op::SkipIf(false, 11),
        Op::StartTimer(TimerId::First),
        Op::Act(Act::CheckActivity),
        Op::SkipIfElapsed(TimerId::First, 3000, 8),
        Op::Ask(Cond::CrossServerLobbyMap),
        Op::SkipIf(true, 5),
        Op::Ask(Cond::CameraReset),
        Op::SkipIf(true, 3),
        Op::Act(Act::Hotkey(Hotkey::TurnCameraTo0Degrees)),
        Op::Act(Act::Sleep(20)),
        Op::Back(8),
        Op::Finish(true),
        Op::Finish(false),
    ]
}

/// Resets the map, then turns the camera to 0 degrees with its hotkey until
/// the map shows it; fails after 3 seconds.
pub fn reset_camera() -> (p: Vec<Op>)
    ensures
        p@ == reset_camera_spec(),
{
    vec![
        Op::Call(Script::ResetMap),
        Op::SkipIf(false, 11),
        Op::StartTimer(TimerId::First),
        Op::Act(Act::CheckActivity),
        Op::SkipIfElapsed(TimerId::First, 3000, 8),
        Op::Ask(Cond::CrossServerLobbyMap),
        Op::SkipIf(true, 5),
        Op::Ask(Cond::CameraReset),
        Op::SkipIf(true, 3),
        Op::Act(Act::Hotkey(Hotkey::TurnCameraTo0Degrees)),
        Op::Act(Act::Sleep(20)),
        Op::Back(8),
        Op::Finish(true),
        Op::Finish(false),
    ]
}

pub(crate) proof fn lemma_reset_camera_in_order()
    ensures
        ops_in_order_from(reset_camera_spec(), 0),
{
    reveal_with_fuel(ops_in_order_from, 15);
}

pub(crate) proof fn lemma_reset_camera_fails_with_its_calls()
    ensures
        call_failures_end_from(reset_camera_spec(), 0),
{
    reveal_with_fuel(call_failures_end_from, 15);
}

pub(crate) proof fn lemma_reset_camera_leaves_runs()
    ensures
        runs_untouched_from(reset_camera_spec(), 0),
{
    reveal_with_fuel(runs_untouched_from, 15);
}

/// Turns the camera to 0 degrees.
pub open spec fn camera_to_0_spec() -> Seq<Op> {
    seq![
        Op::Call(Script::ResetCamera),
        Op::SkipIf(false, 2),
        Op::Act(Act::Sleep(20)),
        Op::Finish(true),
        Op::Finish(false),
    ]
}

/// Turns the camera to 0 degrees.
pub fn camera_to_0() -> (p: Vec<Op>)
    ensures
        p@ == camera_to_0_spec(),
{
    vec![
        Op::Call(Script::ResetCamera),
        Op::SkipIf(false, 2),
        Op::Act(Act::Sleep(20)),
        Op::Finish(true),
        Op::Finish(false),
    ]
}

pub(crate) proof fn lemma_camera_to_0_in_order()
    ensures
        ops_in_order_from(camera_to_0_spec(), 0),
{
    reveal_with_fuel(ops_in_order_from, 6);
}

pub(crate) proof fn lemma_camera_to_0_fails_with_its_calls()
    ensures
        call_failures_end_from(camera_to_0_spec(), 0),
{
    reveal_with_fuel(call_failures_end_from, 6);
}

pub(crate) proof fn lemma_camera_to_0_leaves_runs()
    ensures
        runs_untouched_from(camera_to_0_spec(), 0),
{
    reveal_with_fuel(runs_untouched_from, 6);
}

/// Turns the camera to 90 degrees.
pub open spec fn camera_to_90_spec() -> Seq<Op> {
    seq![
        Op::Call(Script::ResetCamera),
        Op::SkipIf(false, 3),
        Op::Act(Act::Rotate(90)),
        Op::Act(Act::Sleep(20)),
        Op::Finish(true),
        Op::Finish(false),
    ]
}

/// Turns the camera to 90 degrees.
pub fn camera_to_90() -> (p: Vec<Op>)
    ensures
        p@ == camera_to_90_spec(),
{
    vec![
        Op::Call(Script::ResetCamera),
        Op::SkipIf(false, 3),
        Op::Act(Act::Rotate(90)),
        Op::Act(Act::Sleep(20)),
        Op::Finish(true),
        Op::Finish(false),
    ]
}

pub(crate) proof fn lemma_camera_to_90_in_order()
    ensures
        ops_in_order_from(camera_to_90_spec(), 0),
{
    reveal_with_fuel(ops_in_order_from, 7);
}

pub(crate) proof fn lemma_camera_to_90_fails_with_its_calls()
    ensures
        call_failures_end_from(camera_to_90_spec(), 0),
{
    reveal_with_fuel(call_failures_end_from, 7);
}

pub(crate) proof fn lemma_camera_to_90_leaves_runs()
    ensures
        runs_untouched_from(camera_to_90_spec(), 0),
{
    reveal_with_fuel(runs_untouched_from, 7);
}

/// Turns the camera to 270 degrees.
pub open spec fn camera_to_270_spec() -> Seq<Op> {
    seq![
        Op::Call(Script::ResetCamera),
        Op::SkipIf(false, 3),
        Op::Act(Act::Rotate(270)),
        Op::Act(Act::Sleep(20)),
        Op::Finish(true),
        Op::Finish(false),
    ]
}

/// Turns the camera to 270 degrees.
pub fn camera_to_270() -> (p: Vec<Op>)
    ensures
        p@ == camera_to_270_spec(),
{
    vec![
        Op::Call(Script::ResetCamera),
        Op::SkipIf(false, 3),
        Op::Act(Act::Rotate(270)),
        Op::Act(Act::Sleep(20)),
        Op::Finish(true),
        Op::Finish(false),
    ]
}

pub(crate) proof fn lemma_camera_to_270_in_order()
    ensures
        ops_in_order_from(camera_to_270_spec(), 0),
{
    reveal_with_fuel(ops_in_order_from, 7);
}

pub(crate) proof fn lemma_camera_to_270_fails_with_its_calls()
    ensures
        call_failures_end_from(camera_to_270_spec(), 0),
{
    reveal_with_fuel(call_failures_end_from, 7);
}

pub(crate) proof fn lemma_camera_to_270_leaves_runs()
    ensures
        runs_untouched_from(camera_to_270_spec(), 0),
{
    reveal_with_fuel(runs_untouched_from, 7);
}

/// Leaves through the game menu: moves the cursor to its exit and clicks it.
pub open spec fn menu_exit_spec() -> Seq<Op> {
    seq![
        Op::Act(Act::Cursor(Target::Exit)),
        Op::Act(Act::Sleep(50)),
        Op::Act(Act::Click(Target::Exit)),
        Op::Finish(true),
    ]
}

/// Leaves through the game menu: moves the cursor to its exit and clicks it.
pub fn menu_exit() -> (p: Vec<Op>)
    ensures
        p@ == menu_exit_spec(),
{
    vec![
        Op::Act(Act::Cursor(Target::Exit)),
        Op::Act(Act::Sleep(50)),
        Op::Act(Act::Click(Target::Exit)),
        Op::Finish(true),
    ]
}

pub(crate) proof fn lemma_menu_exit_in_order()
    ensures
        ops_in_order_from(menu_exit_spec(), 0),
{
    reveal_with_fuel(ops_in_order_from, 5);
}

pub(crate) proof fn lemma_menu_exit_leaves_runs()
    ensures
        runs_untouched_from(menu_exit_spec(), 0),
{
    reveal_with_fuel(runs_untouched_from, 5);
}

} // verus!
