//! What the bots' conditions read on screen, and the camera's scripts.
use vstd::prelude::*;

use super::vm::{Act, Cond, Degree, Op, Target};
use super::{script_spec, Script};

verus! {

/// The configuration entries of a check of the screen: the section, the key
/// of its positions (`x,y` pairs separated by `;`) and the key of its
/// colours (separated by `,`).
#[derive(Clone, Copy, Debug)]
pub struct PixelCheck {
    pub section: &'static str,
    pub position: &'static str,
    pub color: &'static str,
}

/// The configuration entries of the conditions told by a pixel of the
/// screen; the others are told by the game's memory or its windows.
pub open spec fn pixel_check_spec(c: Cond) -> Option<(Seq<char>, Seq<char>, Seq<char>)> {
    match c {
        Cond::LoadingScreen => Some(("UserInterfaceGeneral"@, "PositionLoadingScreen"@, "LoadingScreen"@)),
        Cond::OutOfLoadingScreen => Some(("UserInterfaceGeneral"@, "PositionOutOfLoadingScreen"@, "OutOfLoadingScreen"@)),
        Cond::InF8Lobby => Some(("UserInterfaceLobby"@, "PositionInF8Lobby"@, "InF8Lobby"@)),
        Cond::HasInvite => Some(("UserInterfaceLobby"@, "PositionHasInvite"@, "HasInvite"@)),
        Cond::HasPartyJoinRequest => Some(("UserInterfaceLobby"@, "PositionHasPartyJoinRequest"@, "HasPartyJoinRequest"@)),
        Cond::PlayerReady => Some(("UserInterfaceLobby"@, "PositionIsReady"@, "IsReady"@)),
        Cond::DungeonSelected => Some(("UserInterfaceLobby"@, "PositionDungeonSelected"@, "DungeonSelected"@)),
        Cond::StageSelected => Some(("UserInterfaceLobby"@, "PositionStageSelected"@, "StageSelected"@)),
        Cond::EnterAvailable => Some(("UserInterfaceLobby"@, "PositionEnter"@, "Enter"@)),
        Cond::ThrallReady => Some(("UserInterfacePlayer"@, "PositionThrallReady"@, "ThrallReady"@)),
        Cond::PortalIcon => Some(("UserInterfaceDungeon"@, "PositionPortalIcon"@, "PortalIcon"@)),
        Cond::ExitPortalIcon => Some(("UserInterfaceDungeon"@, "PositionExitPortalIcon"@, "ExitPortalIcon"@)),
        Cond::BonusRewardSelection => Some(("UserInterfaceDungeon"@, "PositionBonusRewardSelection"@, "BonusRewardSelection"@)),
        Cond::Revive => Some(("UserInterfacePlayer"@, "PositionReviveVisible"@, "ReviveVisible"@)),
        Cond::Resurrect => Some(("UserInterfacePlayer"@, "PositionResurrectVisible"@, "ResurrectVisible"@)),
        Cond::DynamicQuest => Some(("UserInterfaceDungeon"@, "PositionDynamicQuest"@, "DynamicQuest"@)),
        Cond::DynamicReward => Some(("UserInterfaceDungeon"@, "PositionDynamicReward"@, "DynamicReward"@)),
        Cond::OutOfCombat => Some(("UserInterfacePlayer"@, "PositionOutOfCombat"@, "OutOfCombat"@)),
        Cond::MapNotTransparent => Some(("UserInterfaceCamera"@, "PositionMapNotTransparent"@, "MapNotTransparent"@)),
        Cond::TrackingMap => Some(("UserInterfaceCamera"@, "PositionTrackingMap"@, "TrackingMap"@)),
        Cond::CameraReset => Some(("UserInterfaceCamera"@, "PositionMap0Degrees"@, "Map0Degrees"@)),
        Cond::CrossServerLobbyMap => Some(("UserInterfaceCamera"@, "PositionCrossServerLobby"@, "CrossServerLobby"@)),
        Cond::SoupActive => Some(("UserInterfaceGeneral"@, "PositionSoupActive"@, "SoupActive"@)),
        Cond::ExpCharmActive => Some(("UserInterfaceGeneral"@, "PositionExpCharmActive"@, "ExpCharmActive"@)),
        Cond::JoinLobbyDialogue => Some(("UserInterfaceLobby"@, "PositionHasJoinLobbyDialogue"@, "HasJoinLobbyDialogue"@)),
        _ => None,
    }
}

/// The configuration entries of the check of the screen that tells the
/// condition, if a pixel tells it.
pub fn pixel_check(c: Cond) -> (check: Option<PixelCheck>)
    ensures
        check is None <==> pixel_check_spec(c) is None,
        check matches Some(p) ==> pixel_check_spec(c) == Some((p.section@, p.position@, p.color@)),
{
    match c {
        Cond::LoadingScreen => Some(PixelCheck { section: "UserInterfaceGeneral", position: "PositionLoadingScreen", color: "LoadingScreen" }),
        Cond::OutOfLoadingScreen => Some(PixelCheck { section: "UserInterfaceGeneral", position: "PositionOutOfLoadingScreen", color: "OutOfLoadingScreen" }),
        Cond::InF8Lobby => Some(PixelCheck { section: "UserInterfaceLobby", position: "PositionInF8Lobby", color: "InF8Lobby" }),
        Cond::HasInvite => Some(PixelCheck { section: "UserInterfaceLobby", position: "PositionHasInvite", color: "HasInvite" }),
        Cond::HasPartyJoinRequest => Some(PixelCheck { section: "UserInterfaceLobby", position: "PositionHasPartyJoinRequest", color: "HasPartyJoinRequest" }),
        Cond::PlayerReady => Some(PixelCheck { section: "UserInterfaceLobby", position: "PositionIsReady", color: "IsReady" }),
        Cond::DungeonSelected => Some(PixelCheck { section: "UserInterfaceLobby", position: "PositionDungeonSelected", color: "DungeonSelected" }),
        Cond::StageSelected => Some(PixelCheck { section: "UserInterfaceLobby", position: "PositionStageSelected", color: "StageSelected" }),
        Cond::EnterAvailable => Some(PixelCheck { section: "UserInterfaceLobby", position: "PositionEnter", color: "Enter" }),
        Cond::ThrallReady => Some(PixelCheck { section: "UserInterfacePlayer", position: "PositionThrallReady", color: "ThrallReady" }),
        Cond::PortalIcon => Some(PixelCheck { section: "UserInterfaceDungeon", position: "PositionPortalIcon", color: "PortalIcon" }),
        Cond::ExitPortalIcon => Some(PixelCheck { section: "UserInterfaceDungeon", position: "PositionExitPortalIcon", color: "ExitPortalIcon" }),
        Cond::BonusRewardSelection => Some(PixelCheck { section: "UserInterfaceDungeon", position: "PositionBonusRewardSelection", color: "BonusRewardSelection" }),
        Cond::Revive => Some(PixelCheck { section: "UserInterfacePlayer", position: "PositionReviveVisible", color: "ReviveVisible" }),
        Cond::Resurrect => Some(PixelCheck { section: "UserInterfacePlayer", position: "PositionResurrectVisible", color: "ResurrectVisible" }),
        Cond::DynamicQuest => Some(PixelCheck { section: "UserInterfaceDungeon", position: "PositionDynamicQuest", color: "DynamicQuest" }),
        Cond::DynamicReward => Some(PixelCheck { section: "UserInterfaceDungeon", position: "PositionDynamicReward", color: "DynamicReward" }),
        Cond::OutOfCombat => Some(PixelCheck { section: "UserInterfacePlayer", position: "PositionOutOfCombat", color: "OutOfCombat" }),
        Cond::MapNotTransparent => Some(PixelCheck { section: "UserInterfaceCamera", position: "PositionMapNotTransparent", color: "MapNotTransparent" }),
        Cond::TrackingMap => Some(PixelCheck { section: "UserInterfaceCamera", position: "PositionTrackingMap", color: "TrackingMap" }),
        Cond::CameraReset => Some(PixelCheck { section: "UserInterfaceCamera", position: "PositionMap0Degrees", color: "Map0Degrees" }),
        Cond::CrossServerLobbyMap => Some(PixelCheck { section: "UserInterfaceCamera", position: "PositionCrossServerLobby", color: "CrossServerLobby" }),
        Cond::SoupActive => Some(PixelCheck { section: "UserInterfaceGeneral", position: "PositionSoupActive", color: "SoupActive" }),
        Cond::ExpCharmActive => Some(PixelCheck { section: "UserInterfaceGeneral", position: "PositionExpCharmActive", color: "ExpCharmActive" }),
        Cond::JoinLobbyDialogue => Some(PixelCheck { section: "UserInterfaceLobby", position: "PositionHasJoinLobbyDialogue", color: "HasJoinLobbyDialogue" }),
        _ => None,
    }
}

/// The configuration entry (section and key) of the position of a target;
/// the origin of the screen is no entry.
pub open spec fn target_setting_spec(t: Target) -> Option<(Seq<char>, Seq<char>)> {
    match t {
        Target::Origin => None,
        Target::Chat => Some(("UserInterfaceLobby"@, "PositionChat"@)),
        Target::Ready => Some(("UserInterfaceLobby"@, "PositionReady"@)),
        Target::Dungeon => Some(("UserInterfaceLobby"@, "PositionClickDungeon"@)),
        Target::Enter => Some(("UserInterfaceLobby"@, "PositionEnter"@)),
        Target::StageRight => Some(("UserInterfaceLobby"@, "PositionStageRightSide"@)),
        Target::OverMap => Some(("UserInterfaceCamera"@, "PositionOverMap"@)),
        Target::TrackingMap => Some(("UserInterfaceCamera"@, "PositionTrackingMap"@)),
        Target::Escape => Some(("UserInterfaceGeneral"@, "PositionEscape"@)),
        Target::FindLobby => Some(("UserInterfaceLobby"@, "PositionFindLobby"@)),
        Target::Exit => Some(("UserInterfaceGeneral"@, "PositionExit"@)),
    }
}

/// The configuration entry (section and key) of the position of a target,
/// or `None` for the origin of the screen.
pub fn target_setting(t: Target) -> (entry: Option<(&'static str, &'static str)>)
    ensures
        entry is None <==> target_setting_spec(t) is None,
        entry matches Some((section, key)) ==> target_setting_spec(t) == Some((section@, key@)),
{
    match t {
        Target::Origin => None,
        Target::Chat => Some(("UserInterfaceLobby", "PositionChat")),
        Target::Ready => Some(("UserInterfaceLobby", "PositionReady")),
        Target::Dungeon => Some(("UserInterfaceLobby", "PositionClickDungeon")),
        Target::Enter => Some(("UserInterfaceLobby", "PositionEnter")),
        Target::StageRight => Some(("UserInterfaceLobby", "PositionStageRightSide")),
        Target::OverMap => Some(("UserInterfaceCamera", "PositionOverMap")),
        Target::TrackingMap => Some(("UserInterfaceCamera", "PositionTrackingMap")),
        Target::Escape => Some(("UserInterfaceGeneral", "PositionEscape")),
        Target::FindLobby => Some(("UserInterfaceLobby", "PositionFindLobby")),
        Target::Exit => Some(("UserInterfaceGeneral", "PositionExit")),
    }
}

/// The script that turns the camera to the direction.
pub open spec fn camera_script_spec(d: Degree) -> Script {
    match d {
        Degree::TurnTo0 => Script::CameraTo0,
        Degree::TurnTo90 => Script::CameraTo90,
        Degree::TurnTo270 => Script::CameraTo270,
    }
}

/// The script that turns the camera to the direction.
pub fn camera_script(d: Degree) -> (s: Script)
    ensures
        s == camera_script_spec(d),
{
    match d {
        Degree::TurnTo0 => Script::CameraTo0,
        Degree::TurnTo90 => Script::CameraTo90,
        Degree::TurnTo270 => Script::CameraTo270,
    }
}

/// How far the mouse turns the camera from 0 degrees for the direction.
pub open spec fn degrees_spec(d: Degree) -> u64 {
    match d {
        Degree::TurnTo0 => 0,
        Degree::TurnTo90 => 90,
        Degree::TurnTo270 => 270,
    }
}

/// How far the mouse turns the camera from 0 degrees for the direction.
pub fn degrees(d: Degree) -> (deg: u64)
    ensures
        deg == degrees_spec(d),
{
    match d {
        Degree::TurnTo0 => 0,
        Degree::TurnTo90 => 90,
        Degree::TurnTo270 => 270,
    }
}

/// The camera's script turns the camera by the direction's degrees once the
/// camera is reset, and not at all for 0 degrees.
pub proof fn lemma_camera_script_turns(d: Degree)
    ensures
        script_spec(camera_script_spec(d))[0] == Op::Call(Script::ResetCamera),
        d != Degree::TurnTo0 ==> script_spec(camera_script_spec(d))[2] == Op::Act(Act::Rotate(degrees_spec(d))),
        forall|i: int| 0 <= i < script_spec(camera_script_spec(Degree::TurnTo0)).len()
            ==> !(#[trigger] script_spec(camera_script_spec(Degree::TurnTo0))[i] matches Op::Act(Act::Rotate(_))),
{
    reveal(script_spec);
    let p = script_spec(Script::CameraTo0);
    assert forall|i: int| 0 <= i < p.len() implies !(#[trigger] p[i] matches Op::Act(Act::Rotate(_))) by {
        assert(i == 0 || i == 1 || i == 2 || i == 3 || i == 4);
    }
}

} // verus!
