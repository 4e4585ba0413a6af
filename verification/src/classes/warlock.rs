//! The Scourge Warlock macro.
use vstd::prelude::*;

use super::{ready_or_unreadable, Command};
use crate::color::soul_triggered_spec;
use crate::keys::{VK_G, VK_R, VK_T, VK_Z};

verus! {

/// What the warlock rotation reads.
#[derive(Clone, Copy, Debug)]
pub struct WarlockScreen {
    /// The Bastion skill icon at (892, 950).
    pub bastion: u32,
    /// The soul indicator at (592, 811).
    pub soul: u32,
    /// Whether the Bastion key (Z) is held down.
    pub bastion_key_held: bool,
}

/// Bastion is ready.
pub open spec fn bastion_available(o: WarlockScreen) -> bool {
    ready_or_unreadable(o.bastion, 1916506)
}

#[derive(PartialEq, Eq, Structural, Clone, Copy, Debug)]
pub enum WarlockPhase {
    Idle,
    Start,
    IframeSleep,
    IframeBlock,
    IframeSpam,
    Talisman,
    StrikeT,
    PauseT,
    StrikeG,
    PauseG,
}

/// The warlock rotation. While the player holds the Bastion key, Bastion is
/// spammed with the user's input blocked until it is used; then the
/// talisman with the soul (with `dps`), then T and G.
#[derive(PartialEq, Eq, Structural, Clone, Copy, Debug)]
pub struct WarlockRotation {
    pub phase: WarlockPhase,
    pub dps: bool,
}

pub open spec fn warlock_talisman(s: WarlockRotation, o: WarlockScreen) -> (WarlockRotation, Command) {
    if s.dps && soul_triggered_spec(o.soul) {
        (WarlockRotation { phase: WarlockPhase::StrikeT, ..s }, Command::Press(VK_R))
    } else {
        (WarlockRotation { phase: WarlockPhase::PauseT, ..s }, Command::Press(VK_T))
    }
}

pub open spec fn warlock_next(s: WarlockRotation, o: WarlockScreen) -> (WarlockRotation, Command) {
    match s.phase {
        WarlockPhase::Idle => (s, Command::Done),
        WarlockPhase::Start => if o.bastion_key_held {
            (WarlockRotation { phase: WarlockPhase::IframeSleep, ..s }, Command::Release(VK_Z))
        } else {
            warlock_talisman(s, o)
        },
        WarlockPhase::IframeSleep => (WarlockRotation { phase: WarlockPhase::IframeBlock, ..s }, Command::Sleep(10)),
        WarlockPhase::IframeBlock => (WarlockRotation { phase: WarlockPhase::IframeSpam, ..s }, Command::BlockInput(true)),
        WarlockPhase::IframeSpam => if bastion_available(o) {
            (s, Command::Press(VK_Z))
        } else {
            (WarlockRotation { phase: WarlockPhase::Talisman, ..s }, Command::BlockInput(false))
        },
        WarlockPhase::Talisman => warlock_talisman(s, o),
        WarlockPhase::StrikeT => (WarlockRotation { phase: WarlockPhase::PauseT, ..s }, Command::Press(VK_T)),
        WarlockPhase::PauseT => (WarlockRotation { phase: WarlockPhase::StrikeG, ..s }, Command::Sleep(2)),
        WarlockPhase::StrikeG => (WarlockRotation { phase: WarlockPhase::PauseG, ..s }, Command::Press(VK_G)),
        WarlockPhase::PauseG => (WarlockRotation { phase: WarlockPhase::Idle, ..s }, Command::Sleep(2)),
    }
}

impl WarlockRotation {
    /// A rotation about to start.
    pub fn start(dps: bool) -> (r: Self)
        ensures
            r == (WarlockRotation { phase: WarlockPhase::Start, dps }),
    {
        WarlockRotation { phase: WarlockPhase::Start, dps }
    }

    fn talisman(&mut self, o: &WarlockScreen) -> (cmd: Command)
        ensures
            (*final(self), cmd) == warlock_talisman(*old(self), *o),
    {
        if self.dps && crate::color::general_is_soul_triggered(o.soul) {
            self.phase = WarlockPhase::StrikeT;
            Command::Press(VK_R)
        } else {
            self.phase = WarlockPhase::PauseT;
            Command::Press(VK_T)
        }
    }

    /// One step of the rotation on a fresh reading of the screen: what to do
    /// next, and the state after it.
    pub fn rotation(&mut self, o: &WarlockScreen) -> (cmd: Command)
        ensures
            (*final(self), cmd) == warlock_next(*old(self), *o),
    {
        match self.phase {
            WarlockPhase::Idle => Command::Done,
            WarlockPhase::Start => {
                if o.bastion_key_held {
                    self.phase = WarlockPhase::IframeSleep;
                    Command::Release(VK_Z)
                } else {
                    self.talisman(o)
                }
            },
            WarlockPhase::IframeSleep => {
                self.phase = WarlockPhase::IframeBlock;
                Command::Sleep(10)
            },
            WarlockPhase::IframeBlock => {
                self.phase = WarlockPhase::IframeSpam;
                Command::BlockInput(true)
            },
            WarlockPhase::IframeSpam => {
                if o.bastion == 1916506 || o.bastion == crate::color::CLR_INVALID {
                    Command::Press(VK_Z)
                } else {
                    self.phase = WarlockPhase::Talisman;
                    Command::BlockInput(false)
                }
            },
            WarlockPhase::Talisman => self.talisman(o),
            WarlockPhase::StrikeT => {
                self.phase = WarlockPhase::PauseT;
                Command::Press(VK_T)
            },
            WarlockPhase::PauseT => {
                self.phase = WarlockPhase::StrikeG;
                Command::Sleep(2)
            },
            WarlockPhase::StrikeG => {
                self.phase = WarlockPhase::PauseG;
                Command::Press(VK_G)
            },
            WarlockPhase::PauseG => {
                self.phase = WarlockPhase::Idle;
                Command::Sleep(2)
            },
        }
    }
}

/// The warlock macro only presses its own keys: Bastion (Z), the talisman
/// (R), T and G.
pub proof fn lemma_warlock_keys(s: WarlockRotation, o: WarlockScreen)
    ensures
        warlock_next(s, o).1 matches Command::Press(k) ==> k == VK_Z || k == VK_R || k == VK_T || k == VK_G,
{
}

/// The start of a rotation: with the Bastion key held, the key is released
/// to start the Bastion iframe; else the talisman check comes at once: the
/// talisman (R) exactly when the rotation deals damage and the soul is
/// triggered, T otherwise.
pub proof fn lemma_warlock_start(s: WarlockRotation, o: WarlockScreen)
    requires
        s.phase == WarlockPhase::Start,
    ensures
        o.bastion_key_held ==> warlock_next(s, o).1 == Command::Release(VK_Z) && warlock_next(s, o).0.phase
            == WarlockPhase::IframeSleep,
        !o.bastion_key_held ==> (warlock_next(s, o).1 == Command::Press(VK_R) <==> s.dps && soul_triggered_spec(
            o.soul,
        )),
        !o.bastion_key_held && !(s.dps && soul_triggered_spec(o.soul)) ==> warlock_next(s, o).1
            == Command::Press(VK_T),
{
}

/// The talisman after the Bastion iframe: once the input is unblocked, the
/// next step presses the talisman (R) exactly when the rotation deals damage
/// and the soul is triggered on that reading, and T otherwise; after the
/// talisman comes T.
pub proof fn lemma_warlock_talisman_after_iframe(
    s: WarlockRotation,
    o1: WarlockScreen,
    o2: WarlockScreen,
    o3: WarlockScreen,
)
    requires
        s.phase == WarlockPhase::IframeSpam,
        !bastion_available(o1),
    ensures
        ({
            let (t1, c1) = warlock_next(s, o1);
            let (t2, c2) = warlock_next(t1, o2);
            &&& c1 == Command::BlockInput(false)
            &&& c2 == Command::Press(VK_R) <==> s.dps && soul_triggered_spec(o2.soul)
            &&& c2 != Command::Press(VK_R) ==> c2 == Command::Press(VK_T)
            &&& c2 == Command::Press(VK_R) ==> warlock_next(t2, o3).1 == Command::Press(VK_T)
        }),
{
}

/// Bastion is spammed while it is ready.
pub proof fn lemma_warlock_spams_bastion(s: WarlockRotation, o: WarlockScreen)
    requires
        s.phase == WarlockPhase::IframeSpam,
        bastion_available(o),
    ensures
        warlock_next(s, o) == (s, Command::Press(VK_Z)),
{
}

/// The user's input is blocked only for Bastion: it is blocked right before
/// Bastion is spammed and unblocked when Bastion has been used.
pub proof fn lemma_warlock_block(s: WarlockRotation, o: WarlockScreen)
    ensures
        warlock_next(s, o).1 == Command::BlockInput(true) ==> warlock_next(s, o).0.phase == WarlockPhase::IframeSpam,
        warlock_next(s, o).1 == Command::BlockInput(false) ==> s.phase == WarlockPhase::IframeSpam && !bastion_available(o),
{
}

} // verus!
