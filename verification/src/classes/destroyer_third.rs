//! The third specialisation of the Destroyer.
use vstd::prelude::*;

use super::Command;
use crate::color::soul_triggered_spec;
use crate::keys::{VK_1, VK_3, VK_E, VK_G, VK_T, VK_X};

verus! {

/// What the rotation reads.
#[derive(Clone, Copy, Debug)]
pub struct DestroyerThirdScreen {
    /// The Reaver icon at (1277, 888).
    pub reaver: u32,
    /// The Reaver icon at (1276, 888), the first pixel to turn grey.
    pub reaver_edge: u32,
    /// The Brightforge icon at (987, 887).
    pub brightforge: u32,
    /// The Galvanize icon at (892, 888).
    pub galvanize: u32,
    /// The Sledgehammer icon at (940, 950).
    pub sledgehammer: u32,
    /// The soul indicator at (592, 811).
    pub soul: u32,
    /// Whether Ironclad is ready.
    pub ironclad_available: bool,
}

/// Reaver is usable.
pub open spec fn reaver_available(o: DestroyerThirdScreen) -> bool {
    o.reaver == 6846074
}

/// Reaver is greyed out, whatever its cooldown.
pub open spec fn reaver_greyed_out(o: DestroyerThirdScreen) -> bool {
    o.reaver_edge == 6974058
}

/// Reaver is off cooldown but greyed out.
pub open spec fn reaver_unavailable(o: DestroyerThirdScreen) -> bool {
    o.reaver == 6908265
}

pub open spec fn brightforge_available(o: DestroyerThirdScreen) -> bool {
    o.brightforge == 1253980
}

pub open spec fn galvanize_available(o: DestroyerThirdScreen) -> bool {
    o.galvanize == 6909555
}

pub open spec fn sledgehammer_available(o: DestroyerThirdScreen) -> bool {
    o.sledgehammer == 1471388
}

#[derive(PartialEq, Eq, Structural, Clone, Copy, Debug)]
pub enum DestroyerThirdPhase {
    Idle,
    Start,
    ReaverStrike,
    ReaverCheck,
    GalvanizeStrike,
    GalvanizeCheck,
    SledgehammerStrike,
    SledgehammerCheck,
    Pause,
}

/// The rotation: Ironclad with the soul (with `dps`); otherwise Reaver
/// woven with T while it is usable, followed by Galvanize or Sledgehammer;
/// then back into the stance with Brightforge when Reaver is greyed out, or
/// T to make Reaver usable again.
#[derive(PartialEq, Eq, Structural, Clone, Copy, Debug)]
pub struct DestroyerThirdRotation {
    pub phase: DestroyerThirdPhase,
    pub dps: bool,
}

pub open spec fn third_stance(s: DestroyerThirdRotation, o: DestroyerThirdScreen) -> (DestroyerThirdRotation, Command) {
    if brightforge_available(o) && reaver_greyed_out(o) {
        (DestroyerThirdRotation { phase: DestroyerThirdPhase::Idle, ..s }, Command::Press(VK_3))
    } else if reaver_unavailable(o) {
        (DestroyerThirdRotation { phase: DestroyerThirdPhase::Idle, ..s }, Command::Press(VK_T))
    } else {
        (DestroyerThirdRotation { phase: DestroyerThirdPhase::Pause, ..s }, Command::Press(VK_T))
    }
}

pub open spec fn third_after_reaver(s: DestroyerThirdRotation, o: DestroyerThirdScreen) -> (DestroyerThirdRotation, Command) {
    if galvanize_available(o) {
        (DestroyerThirdRotation { phase: DestroyerThirdPhase::GalvanizeStrike, ..s }, Command::Press(VK_1))
    } else if sledgehammer_available(o) {
        (DestroyerThirdRotation { phase: DestroyerThirdPhase::SledgehammerStrike, ..s }, Command::Press(VK_X))
    } else {
        third_stance(s, o)
    }
}

pub open spec fn third_next(s: DestroyerThirdRotation, o: DestroyerThirdScreen) -> (DestroyerThirdRotation, Command) {
    match s.phase {
        DestroyerThirdPhase::Idle => (s, Command::Done),
        DestroyerThirdPhase::Start => if s.dps && o.ironclad_available && soul_triggered_spec(o.soul) {
            (DestroyerThirdRotation { phase: DestroyerThirdPhase::Idle, ..s }, Command::Press(VK_E))
        } else if reaver_available(o) {
            (DestroyerThirdRotation { phase: DestroyerThirdPhase::ReaverStrike, ..s }, Command::Press(VK_G))
        } else {
            third_stance(s, o)
        },
        DestroyerThirdPhase::ReaverStrike => (DestroyerThirdRotation { phase: DestroyerThirdPhase::ReaverCheck, ..s }, Command::Press(VK_T)),
        DestroyerThirdPhase::ReaverCheck => if reaver_available(o) {
            (DestroyerThirdRotation { phase: DestroyerThirdPhase::ReaverStrike, ..s }, Command::Press(VK_G))
        } else {
            third_after_reaver(s, o)
        },
        DestroyerThirdPhase::GalvanizeStrike => (DestroyerThirdRotation { phase: DestroyerThirdPhase::GalvanizeCheck, ..s }, Command::Press(VK_T)),
        DestroyerThirdPhase::GalvanizeCheck => if galvanize_available(o) {
            (DestroyerThirdRotation { phase: DestroyerThirdPhase::GalvanizeStrike, ..s }, Command::Press(VK_1))
        } else {
            third_stance(s, o)
        },
        DestroyerThirdPhase::SledgehammerStrike => (DestroyerThirdRotation { phase: DestroyerThirdPhase::SledgehammerCheck, ..s }, Command::Press(VK_T)),
        DestroyerThirdPhase::SledgehammerCheck => if sledgehammer_available(o) {
            (DestroyerThirdRotation { phase: DestroyerThirdPhase::SledgehammerStrike, ..s }, Command::Press(VK_X))
        } else {
            third_stance(s, o)
        },
        DestroyerThirdPhase::Pause => (DestroyerThirdRotation { phase: DestroyerThirdPhase::Idle, ..s }, Command::Sleep(2)),
    }
}

impl DestroyerThirdRotation {
    /// A rotation about to start.
    pub fn start(dps: bool) -> (r: Self)
        ensures
            r == (DestroyerThirdRotation { phase: DestroyerThirdPhase::Start, dps }),
    {
        DestroyerThirdRotation { phase: DestroyerThirdPhase::Start, dps }
    }

    fn stance(&mut self, o: &DestroyerThirdScreen) -> (cmd: Command)
        ensures
            (*final(self), cmd) == third_stance(*old(self), *o),
    {
        if o.brightforge == 1253980 && o.reaver_edge == 6974058 {
            self.phase = DestroyerThirdPhase::Idle;
            Command::Press(VK_3)
        } else if o.reaver == 6908265 {
            self.phase = DestroyerThirdPhase::Idle;
            Command::Press(VK_T)
        } else {
            self.phase = DestroyerThirdPhase::Pause;
            Command::Press(VK_T)
        }
    }

    fn after_reaver(&mut self, o: &DestroyerThirdScreen) -> (cmd: Command)
        ensures
            (*final(self), cmd) == third_after_reaver(*old(self), *o),
    {
        if o.galvanize == 6909555 {
            self.phase = DestroyerThirdPhase::GalvanizeStrike;
            Command::Press(VK_1)
        } else if o.sledgehammer == 1471388 {
            self.phase = DestroyerThirdPhase::SledgehammerStrike;
            Command::Press(VK_X)
        } else {
            self.stance(o)
        }
    }

    /// One step of the rotation on a fresh reading of the screen: what to do
    /// next, and the state after it.
    pub fn rotation(&mut self, o: &DestroyerThirdScreen) -> (cmd: Command)
        ensures
            (*final(self), cmd) == third_next(*old(self), *o),
    {
        match self.phase {
            DestroyerThirdPhase::Idle => Command::Done,
            DestroyerThirdPhase::Start => {
                if self.dps && o.ironclad_available && crate::color::general_is_soul_triggered(o.soul) {
                    self.phase = DestroyerThirdPhase::Idle;
                    Command::Press(VK_E)
                } else if o.reaver == 6846074 {
                    self.phase = DestroyerThirdPhase::ReaverStrike;
                    Command::Press(VK_G)
                } else {
                    self.stance(o)
                }
            },
            DestroyerThirdPhase::ReaverStrike => {
                self.phase = DestroyerThirdPhase::ReaverCheck;
                Command::Press(VK_T)
            },
            DestroyerThirdPhase::ReaverCheck => {
                if o.reaver == 6846074 {
                    self.phase = DestroyerThirdPhase::ReaverStrike;
                    Command::Press(VK_G)
                } else {
                    self.after_reaver(o)
                }
            },
            DestroyerThirdPhase::GalvanizeStrike => {
                self.phase = DestroyerThirdPhase::GalvanizeCheck;
                Command::Press(VK_T)
            },
            DestroyerThirdPhase::GalvanizeCheck => {
                if o.galvanize == 6909555 {
                    self.phase = DestroyerThirdPhase::GalvanizeStrike;
                    Command::Press(VK_1)
                } else {
                    self.stance(o)
                }
            },
            DestroyerThirdPhase::SledgehammerStrike => {
                self.phase = DestroyerThirdPhase::SledgehammerCheck;
                Command::Press(VK_T)
            },
            DestroyerThirdPhase::SledgehammerCheck => {
                if o.sledgehammer == 1471388 {
                    self.phase = DestroyerThirdPhase::SledgehammerStrike;
                    Command::Press(VK_X)
                } else {
                    self.stance(o)
                }
            },
            DestroyerThirdPhase::Pause => {
                self.phase = DestroyerThirdPhase::Idle;
                Command::Sleep(2)
            },
        }
    }
}

/// After the Reaver loop (Reaver no longer usable on the reading after a T):
/// Galvanize (1) when it is ready, else Sledgehammer (X) when it is ready,
/// else the stance: Brightforge (3) when it is ready and Reaver greyed out,
/// else T.
pub proof fn lemma_third_after_reaver(s: DestroyerThirdRotation, o: DestroyerThirdScreen)
    requires
        s.phase == DestroyerThirdPhase::ReaverCheck,
        !reaver_available(o),
    ensures
        ({
            let (t, c) = third_next(s, o);
            &&& galvanize_available(o) ==> c == Command::Press(VK_1) && t.phase
                == DestroyerThirdPhase::GalvanizeStrike
            &&& !galvanize_available(o) && sledgehammer_available(o) ==> c == Command::Press(VK_X) && t.phase
                == DestroyerThirdPhase::SledgehammerStrike
            &&& !galvanize_available(o) && !sledgehammer_available(o) && brightforge_available(o)
                && reaver_greyed_out(o) ==> c == Command::Press(VK_3) && t.phase == DestroyerThirdPhase::Idle
            &&& !galvanize_available(o) && !sledgehammer_available(o) && !(brightforge_available(o)
                && reaver_greyed_out(o)) ==> c == Command::Press(VK_T)
        }),
{
}

/// Each skill is used again while it is ready: Reaver (G), Galvanize (1)
/// and Sledgehammer (X) are pressed on every check that finds them ready.
pub proof fn lemma_third_repeats_ready_skills(s: DestroyerThirdRotation, o: DestroyerThirdScreen)
    ensures
        s.phase == DestroyerThirdPhase::ReaverCheck && reaver_available(o) ==> third_next(s, o).1
            == Command::Press(VK_G),
        s.phase == DestroyerThirdPhase::GalvanizeCheck && galvanize_available(o) ==> third_next(s, o).1
            == Command::Press(VK_1),
        s.phase == DestroyerThirdPhase::SledgehammerCheck && sledgehammer_available(o) ==> third_next(s, o).1
            == Command::Press(VK_X),
        s.phase == DestroyerThirdPhase::GalvanizeCheck && !galvanize_available(o) ==> !(third_next(s, o).1
            == Command::Press(VK_X)),
{
}

/// The start of a rotation: Ironclad (E) alone for a rotation that deals
/// damage when Ironclad is ready and the soul triggered; else Reaver (G)
/// when it is usable; else straight to the stance.
pub proof fn lemma_third_start(s: DestroyerThirdRotation, o: DestroyerThirdScreen)
    requires
        s.phase == DestroyerThirdPhase::Start,
    ensures
        s.dps && o.ironclad_available && soul_triggered_spec(o.soul) ==> third_next(s, o) == (
        DestroyerThirdRotation { phase: DestroyerThirdPhase::Idle, ..s }, Command::Press(VK_E)),
        !(s.dps && o.ironclad_available && soul_triggered_spec(o.soul)) && reaver_available(o) ==> third_next(
            s,
            o,
        ).1 == Command::Press(VK_G),
        !(s.dps && o.ironclad_available && soul_triggered_spec(o.soul)) && !reaver_available(o) ==> third_next(
            s,
            o,
        ).1 == Command::Press(VK_3) || third_next(s, o).1 == Command::Press(VK_T),
{
}

/// Every skill of the rotation is woven with T: after Reaver, Galvanize or
/// Sledgehammer the next key is T.
pub proof fn lemma_third_weaves_t(s: DestroyerThirdRotation, o: DestroyerThirdScreen, o2: DestroyerThirdScreen)
    requires
        third_next(s, o).1 == Command::Press(VK_G) || third_next(s, o).1 == Command::Press(VK_1)
            || third_next(s, o).1 == Command::Press(VK_X),
    ensures
        third_next(third_next(s, o).0, o2).1 == Command::Press(VK_T),
{
}

/// The rotation only presses its own keys.
pub proof fn lemma_third_keys(s: DestroyerThirdRotation, o: DestroyerThirdScreen)
    ensures
        third_next(s, o).1 matches Command::Press(k) ==> k == VK_E || k == VK_G || k == VK_T || k == VK_1
            || k == VK_X || k == VK_3,
{
}

} // verus!
