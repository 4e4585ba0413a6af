//! The rotation shared by the Blade Master and the default macro: talisman
//! with the soul, then the basic attack.
use vstd::prelude::*;

use super::Command;
use crate::color::soul_triggered_spec;
use crate::keys::{VK_R, VK_T};

verus! {

/// What the basic rotation reads: the soul indicator at (592, 811).
#[derive(Clone, Copy, Debug)]
pub struct BasicScreen {
    pub soul: u32,
}

#[derive(PartialEq, Eq, Structural, Clone, Copy, Debug)]
pub enum BasicPhase {
    Idle,
    Start,
    Strike,
    Pause,
}

/// The basic rotation: with `dps`, the talisman is used while the soul is
/// triggered; then the basic attack (T) and a short pause.
#[derive(PartialEq, Eq, Structural, Clone, Copy, Debug)]
pub struct BasicRotation {
    pub phase: BasicPhase,
    pub dps: bool,
}

pub open spec fn basic_next(s: BasicRotation, o: BasicScreen) -> (BasicRotation, Command) {
    match s.phase {
        BasicPhase::Idle => (s, Command::Done),
        BasicPhase::Start => if s.dps && soul_triggered_spec(o.soul) {
            (BasicRotation { phase: BasicPhase::Strike, ..s }, Command::Press(VK_R))
        } else {
            (BasicRotation { phase: BasicPhase::Pause, ..s }, Command::Press(VK_T))
        },
        BasicPhase::Strike => (BasicRotation { phase: BasicPhase::Pause, ..s }, Command::Press(VK_T)),
        BasicPhase::Pause => (BasicRotation { phase: BasicPhase::Idle, ..s }, Command::Sleep(2)),
    }
}

impl BasicRotation {
    /// A rotation about to start.
    pub fn start(dps: bool) -> (r: Self)
        ensures
            r == (BasicRotation { phase: BasicPhase::Start, dps }),
    {
        BasicRotation { phase: BasicPhase::Start, dps }
    }

    /// One step of the rotation on a fresh reading of the screen: what to do
    /// next, and the state after it.
    pub fn rotation(&mut self, screen: &BasicScreen) -> (cmd: Command)
        ensures
            (*final(self), cmd) == basic_next(*old(self), *screen),
    {
        match self.phase {
            BasicPhase::Idle => Command::Done,
            BasicPhase::Start => {
                if self.dps && crate::color::general_is_soul_triggered(screen.soul) {
                    self.phase = BasicPhase::Strike;
                    Command::Press(VK_R)
                } else {
                    self.phase = BasicPhase::Pause;
                    Command::Press(VK_T)
                }
            },
            BasicPhase::Strike => {
                self.phase = BasicPhase::Pause;
                Command::Press(VK_T)
            },
            BasicPhase::Pause => {
                self.phase = BasicPhase::Idle;
                Command::Sleep(2)
            },
        }
    }
}

/// The state after running the rotation on a sequence of screen readings.
pub open spec fn basic_run(s: BasicRotation, screens: Seq<BasicScreen>) -> BasicRotation
    decreases screens.len(),
{
    if screens.len() == 0 {
        s
    } else {
        basic_run(basic_next(s, screens[0]).0, screens.drop_first())
    }
}

/// The basic rotation always finishes: three steps after it starts it is
/// idle, whatever the screen shows, and idle it stays.
pub proof fn lemma_basic_finishes(dps: bool, screens: Seq<BasicScreen>)
    requires
        screens.len() >= 3,
    ensures
        basic_run(BasicRotation { phase: BasicPhase::Start, dps }, screens).phase == BasicPhase::Idle,
{
    let s0 = BasicRotation { phase: BasicPhase::Start, dps };
    let s1 = basic_next(s0, screens[0]).0;
    let s2 = basic_next(s1, screens[1]).0;
    let s3 = basic_next(s2, screens[2]).0;
    let t1 = screens.drop_first();
    let t2 = t1.drop_first();
    let t3 = t2.drop_first();
    assert(t1[0] == screens[1]);
    assert(t2[0] == screens[2]);
    assert(basic_run(s0, screens) == basic_run(s1, t1));
    assert(basic_run(s1, t1) == basic_run(s2, t2));
    assert(basic_run(s2, t2) == basic_run(s3, t3));
    assert(s3.phase == BasicPhase::Idle);
    lemma_basic_idle_stays(s3, t3);
}

proof fn lemma_basic_idle_stays(s: BasicRotation, screens: Seq<BasicScreen>)
    requires
        s.phase == BasicPhase::Idle,
    ensures
        basic_run(s, screens) == s,
    decreases screens.len(),
{
    if screens.len() > 0 {
        lemma_basic_idle_stays(s, screens.drop_first());
    }
}

/// The talisman is used exactly when the rotation deals damage and the soul
/// is triggered at its start.
pub proof fn lemma_basic_talisman(dps: bool, o: BasicScreen)
    ensures
        basic_next(BasicRotation { phase: BasicPhase::Start, dps }, o).1 == Command::Press(VK_R)
            <==> dps && soul_triggered_spec(o.soul),
{
}

} // verus!
