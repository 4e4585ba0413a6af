//! The Earth Destroyer macro: its rotation, which keeps a flag from one
//! rotation to the next, and its iframes on Searing Strike and Typhoon.
use vstd::prelude::*;

use super::{ready_or_unreadable, Command};
use crate::color::soul_triggered_spec;
use crate::keys::{VK_0, VK_3, VK_C, VK_E, VK_Q, VK_R, VK_T, VK_X};

verus! {

/// What the destroyer macros read.
#[derive(Clone, Copy, Debug)]
pub struct DestroyerScreen {
    /// The Cleave icon at (1147, 887).
    pub cleave: u32,
    /// The icon at (1276, 888): Judgment, or Mighty Cleave on G.
    pub judgment: u32,
    /// The Fury icon at (742, 887).
    pub fury: u32,
    /// The Mighty Cleave icon on the right mouse button, at (1141, 887).
    pub mighty_cleave: u32,
    /// The Smash icon at (940, 950).
    pub smash: u32,
    /// The Emberstomp icon at (987, 887).
    pub emberstomp: u32,
    /// The third Wrath icon at (1276, 887).
    pub wrath3: u32,
    /// The Searing Strike icon at (987, 950).
    pub searing_strike: u32,
    /// The Typhoon icon at (695, 887).
    pub typhoon: u32,
    /// The soul indicator at (592, 811).
    pub soul: u32,
    /// Whether the button that runs the macro is still held down.
    pub button_held: bool,
}

/// Cleave is ready, in either form.
pub open spec fn cleave_available(o: DestroyerScreen) -> bool {
    o.cleave == 1716831 || o.cleave == 1717347
}

/// The ready Cleave is the Soulburn form.
pub open spec fn cleave_soulburn(o: DestroyerScreen) -> bool {
    o.cleave == 1716831
}

pub open spec fn judgment_available(o: DestroyerScreen) -> bool {
    o.judgment == 6909564
}

pub open spec fn fury_available(o: DestroyerScreen) -> bool {
    o.fury == 4331614
}

/// Mighty Cleave is ready, on the right mouse button or on G.
pub open spec fn mighty_cleave_available(o: DestroyerScreen) -> bool {
    o.mighty_cleave == 1251356 || o.mighty_cleave == 1250840 || o.judgment == 6843246 || o.judgment == 7500149
}

pub open spec fn smash_available(o: DestroyerScreen) -> bool {
    o.smash == 1252144
}

pub open spec fn emberstomp_available(o: DestroyerScreen) -> bool {
    o.emberstomp == 1447464
}

pub open spec fn wrath3_available(o: DestroyerScreen) -> bool {
    o.wrath3 == 1318963
}

pub open spec fn searing_strike_available(o: DestroyerScreen) -> bool {
    ready_or_unreadable(o.searing_strike, 3298669)
}

pub open spec fn typhoon_available(o: DestroyerScreen) -> bool {
    ready_or_unreadable(o.typhoon, 5851324)
}

pub fn is_cleave_available(o: &DestroyerScreen) -> (r: bool)
    ensures
        r == cleave_available(*o),
{
    o.cleave == 1716831 || o.cleave == 1717347
}

pub fn is_fury_available(o: &DestroyerScreen) -> (r: bool)
    ensures
        r == fury_available(*o),
{
    o.fury == 4331614
}

pub fn is_mighty_cleave_available(o: &DestroyerScreen) -> (r: bool)
    ensures
        r == mighty_cleave_available(*o),
{
    o.mighty_cleave == 1251356 || o.mighty_cleave == 1250840 || o.judgment == 6843246 || o.judgment == 7500149
}

pub fn is_emberstomp_available(o: &DestroyerScreen) -> (r: bool)
    ensures
        r == emberstomp_available(*o),
{
    o.emberstomp == 1447464
}

pub fn is_wrath3_available(o: &DestroyerScreen) -> (r: bool)
    ensures
        r == wrath3_available(*o),
{
    o.wrath3 == 1318963
}

#[derive(PartialEq, Eq, Structural, Clone, Copy, Debug)]
pub enum DestroyerPhase {
    Idle,
    Start,
    /// Mighty Cleave is cancelled into Wrath while it is ready.
    CleaveCancelSleep,
    CleaveCancelCheck,
    FurySleep,
    FuryCheck,
    SmashSleep,
    SmashCheck,
    EmberSleep,
    EmberCheck,
    Wrath3,
    Wrath3Sleep,
    Wrath3Check,
    Cleave,
    CleaveRest,
    Judgment,
    Stance,
    StanceEmber,
    StanceCleaveStrike,
    StanceCleaveSleep,
    StanceCleaveCheck,
    StanceFury,
    StanceFurySleep,
    FinalWrath,
    FinalPause,
    CleavePause,
}

/// The Earth Destroyer rotation.
///
/// `fury_after_cleave` lives from one rotation to the next: it is set when
/// Fury is seen ready at the start of a rotation, and Fury is then used
/// after the next Mighty Cleave. `fury_at_start`, `judgment` and
/// `in_soulburn` hold what this rotation read at its start, before the
/// stance, and during its Cleaves.
#[derive(PartialEq, Eq, Structural, Clone, Copy, Debug)]
pub struct DestroyerRotation {
    pub phase: DestroyerPhase,
    pub dps: bool,
    pub fury_after_cleave: bool,
    pub fury_at_start: bool,
    pub judgment: bool,
    pub in_soulburn: bool,
}

pub open spec fn with_phase(s: DestroyerRotation, phase: DestroyerPhase) -> DestroyerRotation {
    DestroyerRotation { phase, ..s }
}

/// The Wrath 3 part: Wrath while Wrath 3 is ready, else straight to the
/// Judgment check.
pub open spec fn destroyer_wrath3(s: DestroyerRotation, o: DestroyerScreen) -> (DestroyerRotation, Command) {
    if wrath3_available(o) {
        (with_phase(s, DestroyerPhase::Wrath3Sleep), Command::Press(VK_0))
    } else {
        destroyer_judgment(s, o)
    }
}

/// Reads Judgment, then the talisman with the soul, then the stance.
pub open spec fn destroyer_judgment(s: DestroyerRotation, o: DestroyerScreen) -> (DestroyerRotation, Command) {
    let s2 = DestroyerRotation { judgment: judgment_available(o), ..s };
    if soul_triggered_spec(o.soul) {
        (with_phase(s2, DestroyerPhase::Stance), Command::Press(VK_R))
    } else {
        destroyer_stance(s2, o)
    }
}

/// Enters the Fury stance when Fury and Judgment were ready; Cleave and done
/// when only Judgment was; else the final Wrath.
pub open spec fn destroyer_stance(s: DestroyerRotation, o: DestroyerScreen) -> (DestroyerRotation, Command) {
    if s.fury_at_start && s.judgment {
        if emberstomp_available(o) {
            (with_phase(s, DestroyerPhase::StanceEmber), Command::Press(VK_3))
        } else {
            destroyer_stance_fury(s, o)
        }
    } else if s.judgment {
        (with_phase(s, DestroyerPhase::CleavePause), Command::Press(VK_T))
    } else {
        (with_phase(s, DestroyerPhase::FinalPause), Command::Press(VK_0))
    }
}

/// Fury while it is ready, then the pause of its animation.
pub open spec fn destroyer_stance_fury(s: DestroyerRotation, o: DestroyerScreen) -> (DestroyerRotation, Command) {
    if fury_available(o) {
        (with_phase(s, DestroyerPhase::StanceFurySleep), Command::Press(VK_E))
    } else {
        (with_phase(s, DestroyerPhase::FinalWrath), Command::Sleep(140))
    }
}

/// After Mighty Cleave: Fury when flagged, else Smash (with `dps`), else
/// Emberstomp, else on to Wrath 3.
pub open spec fn destroyer_after_cleave(s: DestroyerRotation, o: DestroyerScreen) -> (DestroyerRotation, Command) {
    if s.fury_after_cleave {
        (with_phase(s, DestroyerPhase::FurySleep), Command::Press(VK_E))
    } else if s.dps && smash_available(o) {
        (with_phase(s, DestroyerPhase::SmashSleep), Command::Press(VK_X))
    } else if emberstomp_available(o) {
        (with_phase(s, DestroyerPhase::EmberSleep), Command::Press(VK_3))
    } else {
        destroyer_wrath3(s, o)
    }
}

pub open spec fn destroyer_start(s: DestroyerRotation, o: DestroyerScreen) -> (DestroyerRotation, Command) {
    let s2 = DestroyerRotation {
        fury_after_cleave: s.fury_after_cleave || fury_available(o),
        fury_at_start: fury_available(o),
        ..s
    };
    if mighty_cleave_available(o) {
        (with_phase(s2, DestroyerPhase::CleaveCancelSleep), Command::Press(VK_0))
    } else {
        destroyer_wrath3(s2, o)
    }
}

pub open spec fn destroyer_next(s: DestroyerRotation, o: DestroyerScreen) -> (DestroyerRotation, Command) {
    let held = o.button_held;
    match s.phase {
        DestroyerPhase::Idle => (s, Command::Done),
        DestroyerPhase::Start => destroyer_start(s, o),
        DestroyerPhase::CleaveCancelSleep => (with_phase(s, DestroyerPhase::CleaveCancelCheck), Command::Sleep(10)),
        DestroyerPhase::CleaveCancelCheck => if mighty_cleave_available(o) && held {
            (with_phase(s, DestroyerPhase::CleaveCancelSleep), Command::Press(VK_0))
        } else {
            destroyer_after_cleave(s, o)
        },
        DestroyerPhase::FurySleep => (with_phase(s, DestroyerPhase::FuryCheck), Command::Sleep(5)),
        DestroyerPhase::FuryCheck => if fury_available(o) && held {
            (with_phase(s, DestroyerPhase::FurySleep), Command::Press(VK_E))
        } else {
            (DestroyerRotation { phase: DestroyerPhase::Wrath3, fury_after_cleave: false, ..s }, Command::Sleep(135))
        },
        DestroyerPhase::SmashSleep => (with_phase(s, DestroyerPhase::SmashCheck), Command::Sleep(5)),
        DestroyerPhase::SmashCheck => if smash_available(o) && held {
            (with_phase(s, DestroyerPhase::SmashSleep), Command::Press(VK_X))
        } else {
            destroyer_wrath3(s, o)
        },
        DestroyerPhase::EmberSleep => (with_phase(s, DestroyerPhase::EmberCheck), Command::Sleep(5)),
        DestroyerPhase::EmberCheck => if emberstomp_available(o) && held {
            (with_phase(s, DestroyerPhase::EmberSleep), Command::Press(VK_3))
        } else {
            (with_phase(s, DestroyerPhase::Wrath3), Command::Sleep(120))
        },
        DestroyerPhase::Wrath3 => destroyer_wrath3(s, o),
        DestroyerPhase::Wrath3Sleep => (with_phase(s, DestroyerPhase::Wrath3Check), Command::Sleep(10)),
        DestroyerPhase::Wrath3Check => if wrath3_available(o) && held {
            (with_phase(s, DestroyerPhase::Wrath3Sleep), Command::Press(VK_0))
        } else {
            (DestroyerRotation { phase: DestroyerPhase::Cleave, in_soulburn: false, ..s }, Command::Sleep(45))
        },
        DestroyerPhase::Cleave => if cleave_available(o) {
            (DestroyerRotation { in_soulburn: cleave_soulburn(o), ..s }, Command::Press(VK_T))
        } else {
            (with_phase(s, DestroyerPhase::CleaveRest), Command::Sleep(95))
        },
        DestroyerPhase::CleaveRest => if s.in_soulburn {
            (with_phase(s, DestroyerPhase::Judgment), Command::Sleep(80))
        } else {
            destroyer_judgment(s, o)
        },
        DestroyerPhase::Judgment => destroyer_judgment(s, o),
        DestroyerPhase::Stance => destroyer_stance(s, o),
        DestroyerPhase::StanceEmber => if emberstomp_available(o) && held {
            (s, Command::Press(VK_3))
        } else {
            (with_phase(s, DestroyerPhase::StanceCleaveStrike), Command::Sleep(50))
        },
        DestroyerPhase::StanceCleaveStrike => (with_phase(s, DestroyerPhase::StanceCleaveSleep), Command::Press(VK_0)),
        DestroyerPhase::StanceCleaveSleep => (with_phase(s, DestroyerPhase::StanceCleaveCheck), Command::Sleep(10)),
        DestroyerPhase::StanceCleaveCheck => if mighty_cleave_available(o) && held {
            (with_phase(s, DestroyerPhase::StanceCleaveSleep), Command::Press(VK_0))
        } else {
            destroyer_stance_fury(s, o)
        },
        DestroyerPhase::StanceFury => destroyer_stance_fury(s, o),
        DestroyerPhase::StanceFurySleep => (with_phase(s, DestroyerPhase::StanceFury), Command::Sleep(5)),
        DestroyerPhase::FinalWrath => (with_phase(s, DestroyerPhase::FinalPause), Command::Press(VK_0)),
        DestroyerPhase::FinalPause => (with_phase(s, DestroyerPhase::Idle), Command::Sleep(2)),
        DestroyerPhase::CleavePause => (with_phase(s, DestroyerPhase::Idle), Command::Sleep(5)),
    }
}

impl DestroyerRotation {
    /// A destroyer macro freshly loaded: idle, Fury not flagged, and nothing
    /// read yet.
    pub fn new() -> (r: Self)
        ensures
            r == (DestroyerRotation {
                phase: DestroyerPhase::Idle,
                dps: false,
                fury_after_cleave: false,
                fury_at_start: false,
                judgment: false,
                in_soulburn: false,
            }),
    {
        DestroyerRotation {
            phase: DestroyerPhase::Idle,
            dps: false,
            fury_after_cleave: false,
            fury_at_start: false,
            judgment: false,
            in_soulburn: false,
        }
    }

    /// Starts a rotation; the Fury flag carries over from the last one.
    pub fn begin(&mut self, dps: bool)
        ensures
            *final(self) == (DestroyerRotation { phase: DestroyerPhase::Start, dps, ..*old(self) }),
    {
        self.phase = DestroyerPhase::Start;
        self.dps = dps;
    }

    fn set_phase(&mut self, phase: DestroyerPhase)
        ensures
            *final(self) == with_phase(*old(self), phase),
    {
        self.phase = phase;
    }

    fn stance_fury(&mut self, o: &DestroyerScreen) -> (cmd: Command)
        ensures
            (*final(self), cmd) == destroyer_stance_fury(*old(self), *o),
    {
        if is_fury_available(o) {
            self.set_phase(DestroyerPhase::StanceFurySleep);
            Command::Press(VK_E)
        } else {
            self.set_phase(DestroyerPhase::FinalWrath);
            Command::Sleep(140)
        }
    }

    fn stance(&mut self, o: &DestroyerScreen) -> (cmd: Command)
        ensures
            (*final(self), cmd) == destroyer_stance(*old(self), *o),
    {
        if self.fury_at_start && self.judgment {
            if is_emberstomp_available(o) {
                self.set_phase(DestroyerPhase::StanceEmber);
                Command::Press(VK_3)
            } else {
                self.stance_fury(o)
            }
        } else if self.judgment {
            self.set_phase(DestroyerPhase::CleavePause);
            Command::Press(VK_T)
        } else {
            self.set_phase(DestroyerPhase::FinalPause);
            Command::Press(VK_0)
        }
    }

    fn judgment(&mut self, o: &DestroyerScreen) -> (cmd: Command)
        ensures
            (*final(self), cmd) == destroyer_judgment(*old(self), *o),
    {
        self.judgment = o.judgment == 6909564;
        if crate::color::general_is_soul_triggered(o.soul) {
            self.set_phase(DestroyerPhase::Stance);
            Command::Press(VK_R)
        } else {
            self.stance(o)
        }
    }

    fn wrath3(&mut self, o: &DestroyerScreen) -> (cmd: Command)
        ensures
            (*final(self), cmd) == destroyer_wrath3(*old(self), *o),
    {
        if is_wrath3_available(o) {
            self.set_phase(DestroyerPhase::Wrath3Sleep);
            Command::Press(VK_0)
        } else {
            self.judgment(o)
        }
    }

    fn after_cleave(&mut self, o: &DestroyerScreen) -> (cmd: Command)
        ensures
            (*final(self), cmd) == destroyer_after_cleave(*old(self), *o),
    {
        if self.fury_after_cleave {
            self.set_phase(DestroyerPhase::FurySleep);
            Command::Press(VK_E)
        } else if self.dps && o.smash == 1252144 {
            self.set_phase(DestroyerPhase::SmashSleep);
            Command::Press(VK_X)
        } else if is_emberstomp_available(o) {
            self.set_phase(DestroyerPhase::EmberSleep);
            Command::Press(VK_3)
        } else {
            self.wrath3(o)
        }
    }

    fn start_step(&mut self, o: &DestroyerScreen) -> (cmd: Command)
        ensures
            (*final(self), cmd) == destroyer_start(*old(self), *o),
    {
        let fury = is_fury_available(o);
        self.fury_after_cleave = self.fury_after_cleave || fury;
        self.fury_at_start = fury;
        if is_mighty_cleave_available(o) {
            self.set_phase(DestroyerPhase::CleaveCancelSleep);
            Command::Press(VK_0)
        } else {
            self.wrath3(o)
        }
    }

    /// One step of the rotation on a fresh reading of the screen: what to do
    /// next, and the state after it.
    pub fn rotation(&mut self, o: &DestroyerScreen) -> (cmd: Command)
        ensures
            (*final(self), cmd) == destroyer_next(*old(self), *o),
    {
        let held = o.button_held;
        match self.phase {
            DestroyerPhase::Idle => Command::Done,
            DestroyerPhase::Start => self.start_step(o),
            DestroyerPhase::CleaveCancelSleep => {
                self.set_phase(DestroyerPhase::CleaveCancelCheck);
                Command::Sleep(10)
            },
            DestroyerPhase::CleaveCancelCheck => {
                if is_mighty_cleave_available(o) && held {
                    self.set_phase(DestroyerPhase::CleaveCancelSleep);
                    Command::Press(VK_0)
                } else {
                    self.after_cleave(o)
                }
            },
            DestroyerPhase::FurySleep => {
                self.set_phase(DestroyerPhase::FuryCheck);
                Command::Sleep(5)
            },
            DestroyerPhase::FuryCheck => {
                if is_fury_available(o) && held {
                    self.set_phase(DestroyerPhase::FurySleep);
                    Command::Press(VK_E)
                } else {
                    self.fury_after_cleave = false;
                    self.set_phase(DestroyerPhase::Wrath3);
                    Command::Sleep(135)
                }
            },
            DestroyerPhase::SmashSleep => {
                self.set_phase(DestroyerPhase::SmashCheck);
                Command::Sleep(5)
            },
            DestroyerPhase::SmashCheck => {
                if o.smash == 1252144 && held {
                    self.set_phase(DestroyerPhase::SmashSleep);
                    Command::Press(VK_X)
                } else {
                    self.wrath3(o)
                }
            },
            DestroyerPhase::EmberSleep => {
                self.set_phase(DestroyerPhase::EmberCheck);
                Command::Sleep(5)
            },
            DestroyerPhase::EmberCheck => {
                if is_emberstomp_available(o) && held {
                    self.set_phase(DestroyerPhase::EmberSleep);
                    Command::Press(VK_3)
                } else {
                    self.set_phase(DestroyerPhase::Wrath3);
                    Command::Sleep(120)
                }
            },
            DestroyerPhase::Wrath3 => self.wrath3(o),
            DestroyerPhase::Wrath3Sleep => {
                self.set_phase(DestroyerPhase::Wrath3Check);
                Command::Sleep(10)
            },
            DestroyerPhase::Wrath3Check => {
                if is_wrath3_available(o) && held {
                    self.set_phase(DestroyerPhase::Wrath3Sleep);
                    Command::Press(VK_0)
                } else {
                    self.in_soulburn = false;
                    self.set_phase(DestroyerPhase::Cleave);
                    Command::Sleep(45)
                }
            },
            DestroyerPhase::Cleave => {
                if is_cleave_available(o) {
                    self.in_soulburn = o.cleave == 1716831;
                    Command::Press(VK_T)
                } else {
                    self.set_phase(DestroyerPhase::CleaveRest);
                    Command::Sleep(95)
                }
            },
            DestroyerPhase::CleaveRest => {
                if self.in_soulburn {
                    self.set_phase(DestroyerPhase::Judgment);
                    Command::Sleep(80)
                } else {
                    self.judgment(o)
                }
            },
            DestroyerPhase::Judgment => self.judgment(o),
            DestroyerPhase::Stance => self.stance(o),
            DestroyerPhase::StanceEmber => {
                if is_emberstomp_available(o) && held {
                    Command::Press(VK_3)
                } else {
                    self.set_phase(DestroyerPhase::StanceCleaveStrike);
                    Command::Sleep(50)
                }
            },
            DestroyerPhase::StanceCleaveStrike => {
                self.set_phase(DestroyerPhase::StanceCleaveSleep);
                Command::Press(VK_0)
            },
            DestroyerPhase::StanceCleaveSleep => {
                self.set_phase(DestroyerPhase::StanceCleaveCheck);
                Command::Sleep(10)
            },
            DestroyerPhase::StanceCleaveCheck => {
                if is_mighty_cleave_available(o) && held {
                    self.set_phase(DestroyerPhase::StanceCleaveSleep);
                    Command::Press(VK_0)
                } else {
                    self.stance_fury(o)
                }
            },
            DestroyerPhase::StanceFury => self.stance_fury(o),
            DestroyerPhase::StanceFurySleep => {
                self.set_phase(DestroyerPhase::StanceFury);
                Command::Sleep(5)
            },
            DestroyerPhase::FinalWrath => {
                self.set_phase(DestroyerPhase::FinalPause);
                Command::Press(VK_0)
            },
            DestroyerPhase::FinalPause => {
                self.set_phase(DestroyerPhase::Idle);
                Command::Sleep(2)
            },
            DestroyerPhase::CleavePause => {
                self.set_phase(DestroyerPhase::Idle);
                Command::Sleep(5)
            },
        }
    }
}

/// The destroyer macro only presses its own keys: Wrath (0), Fury (E),
/// Smash (X), Emberstomp (3), Cleave (T) and the talisman (R).
pub proof fn lemma_destroyer_keys(s: DestroyerRotation, o: DestroyerScreen)
    ensures
        destroyer_next(s, o).1 matches Command::Press(k) ==> k == VK_0 || k == VK_E || k == VK_X || k == VK_3
            || k == VK_T || k == VK_R,
{
}

/// The Fury flag: it is raised at the start of a rotation when Fury is
/// ready, lowered only once Fury has been used after Mighty Cleave, and
/// kept unchanged by every other step.
pub proof fn lemma_destroyer_fury_flag(s: DestroyerRotation, o: DestroyerScreen)
    ensures
        s.phase == DestroyerPhase::Start ==> destroyer_next(s, o).0.fury_after_cleave
            == (s.fury_after_cleave || fury_available(o)),
        s.phase != DestroyerPhase::Start && destroyer_next(s, o).0.fury_after_cleave != s.fury_after_cleave
            ==> s.phase == DestroyerPhase::FuryCheck && !destroyer_next(s, o).0.fury_after_cleave,
{
}

/// Entering the Fury stance. After the talisman check, a rotation that saw
/// Fury ready at its start and Judgment ready now enters the stance: it
/// spams Emberstomp (3) when it is ready, else Fury (E) when it is ready,
/// else waits 140 ms for the final Wrath; it never ends with Cleave then.
/// Cleave (T) ends the rotation exactly when Judgment is ready and Fury was
/// not; with no Judgment, the final Wrath (0) ends it.
pub proof fn lemma_destroyer_fury_stance(s: DestroyerRotation, o: DestroyerScreen)
    requires
        s.phase == DestroyerPhase::Stance,
    ensures
        ({
            let (t, c) = destroyer_next(s, o);
            &&& s.fury_at_start && s.judgment && emberstomp_available(o) ==> c == Command::Press(VK_3)
                && t.phase == DestroyerPhase::StanceEmber
            &&& s.fury_at_start && s.judgment && !emberstomp_available(o) && fury_available(o) ==> c
                == Command::Press(VK_E) && t.phase == DestroyerPhase::StanceFurySleep
            &&& s.fury_at_start && s.judgment && !emberstomp_available(o) && !fury_available(o) ==> c
                == Command::Sleep(140) && t.phase == DestroyerPhase::FinalWrath
            &&& !s.fury_at_start && s.judgment ==> c == Command::Press(VK_T) && t.phase
                == DestroyerPhase::CleavePause
            &&& !s.judgment ==> c == Command::Press(VK_0) && t.phase == DestroyerPhase::FinalPause
            &&& t.fury_at_start == s.fury_at_start && t.judgment == s.judgment
        }),
{
}

/// Judgment is read after the Cleaves: the rotation remembers whether it is
/// ready, uses the talisman when the soul is triggered and decides on the
/// stance on the next reading, and else decides on the stance at once, as
/// above: Cleave ends the rotation only when Judgment is ready now and Fury
/// was not at the start.
pub proof fn lemma_destroyer_judgment(s: DestroyerRotation, o: DestroyerScreen)
    requires
        s.phase == DestroyerPhase::Judgment,
    ensures
        ({
            let (t, c) = destroyer_next(s, o);
            &&& t.judgment == judgment_available(o)
            &&& soul_triggered_spec(o.soul) ==> c == Command::Press(VK_R) && t.phase == DestroyerPhase::Stance
            &&& !soul_triggered_spec(o.soul) && s.fury_at_start && judgment_available(o) ==> c
                != Command::Press(VK_T) && (c == Command::Press(VK_3) || c == Command::Press(VK_E) || c
                == Command::Sleep(140))
            &&& !soul_triggered_spec(o.soul) ==> (c == Command::Press(VK_T) <==> !s.fury_at_start
                && judgment_available(o))
        }),
{
}

/// The start of a rotation: Fury's state is read and kept for the stance,
/// the Fury flag is raised when Fury is ready, and Mighty Cleave is
/// cancelled into Wrath (0) when it is ready; else the rotation goes on with
/// Wrath 3 (0) when it is ready, or reads Judgment.
pub proof fn lemma_destroyer_start(s: DestroyerRotation, o: DestroyerScreen)
    requires
        s.phase == DestroyerPhase::Start,
    ensures
        ({
            let (t, c) = destroyer_next(s, o);
            &&& t.fury_at_start == fury_available(o)
            &&& mighty_cleave_available(o) ==> c == Command::Press(VK_0) && t.phase
                == DestroyerPhase::CleaveCancelSleep
            &&& !mighty_cleave_available(o) && wrath3_available(o) ==> c == Command::Press(VK_0) && t.phase
                == DestroyerPhase::Wrath3Sleep
            &&& !mighty_cleave_available(o) && !wrath3_available(o) ==> t.judgment == judgment_available(o)
        }),
{
}

/// After Mighty Cleave (once it is no longer ready or the button is let
/// go): Fury (E) when it was flagged, else Smash (X) for a rotation that
/// deals damage when Smash is ready, else Emberstomp (3) when it is ready,
/// else Wrath 3 (0) when it is ready. While Mighty Cleave stays ready and
/// the button held, it is cancelled into Wrath again.
pub proof fn lemma_destroyer_after_mighty_cleave(s: DestroyerRotation, o: DestroyerScreen)
    requires
        s.phase == DestroyerPhase::CleaveCancelCheck,
    ensures
        ({
            let (t, c) = destroyer_next(s, o);
            &&& mighty_cleave_available(o) && o.button_held ==> c == Command::Press(VK_0)
            &&& !(mighty_cleave_available(o) && o.button_held) && s.fury_after_cleave ==> c
                == Command::Press(VK_E) && t.phase == DestroyerPhase::FurySleep
            &&& !(mighty_cleave_available(o) && o.button_held) && !s.fury_after_cleave && s.dps
                && smash_available(o) ==> c == Command::Press(VK_X)
            &&& !(mighty_cleave_available(o) && o.button_held) && !s.fury_after_cleave && !(s.dps
                && smash_available(o)) && emberstomp_available(o) ==> c == Command::Press(VK_3)
            &&& !(mighty_cleave_available(o) && o.button_held) && !s.fury_after_cleave && !(s.dps
                && smash_available(o)) && !emberstomp_available(o) && wrath3_available(o) ==> c
                == Command::Press(VK_0) && t.phase == DestroyerPhase::Wrath3Sleep
        }),
{
}

/// Whatever the phase, a step that ends the rotation with Cleave comes
/// from Judgment ready without Fury at the start, and one that enters the
/// stance with Emberstomp comes from both.
pub proof fn lemma_destroyer_cleave_ends_without_fury(s: DestroyerRotation, o: DestroyerScreen)
    ensures
        destroyer_next(s, o).0.phase == DestroyerPhase::CleavePause ==> destroyer_next(s, o).0.judgment
            && !destroyer_next(s, o).0.fury_at_start && destroyer_next(s, o).1 == Command::Press(VK_T),
        s.phase != DestroyerPhase::StanceEmber && destroyer_next(s, o).0.phase == DestroyerPhase::StanceEmber
            ==> destroyer_next(s, o).0.judgment && destroyer_next(s, o).0.fury_at_start,
{
}

/// The state after running the rotation on a sequence of screen readings,
/// one step for each.
pub open spec fn destroyer_run(s: DestroyerRotation, screens: Seq<DestroyerScreen>) -> DestroyerRotation
    decreases screens.len(),
{
    if screens.len() == 0 {
        s
    } else {
        destroyer_run(destroyer_next(s, screens[0]).0, screens.drop_first())
    }
}

/// What a rotation keeps of the Fury flag after its first step, given `fury`,
/// the flag as that step left it, and `cleave`, whether Mighty Cleave was
/// ready then: the flag stands while Mighty Cleave is cancelled, it is up
/// while Fury is used, and after that, or when there was no Mighty Cleave,
/// it is up exactly when it was up and no Mighty Cleave was used.
spec fn destroyer_fury_kept(t: DestroyerRotation, fury: bool, cleave: bool) -> bool {
    match t.phase {
        DestroyerPhase::Start => false,
        DestroyerPhase::CleaveCancelSleep | DestroyerPhase::CleaveCancelCheck => cleave
            && t.fury_after_cleave == fury,
        DestroyerPhase::FurySleep | DestroyerPhase::FuryCheck => cleave && t.fury_after_cleave,
        _ => t.fury_after_cleave == (fury && !cleave),
    }
}

proof fn lemma_destroyer_fury_kept_step(t: DestroyerRotation, o: DestroyerScreen, fury: bool, cleave: bool)
    requires
        destroyer_fury_kept(t, fury, cleave),
    ensures
        destroyer_fury_kept(destroyer_next(t, o).0, fury, cleave),
{
}

proof fn lemma_destroyer_fury_kept_run(t: DestroyerRotation, screens: Seq<DestroyerScreen>, fury: bool, cleave: bool)
    requires
        destroyer_fury_kept(t, fury, cleave),
    ensures
        destroyer_fury_kept(destroyer_run(t, screens), fury, cleave),
    decreases screens.len(),
{
    if screens.len() > 0 {
        lemma_destroyer_fury_kept_step(t, screens[0], fury, cleave);
        lemma_destroyer_fury_kept_run(destroyer_next(t, screens[0]).0, screens.drop_first(), fury, cleave);
    }
}

/// The Fury flag over a whole rotation: a rotation that starts and runs to
/// its end leaves the flag up exactly when it was up before or Fury was
/// ready at the start, and Mighty Cleave was not ready at the start. So the
/// flag is raised when Fury is seen and lowered only once a Mighty Cleave
/// has been used, whatever the screen shows in between.
pub proof fn lemma_destroyer_rotation_fury(s: DestroyerRotation, screens: Seq<DestroyerScreen>)
    requires
        s.phase == DestroyerPhase::Start,
        screens.len() > 0,
        destroyer_run(s, screens).phase == DestroyerPhase::Idle,
    ensures
        destroyer_run(s, screens).fury_after_cleave == ((s.fury_after_cleave || fury_available(screens[0]))
            && !mighty_cleave_available(screens[0])),
{
    let fury = s.fury_after_cleave || fury_available(screens[0]);
    let cleave = mighty_cleave_available(screens[0]);
    let t = destroyer_next(s, screens[0]).0;
    assert(destroyer_fury_kept(t, fury, cleave));
    lemma_destroyer_fury_kept_run(t, screens.drop_first(), fury, cleave);
}

/// Smash is used only by the rotation that deals damage: a rotation without
/// `dps` never enters the Smash part, so every step of it keeps away from
/// Smash.
pub proof fn lemma_destroyer_smash_needs_dps(s: DestroyerRotation, o: DestroyerScreen)
    requires
        !s.dps,
        s.phase != DestroyerPhase::SmashSleep,
        s.phase != DestroyerPhase::SmashCheck,
    ensures
        destroyer_next(s, o).1 != Command::Press(VK_X),
        !destroyer_next(s, o).0.dps,
        destroyer_next(s, o).0.phase != DestroyerPhase::SmashSleep,
        destroyer_next(s, o).0.phase != DestroyerPhase::SmashCheck,
{
}

/// The skill that an iframe spams.
#[derive(PartialEq, Eq, Structural, Clone, Copy, Debug)]
pub enum IframeSkill {
    /// Searing Strike, on C.
    SearingStrike,
    /// Typhoon, on Q.
    Typhoon,
}

/// What the keyboard hook does with a key pressed while a macro button is
/// held.
#[derive(PartialEq, Eq, Structural, Clone, Copy, Debug)]
pub enum IframePlan {
    /// Not an iframe key: the key goes on to the game.
    Pass,
    /// An iframe key while an iframe runs: the key is swallowed.
    Swallow,
    /// An iframe key: the key is swallowed and the skill spammed.
    Spam(IframeSkill),
}

pub open spec fn iframe_plan_spec(key: u16, iframing: bool) -> IframePlan {
    if key != VK_C && key != VK_Q {
        IframePlan::Pass
    } else if iframing {
        IframePlan::Swallow
    } else if key == VK_C {
        IframePlan::Spam(IframeSkill::SearingStrike)
    } else {
        IframePlan::Spam(IframeSkill::Typhoon)
    }
}

/// Decides what a key pressed during the rotation does; `iframing` tells
/// whether an iframe is running already.
pub fn iframe_plan(key: u16, iframing: bool) -> (plan: IframePlan)
    ensures
        plan == iframe_plan_spec(key, iframing),
{
    if key != VK_C && key != VK_Q {
        IframePlan::Pass
    } else if iframing {
        IframePlan::Swallow
    } else if key == VK_C {
        IframePlan::Spam(IframeSkill::SearingStrike)
    } else {
        IframePlan::Spam(IframeSkill::Typhoon)
    }
}

/// Whether the hook keeps the key from the game.
pub open spec fn iframe_swallows(plan: IframePlan) -> bool {
    plan != IframePlan::Pass
}

/// The spamming of an iframe skill: while the skill is ready and the macro
/// button held, the skill's key and a pause of 1 ms.
#[derive(PartialEq, Eq, Structural, Clone, Copy, Debug)]
pub struct IframeSpam {
    pub skill: IframeSkill,
    pub pausing: bool,
    pub done: bool,
}

pub open spec fn iframe_key(k: IframeSkill) -> u16 {
    match k {
        IframeSkill::SearingStrike => VK_C,
        IframeSkill::Typhoon => VK_Q,
    }
}

pub open spec fn iframe_ready(k: IframeSkill, o: DestroyerScreen) -> bool {
    match k {
        IframeSkill::SearingStrike => searing_strike_available(o),
        IframeSkill::Typhoon => typhoon_available(o),
    }
}

pub open spec fn iframe_next(s: IframeSpam, o: DestroyerScreen) -> (IframeSpam, Command) {
    if s.done {
        (s, Command::Done)
    } else if s.pausing {
        (IframeSpam { pausing: false, ..s }, Command::Sleep(1))
    } else if iframe_ready(s.skill, o) && o.button_held {
        (IframeSpam { pausing: true, ..s }, Command::Press(iframe_key(s.skill)))
    } else {
        (IframeSpam { done: true, ..s }, Command::Done)
    }
}

impl IframeSpam {
    pub fn new(skill: IframeSkill) -> (r: Self)
        ensures
            r == (IframeSpam { skill, pausing: false, done: false }),
    {
        IframeSpam { skill, pausing: false, done: false }
    }

    /// One step of the iframe on a fresh reading of the screen. Once it
    /// reports [`Command::Done`], the caller clears its iframe flag.
    pub fn step(&mut self, o: &DestroyerScreen) -> (cmd: Command)
        ensures
            (*final(self), cmd) == iframe_next(*old(self), *o),
    {
        if self.done {
            Command::Done
        } else if self.pausing {
            self.pausing = false;
            Command::Sleep(1)
        } else {
            let (pixel, color, key) = match self.skill {
                IframeSkill::SearingStrike => (o.searing_strike, 3298669u32, VK_C),
                IframeSkill::Typhoon => (o.typhoon, 5851324u32, VK_Q),
            };
            if (pixel == color || pixel == crate::color::CLR_INVALID) && o.button_held {
                self.pausing = true;
                Command::Press(key)
            } else {
                self.done = true;
                Command::Done
            }
        }
    }
}

/// Only one iframe runs at a time: while one runs, iframe keys are
/// swallowed and nothing more is spammed; other keys always pass.
pub proof fn lemma_iframe_exclusive(key: u16, iframing: bool)
    ensures
        iframing ==> !(iframe_plan_spec(key, iframing) is Spam),
        iframe_swallows(iframe_plan_spec(key, iframing)) <==> (key == VK_C || key == VK_Q),
        iframe_plan_spec(key, iframing) matches IframePlan::Spam(k) ==> iframe_key(k) == key,
{
}

} // verus!
