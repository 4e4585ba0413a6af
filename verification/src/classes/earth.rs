//! The first Earth Destroyer rotation, in its two versions: the one with
//! iframes on C and Q, and the one before it.
use vstd::prelude::*;

use super::Command;
use super::destroyer::{
    cleave_soulburn, emberstomp_available, fury_available, is_emberstomp_available, is_fury_available,
    is_wrath3_available, judgment_available, smash_available, wrath3_available, DestroyerScreen,
};
use crate::color::soul_triggered_spec;
use crate::keys::{VK_0, VK_3, VK_C, VK_E, VK_Q, VK_R, VK_T, VK_X};

verus! {

/// The two versions of the rotation.
#[derive(PartialEq, Eq, Structural, Clone, Copy, Debug)]
pub enum EarthVariant {
    /// The later version: iframes on C and Q, both forms of Cleave and of
    /// Mighty Cleave, and a longer pause after Cleave in Soulburn.
    Iframes,
    /// The first version.
    First,
}

/// What the rotation reads: the destroyer's skill bar and whether C and Q
/// are held down.
#[derive(Clone, Copy, Debug)]
pub struct EarthScreen {
    pub bar: DestroyerScreen,
    pub searing_key_held: bool,
    pub typhoon_key_held: bool,
}

/// Searing Strike has been used: its icon at (987, 950) is dark.
pub open spec fn searing_strike_unavailable(o: EarthScreen) -> bool {
    o.bar.searing_strike == 2042418
}

/// Typhoon has been used: its icon at (695, 887) is dark.
pub open spec fn typhoon_unavailable(o: EarthScreen) -> bool {
    o.bar.typhoon == 3287635
}

/// Mighty Cleave is ready; the first version knew one form of each icon.
pub open spec fn earth_mighty_cleave(v: EarthVariant, o: EarthScreen) -> bool {
    match v {
        EarthVariant::Iframes => o.bar.mighty_cleave == 1251356 || o.bar.mighty_cleave == 1250840
            || o.bar.judgment == 6843246 || o.bar.judgment == 7500149,
        EarthVariant::First => o.bar.mighty_cleave == 1251356 || o.bar.judgment == 6843246,
    }
}

/// Cleave is ready; the first version knew only its form outside Soulburn.
pub open spec fn earth_cleave(v: EarthVariant, o: EarthScreen) -> bool {
    match v {
        EarthVariant::Iframes => o.bar.cleave == 1716831 || o.bar.cleave == 1717347,
        EarthVariant::First => o.bar.cleave == 1717347,
    }
}

/// The pause after Fury used after Mighty Cleave.
pub open spec fn fury_rest(v: EarthVariant) -> u64 {
    match v {
        EarthVariant::Iframes => 130,
        EarthVariant::First => 140,
    }
}

/// The pause after Emberstomp used after Mighty Cleave.
pub open spec fn ember_rest(v: EarthVariant) -> u64 {
    match v {
        EarthVariant::Iframes => 120,
        EarthVariant::First => 140,
    }
}

#[derive(PartialEq, Eq, Structural, Clone, Copy, Debug)]
pub enum EarthPhase {
    Idle,
    Start,
    SearingCheck,
    TyphoonCheck,
    Stance,
    StanceEmber,
    StanceCleaveStrike,
    StanceCleaveSleep,
    StanceCleaveCheck,
    StanceFury,
    StanceFurySleep,
    CleavePause,
    MightyCleave,
    CancelSleep,
    CancelCheck,
    FurySleep,
    FuryCheck,
    SmashSleep,
    SmashCheck,
    EmberSleep,
    EmberCheck,
    Wrath3,
    Wrath3Sleep,
    Wrath3Check,
    Cleave,
    CleaveRest,
    FinalWrath,
    FinalPause,
}

/// The rotation. `fury_after_cleave` lives from one rotation to the next;
/// `fury_at_start`, `judgment` and `in_soulburn` hold what this rotation
/// read.
#[derive(PartialEq, Eq, Structural, Clone, Copy, Debug)]
pub struct EarthRotation {
    pub variant: EarthVariant,
    pub phase: EarthPhase,
    pub fury_after_cleave: bool,
    pub fury_at_start: bool,
    pub judgment: bool,
    pub in_soulburn: bool,
}

pub open spec fn at(s: EarthRotation, phase: EarthPhase) -> EarthRotation {
    EarthRotation { phase, ..s }
}

/// The end of the rotation: Wrath and a short pause.
pub open spec fn earth_final(s: EarthRotation) -> (EarthRotation, Command) {
    (at(s, EarthPhase::FinalPause), Command::Press(VK_0))
}

pub open spec fn earth_wrath3(s: EarthRotation, o: EarthScreen) -> (EarthRotation, Command) {
    if wrath3_available(o.bar) {
        (at(s, EarthPhase::Wrath3Sleep), Command::Press(VK_0))
    } else {
        earth_final(s)
    }
}

pub open spec fn earth_after_cleave(s: EarthRotation, o: EarthScreen) -> (EarthRotation, Command) {
    if s.fury_after_cleave && fury_available(o.bar) {
        (at(s, EarthPhase::FurySleep), Command::Press(VK_E))
    } else if smash_available(o.bar) {
        (at(s, EarthPhase::SmashSleep), Command::Press(VK_X))
    } else if emberstomp_available(o.bar) {
        (at(s, EarthPhase::EmberSleep), Command::Press(VK_3))
    } else {
        earth_wrath3(s, o)
    }
}

/// Raises the Fury flag when Fury was ready at the start, then cancels
/// Mighty Cleave while it is ready.
pub open spec fn earth_mighty_cleave_part(s: EarthRotation, o: EarthScreen) -> (EarthRotation, Command) {
    let s2 = EarthRotation { fury_after_cleave: s.fury_after_cleave || s.fury_at_start, ..s };
    if earth_mighty_cleave(s.variant, o) {
        (at(s2, EarthPhase::CancelSleep), Command::Press(VK_0))
    } else {
        earth_wrath3(s2, o)
    }
}

pub open spec fn earth_stance_fury(s: EarthRotation, o: EarthScreen) -> (EarthRotation, Command) {
    if fury_available(o.bar) {
        (at(s, EarthPhase::StanceFurySleep), Command::Press(VK_E))
    } else {
        (at(s, EarthPhase::MightyCleave), Command::Sleep(140))
    }
}

pub open spec fn earth_stance(s: EarthRotation, o: EarthScreen) -> (EarthRotation, Command) {
    if s.fury_at_start && s.judgment {
        if emberstomp_available(o.bar) {
            (at(s, EarthPhase::StanceEmber), Command::Press(VK_3))
        } else {
            earth_stance_fury(s, o)
        }
    } else if s.judgment {
        (at(s, EarthPhase::CleavePause), Command::Press(VK_T))
    } else {
        earth_mighty_cleave_part(s, o)
    }
}

/// Reads Fury and Judgment, then the talisman with the soul, then the stance.
pub open spec fn earth_read(s: EarthRotation, o: EarthScreen) -> (EarthRotation, Command) {
    let s2 = EarthRotation { fury_at_start: fury_available(o.bar), judgment: judgment_available(o.bar), ..s };
    if soul_triggered_spec(o.bar.soul) {
        (at(s2, EarthPhase::Stance), Command::Press(VK_R))
    } else {
        earth_stance(s2, o)
    }
}

pub open spec fn earth_typhoon(s: EarthRotation, o: EarthScreen) -> (EarthRotation, Command) {
    if o.typhoon_key_held {
        (at(s, EarthPhase::TyphoonCheck), Command::Press(VK_Q))
    } else {
        earth_read(s, o)
    }
}

pub open spec fn earth_start(s: EarthRotation, o: EarthScreen) -> (EarthRotation, Command) {
    match s.variant {
        EarthVariant::First => earth_read(s, o),
        EarthVariant::Iframes => if o.searing_key_held {
            (at(s, EarthPhase::SearingCheck), Command::Press(VK_C))
        } else {
            earth_typhoon(s, o)
        },
    }
}

pub open spec fn earth_next(s: EarthRotation, o: EarthScreen) -> (EarthRotation, Command) {
    match s.phase {
        EarthPhase::Idle => (s, Command::Done),
        EarthPhase::Start => earth_start(s, o),
        EarthPhase::SearingCheck => if searing_strike_unavailable(o) {
            earth_typhoon(s, o)
        } else {
            (s, Command::Press(VK_C))
        },
        EarthPhase::TyphoonCheck => if typhoon_unavailable(o) {
            earth_read(s, o)
        } else {
            (s, Command::Press(VK_Q))
        },
        EarthPhase::Stance => earth_stance(s, o),
        EarthPhase::StanceEmber => if emberstomp_available(o.bar) {
            (s, Command::Press(VK_3))
        } else {
            (at(s, EarthPhase::StanceCleaveStrike), Command::Sleep(50))
        },
        EarthPhase::StanceCleaveStrike => (at(s, EarthPhase::StanceCleaveSleep), Command::Press(VK_0)),
        EarthPhase::StanceCleaveSleep => (at(s, EarthPhase::StanceCleaveCheck), Command::Sleep(10)),
        EarthPhase::StanceCleaveCheck => if earth_mighty_cleave(s.variant, o) {
            (at(s, EarthPhase::StanceCleaveSleep), Command::Press(VK_0))
        } else {
            earth_stance_fury(s, o)
        },
        EarthPhase::StanceFury => earth_stance_fury(s, o),
        EarthPhase::StanceFurySleep => (at(s, EarthPhase::StanceFury), Command::Sleep(5)),
        EarthPhase::CleavePause => (at(s, EarthPhase::Idle), Command::Sleep(5)),
        EarthPhase::MightyCleave => earth_mighty_cleave_part(s, o),
        EarthPhase::CancelSleep => (at(s, EarthPhase::CancelCheck), Command::Sleep(10)),
        EarthPhase::CancelCheck => if earth_mighty_cleave(s.variant, o) {
            (at(s, EarthPhase::CancelSleep), Command::Press(VK_0))
        } else {
            earth_after_cleave(s, o)
        },
        EarthPhase::FurySleep => (at(s, EarthPhase::FuryCheck), Command::Sleep(5)),
        EarthPhase::FuryCheck => if fury_available(o.bar) {
            (at(s, EarthPhase::FurySleep), Command::Press(VK_E))
        } else {
            (EarthRotation { phase: EarthPhase::Wrath3, fury_after_cleave: false, ..s }, Command::Sleep(fury_rest(s.variant)))
        },
        EarthPhase::SmashSleep => (at(s, EarthPhase::SmashCheck), Command::Sleep(5)),
        EarthPhase::SmashCheck => if smash_available(o.bar) {
            (at(s, EarthPhase::SmashSleep), Command::Press(VK_X))
        } else {
            earth_wrath3(s, o)
        },
        EarthPhase::EmberSleep => (at(s, EarthPhase::EmberCheck), Command::Sleep(5)),
        EarthPhase::EmberCheck => if emberstomp_available(o.bar) {
            (at(s, EarthPhase::EmberSleep), Command::Press(VK_3))
        } else {
            (at(s, EarthPhase::Wrath3), Command::Sleep(ember_rest(s.variant)))
        },
        EarthPhase::Wrath3 => earth_wrath3(s, o),
        EarthPhase::Wrath3Sleep => (at(s, EarthPhase::Wrath3Check), Command::Sleep(10)),
        EarthPhase::Wrath3Check => if wrath3_available(o.bar) {
            (at(s, EarthPhase::Wrath3Sleep), Command::Press(VK_0))
        } else {
            (EarthRotation { phase: EarthPhase::Cleave, in_soulburn: false, ..s }, Command::Sleep(50))
        },
        EarthPhase::Cleave => if earth_cleave(s.variant, o) {
            (EarthRotation { in_soulburn: cleave_soulburn(o.bar), ..s }, Command::Press(VK_T))
        } else {
            (at(s, EarthPhase::CleaveRest), Command::Sleep(95))
        },
        EarthPhase::CleaveRest => if s.in_soulburn {
            (at(s, EarthPhase::FinalWrath), Command::Sleep(80))
        } else {
            earth_final(s)
        },
        EarthPhase::FinalWrath => earth_final(s),
        EarthPhase::FinalPause => (at(s, EarthPhase::Idle), Command::Sleep(2)),
    }
}

fn mighty_cleave_ready(v: EarthVariant, o: &EarthScreen) -> (r: bool)
    ensures
        r == earth_mighty_cleave(v, *o),
{
    match v {
        EarthVariant::Iframes => o.bar.mighty_cleave == 1251356 || o.bar.mighty_cleave == 1250840
            || o.bar.judgment == 6843246 || o.bar.judgment == 7500149,
        EarthVariant::First => o.bar.mighty_cleave == 1251356 || o.bar.judgment == 6843246,
    }
}

impl EarthRotation {
    /// A freshly loaded macro of the given version: idle, Fury not flagged.
    pub fn new(variant: EarthVariant) -> (r: Self)
        ensures
            r.variant == variant,
            r.phase == EarthPhase::Idle,
            !r.fury_after_cleave,
    {
        EarthRotation {
            variant,
            phase: EarthPhase::Idle,
            fury_after_cleave: false,
            fury_at_start: false,
            judgment: false,
            in_soulburn: false,
        }
    }

    /// Starts a rotation; the Fury flag carries over from the last one.
    pub fn begin(&mut self)
        ensures
            *final(self) == at(*old(self), EarthPhase::Start),
    {
        self.phase = EarthPhase::Start;
    }

    fn go(&mut self, phase: EarthPhase)
        ensures
            *final(self) == at(*old(self), phase),
    {
        self.phase = phase;
    }

    fn finish(&mut self) -> (cmd: Command)
        ensures
            (*final(self), cmd) == earth_final(*old(self)),
    {
        self.go(EarthPhase::FinalPause);
        Command::Press(VK_0)
    }

    fn wrath3(&mut self, o: &EarthScreen) -> (cmd: Command)
        ensures
            (*final(self), cmd) == earth_wrath3(*old(self), *o),
    {
        if is_wrath3_available(&o.bar) {
            self.go(EarthPhase::Wrath3Sleep);
            Command::Press(VK_0)
        } else {
            self.finish()
        }
    }

    fn after_cleave(&mut self, o: &EarthScreen) -> (cmd: Command)
        ensures
            (*final(self), cmd) == earth_after_cleave(*old(self), *o),
    {
        if self.fury_after_cleave && is_fury_available(&o.bar) {
            self.go(EarthPhase::FurySleep);
            Command::Press(VK_E)
        } else if o.bar.smash == 1252144 {
            self.go(EarthPhase::SmashSleep);
            Command::Press(VK_X)
        } else if is_emberstomp_available(&o.bar) {
            self.go(EarthPhase::EmberSleep);
            Command::Press(VK_3)
        } else {
            self.wrath3(o)
        }
    }

    fn mighty_cleave_part(&mut self, o: &EarthScreen) -> (cmd: Command)
        ensures
            (*final(self), cmd) == earth_mighty_cleave_part(*old(self), *o),
    {
        self.fury_after_cleave = self.fury_after_cleave || self.fury_at_start;
        if mighty_cleave_ready(self.variant, o) {
            self.go(EarthPhase::CancelSleep);
            Command::Press(VK_0)
        } else {
            self.wrath3(o)
        }
    }

    fn stance_fury(&mut self, o: &EarthScreen) -> (cmd: Command)
        ensures
            (*final(self), cmd) == earth_stance_fury(*old(self), *o),
    {
        if is_fury_available(&o.bar) {
            self.go(EarthPhase::StanceFurySleep);
            Command::Press(VK_E)
        } else {
            self.go(EarthPhase::MightyCleave);
            Command::Sleep(140)
        }
    }

    fn stance(&mut self, o: &EarthScreen) -> (cmd: Command)
        ensures
            (*final(self), cmd) == earth_stance(*old(self), *o),
    {
        if self.fury_at_start && self.judgment {
            if is_emberstomp_available(&o.bar) {
                self.go(EarthPhase::StanceEmber);
                Command::Press(VK_3)
            } else {
                self.stance_fury(o)
            }
        } else if self.judgment {
            self.go(EarthPhase::CleavePause);
            Command::Press(VK_T)
        } else {
            self.mighty_cleave_part(o)
        }
    }

    fn read(&mut self, o: &EarthScreen) -> (cmd: Command)
        ensures
            (*final(self), cmd) == earth_read(*old(self), *o),
    {
        self.fury_at_start = is_fury_available(&o.bar);
        self.judgment = o.bar.judgment == 6909564;
        if crate::color::general_is_soul_triggered(o.bar.soul) {
            self.go(EarthPhase::Stance);
            Command::Press(VK_R)
        } else {
            self.stance(o)
        }
    }

    fn typhoon(&mut self, o: &EarthScreen) -> (cmd: Command)
        ensures
            (*final(self), cmd) == earth_typhoon(*old(self), *o),
    {
        if o.typhoon_key_held {
            self.go(EarthPhase::TyphoonCheck);
            Command::Press(VK_Q)
        } else {
            self.read(o)
        }
    }

    fn start_step(&mut self, o: &EarthScreen) -> (cmd: Command)
        ensures
            (*final(self), cmd) == earth_start(*old(self), *o),
    {
        match self.variant {
            EarthVariant::First => self.read(o),
            EarthVariant::Iframes => {
                if o.searing_key_held {
                    self.go(EarthPhase::SearingCheck);
                    Command::Press(VK_C)
                } else {
                    self.typhoon(o)
                }
            },
        }
    }

    /// One step of the rotation on a fresh reading of the screen: what to do
    /// next, and the state after it.
    pub fn rotation(&mut self, o: &EarthScreen) -> (cmd: Command)
        ensures
            (*final(self), cmd) == earth_next(*old(self), *o),
    {
        match self.phase {
            EarthPhase::Idle => Command::Done,
            EarthPhase::Start => self.start_step(o),
            EarthPhase::SearingCheck => {
                if o.bar.searing_strike == 2042418 {
                    self.typhoon(o)
                } else {
                    Command::Press(VK_C)
                }
            },
            EarthPhase::TyphoonCheck => {
                if o.bar.typhoon == 3287635 {
                    self.read(o)
                } else {
                    Command::Press(VK_Q)
                }
            },
            EarthPhase::Stance => self.stance(o),
            EarthPhase::StanceEmber => {
                if is_emberstomp_available(&o.bar) {
                    Command::Press(VK_3)
                } else {
                    self.go(EarthPhase::StanceCleaveStrike);
                    Command::Sleep(50)
                }
            },
            EarthPhase::StanceCleaveStrike => {
                self.go(EarthPhase::StanceCleaveSleep);
                Command::Press(VK_0)
            },
            EarthPhase::StanceCleaveSleep => {
                self.go(EarthPhase::StanceCleaveCheck);
                Command::Sleep(10)
            },
            EarthPhase::StanceCleaveCheck => {
                if mighty_cleave_ready(self.variant, o) {
                    self.go(EarthPhase::StanceCleaveSleep);
                    Command::Press(VK_0)
                } else {
                    self.stance_fury(o)
                }
            },
            EarthPhase::StanceFury => self.stance_fury(o),
            EarthPhase::StanceFurySleep => {
                self.go(EarthPhase::StanceFury);
                Command::Sleep(5)
            },
            EarthPhase::CleavePause => {
                self.go(EarthPhase::Idle);
                Command::Sleep(5)
            },
            EarthPhase::MightyCleave => self.mighty_cleave_part(o),
            EarthPhase::CancelSleep => {
                self.go(EarthPhase::CancelCheck);
                Command::Sleep(10)
            },
            EarthPhase::CancelCheck => {
                if mighty_cleave_ready(self.variant, o) {
                    self.go(EarthPhase::CancelSleep);
                    Command::Press(VK_0)
                } else {
                    self.after_cleave(o)
                }
            },
            EarthPhase::FurySleep => {
                self.go(EarthPhase::FuryCheck);
                Command::Sleep(5)
            },
            EarthPhase::FuryCheck => {
                if is_fury_available(&o.bar) {
                    self.go(EarthPhase::FurySleep);
                    Command::Press(VK_E)
                } else {
                    self.fury_after_cleave = false;
                    self.go(EarthPhase::Wrath3);
                    let rest: u64 = match self.variant {
                        EarthVariant::Iframes => 130,
                        EarthVariant::First => 140,
                    };
                    Command::Sleep(rest)
                }
            },
            EarthPhase::SmashSleep => {
                self.go(EarthPhase::SmashCheck);
                Command::Sleep(5)
            },
            EarthPhase::SmashCheck => {
                if o.bar.smash == 1252144 {
                    self.go(EarthPhase::SmashSleep);
                    Command::Press(VK_X)
                } else {
                    self.wrath3(o)
                }
            },
            EarthPhase::EmberSleep => {
                self.go(EarthPhase::EmberCheck);
                Command::Sleep(5)
            },
            EarthPhase::EmberCheck => {
                if is_emberstomp_available(&o.bar) {
                    self.go(EarthPhase::EmberSleep);
                    Command::Press(VK_3)
                } else {
                    self.go(EarthPhase::Wrath3);
                    let rest: u64 = match self.variant {
                        EarthVariant::Iframes => 120,
                        EarthVariant::First => 140,
                    };
                    Command::Sleep(rest)
                }
            },
            EarthPhase::Wrath3 => self.wrath3(o),
            EarthPhase::Wrath3Sleep => {
                self.go(EarthPhase::Wrath3Check);
                Command::Sleep(10)
            },
            EarthPhase::Wrath3Check => {
                if is_wrath3_available(&o.bar) {
                    self.go(EarthPhase::Wrath3Sleep);
                    Command::Press(VK_0)
                } else {
                    self.in_soulburn = false;
                    self.go(EarthPhase::Cleave);
                    Command::Sleep(50)
                }
            },
            EarthPhase::Cleave => {
                let ready = match self.variant {
                    EarthVariant::Iframes => o.bar.cleave == 1716831 || o.bar.cleave == 1717347,
                    EarthVariant::First => o.bar.cleave == 1717347,
                };
                if ready {
                    self.in_soulburn = o.bar.cleave == 1716831;
                    Command::Press(VK_T)
                } else {
                    self.go(EarthPhase::CleaveRest);
                    Command::Sleep(95)
                }
            },
            EarthPhase::CleaveRest => {
                if self.in_soulburn {
                    self.go(EarthPhase::FinalWrath);
                    Command::Sleep(80)
                } else {
                    self.finish()
                }
            },
            EarthPhase::FinalWrath => self.finish(),
            EarthPhase::FinalPause => {
                self.go(EarthPhase::Idle);
                Command::Sleep(2)
            },
        }
    }
}

/// The rotation only presses its own keys: its iframe skills (C, Q), Wrath
/// (0), Fury (E), Smash (X), Emberstomp (3), Cleave (T) and the talisman (R).
pub proof fn lemma_earth_keys(s: EarthRotation, o: EarthScreen)
    ensures
        earth_next(s, o).1 matches Command::Press(k) ==> k == VK_C || k == VK_Q || k == VK_0 || k == VK_E
            || k == VK_X || k == VK_3 || k == VK_T || k == VK_R,
{
}

/// The first version never uses an iframe, and never pauses for Soulburn.
pub proof fn lemma_earth_first_has_no_iframes(s: EarthRotation, o: EarthScreen)
    requires
        s.variant == EarthVariant::First,
        s.phase != EarthPhase::SearingCheck,
        s.phase != EarthPhase::TyphoonCheck,
        !s.in_soulburn,
    ensures
        earth_next(s, o).1 != Command::Press(VK_C),
        earth_next(s, o).1 != Command::Press(VK_Q),
        earth_next(s, o).1 != Command::Sleep(80),
        earth_next(s, o).0.variant == EarthVariant::First,
        earth_next(s, o).0.phase != EarthPhase::SearingCheck,
        earth_next(s, o).0.phase != EarthPhase::TyphoonCheck,
        !earth_next(s, o).0.in_soulburn,
{
}

/// The start of a rotation. The version with iframes first spams Searing
/// Strike (C) while C is held, then Typhoon (Q) while Q is held, each until
/// its icon turns dark; then, as the first version does at once, it reads
/// Fury and Judgment and uses the talisman (R) when the soul is triggered.
pub proof fn lemma_earth_iframes_first(s: EarthRotation, o: EarthScreen)
    ensures
        s.phase == EarthPhase::Start && s.variant == EarthVariant::Iframes && o.searing_key_held ==> earth_next(
            s,
            o,
        ).1 == Command::Press(VK_C) && earth_next(s, o).0.phase == EarthPhase::SearingCheck,
        s.phase == EarthPhase::Start && s.variant == EarthVariant::Iframes && !o.searing_key_held
            && o.typhoon_key_held ==> earth_next(s, o).1 == Command::Press(VK_Q),
        s.phase == EarthPhase::SearingCheck && !searing_strike_unavailable(o) ==> earth_next(s, o).1
            == Command::Press(VK_C),
        s.phase == EarthPhase::SearingCheck && searing_strike_unavailable(o) && o.typhoon_key_held
            ==> earth_next(s, o).1 == Command::Press(VK_Q) && earth_next(s, o).0.phase == EarthPhase::TyphoonCheck,
        s.phase == EarthPhase::TyphoonCheck && !typhoon_unavailable(o) ==> earth_next(s, o).1
            == Command::Press(VK_Q),
        (s.phase == EarthPhase::Start && (s.variant == EarthVariant::First || (!o.searing_key_held
            && !o.typhoon_key_held))) || (s.phase == EarthPhase::TyphoonCheck && typhoon_unavailable(o))
            ==> earth_next(s, o).0.fury_at_start == fury_available(o.bar) && earth_next(s, o).0.judgment
            == judgment_available(o.bar) && (earth_next(s, o).1 == Command::Press(VK_R) <==> soul_triggered_spec(
            o.bar.soul,
        )),
{
}

/// Entering the Fury stance: with Fury and Judgment both ready when read,
/// the stance is entered with Emberstomp (3) when it is ready, else with
/// Fury (E) when it is ready, else after a pause of 140 ms; with Judgment
/// alone, Cleave (T) ends the rotation; with no Judgment, the Mighty Cleave
/// part comes.
pub proof fn lemma_earth_fury_stance(s: EarthRotation, o: EarthScreen)
    requires
        s.phase == EarthPhase::Stance,
    ensures
        ({
            let (t, c) = earth_next(s, o);
            &&& s.fury_at_start && s.judgment && emberstomp_available(o.bar) ==> c == Command::Press(VK_3)
                && t.phase == EarthPhase::StanceEmber
            &&& s.fury_at_start && s.judgment && !emberstomp_available(o.bar) && fury_available(o.bar) ==> c
                == Command::Press(VK_E) && t.phase == EarthPhase::StanceFurySleep
            &&& s.fury_at_start && s.judgment && !emberstomp_available(o.bar) && !fury_available(o.bar) ==> c
                == Command::Sleep(140)
            &&& !s.fury_at_start && s.judgment ==> c == Command::Press(VK_T) && t.phase == EarthPhase::CleavePause
            &&& !s.judgment ==> c != Command::Press(VK_T) && t.fury_after_cleave == (s.fury_after_cleave
                || s.fury_at_start)
        }),
{
}

/// After Mighty Cleave: Fury (E) when it was flagged and is ready, else
/// Smash (X) when it is ready, else Emberstomp (3) when it is ready, else
/// Wrath 3 (0) when it is ready, else the final Wrath (0).
pub proof fn lemma_earth_after_mighty_cleave(s: EarthRotation, o: EarthScreen)
    requires
        s.phase == EarthPhase::CancelCheck,
        !earth_mighty_cleave(s.variant, o),
    ensures
        ({
            let (t, c) = earth_next(s, o);
            &&& s.fury_after_cleave && fury_available(o.bar) ==> c == Command::Press(VK_E) && t.phase
                == EarthPhase::FurySleep
            &&& !(s.fury_after_cleave && fury_available(o.bar)) && smash_available(o.bar) ==> c
                == Command::Press(VK_X)
            &&& !(s.fury_after_cleave && fury_available(o.bar)) && !smash_available(o.bar)
                && emberstomp_available(o.bar) ==> c == Command::Press(VK_3)
            &&& !(s.fury_after_cleave && fury_available(o.bar)) && !smash_available(o.bar)
                && !emberstomp_available(o.bar) ==> c == Command::Press(VK_0)
        }),
{
}

/// The Fury flag is lowered only once Fury has been used after Mighty
/// Cleave, and raised only when Fury was ready at the start.
pub proof fn lemma_earth_fury_flag(s: EarthRotation, o: EarthScreen)
    ensures
        !s.fury_after_cleave && earth_next(s, o).0.fury_after_cleave ==> earth_next(s, o).0.fury_at_start,
        s.fury_after_cleave && !earth_next(s, o).0.fury_after_cleave ==> s.phase == EarthPhase::FuryCheck,
{
}

} // verus!
