//! The class macros: detecting the class on screen and running its skill
//! rotation as a step machine.
//!
//! A rotation reads the screen, presses keys and waits, in turn. Here each
//! rotation is a function from its state and a fresh reading of the screen
//! to its next state and one [`Command`]; the caller performs the command,
//! reads the screen again and steps on until the command is
//! [`Command::Done`].
use vstd::prelude::*;

use crate::color::CLR_INVALID;

pub mod assassin;
pub mod destroyer;
pub mod destroyer_third;
pub mod earth;
pub mod simple;
pub mod warlock;

verus! {

/// One thing for the caller of a step machine to do.
#[derive(PartialEq, Eq, Structural, Clone, Copy, Debug)]
pub enum Command {
    /// Press and release the key.
    Press(u16),
    /// Release the key only.
    Release(u16),
    /// Wait this many milliseconds.
    Sleep(u64),
    /// Block (`true`) or unblock (`false`) the user's keyboard and mouse input.
    BlockInput(bool),
    /// The machine has finished.
    Done,
}

/// The classes that the macro knows.
#[derive(PartialEq, Eq, Structural, Clone, Copy, Debug)]
pub enum ClassKind {
    Assassin,
    BladeMaster,
    Default,
    Destroyer,
    DestroyerThird,
    Warlock,
}

impl ClassKind {
    /// The name shown when the class is loaded.
    pub fn name(&self) -> (name: &'static str)
        ensures
            *self == ClassKind::Assassin ==> name@ == "Phantom Assassin"@,
            *self == ClassKind::BladeMaster ==> name@ == "Fire Blade Master"@,
            *self == ClassKind::Default ==> name@ == "Default"@,
            *self == ClassKind::Destroyer ==> name@ == "Earth Destroyer"@,
            *self == ClassKind::DestroyerThird ==> name@ == "Third Spec Destroyer"@,
            *self == ClassKind::Warlock ==> name@ == "Scourge Warlock"@,
    {
        match self {
            ClassKind::Assassin => "Phantom Assassin",
            ClassKind::BladeMaster => "Fire Blade Master",
            ClassKind::Default => "Default",
            ClassKind::Destroyer => "Earth Destroyer",
            ClassKind::DestroyerThird => "Third Spec Destroyer",
            ClassKind::Warlock => "Scourge Warlock",
        }
    }
}

/// The pixels that tell which class is on screen: each class shows its
/// own icon in the skill bar.
#[derive(Clone, Copy, Debug)]
pub struct ClassScreen {
    /// The pixel at (891, 888).
    pub blade_master: u32,
    /// The pixel at (741, 887).
    pub assassin: u32,
    /// The pixel at (823, 902), which tells both destroyer specialisations.
    pub destroyer: u32,
    /// The pixel at (891, 887).
    pub warlock: u32,
}

/// Whether the screen shows the class. The default macro fits every class.
pub open spec fn class_active_spec(class: ClassKind, screen: ClassScreen) -> bool {
    match class {
        ClassKind::Assassin => screen.assassin == 6064411,
        ClassKind::BladeMaster => screen.blade_master == 14591851,
        ClassKind::Default => true,
        ClassKind::Destroyer => screen.destroyer == 12886080,
        ClassKind::DestroyerThird => screen.destroyer == 10787442,
        ClassKind::Warlock => screen.warlock == 1581715,
    }
}

/// Whether the screen shows the class.
pub fn class_active(class: ClassKind, screen: &ClassScreen) -> (active: bool)
    ensures
        active == class_active_spec(class, *screen),
{
    match class {
        ClassKind::Assassin => screen.assassin == 6064411,
        ClassKind::BladeMaster => screen.blade_master == 14591851,
        ClassKind::Default => true,
        ClassKind::Destroyer => screen.destroyer == 12886080,
        ClassKind::DestroyerThird => screen.destroyer == 10787442,
        ClassKind::Warlock => screen.warlock == 1581715,
    }
}

/// The class that detection picks: the first candidate shown on screen, or
/// the fallback when none is.
pub open spec fn detect_spec(candidates: Seq<ClassKind>, screen: ClassScreen, fallback: ClassKind) -> ClassKind
    decreases candidates.len(),
{
    if candidates.len() == 0 {
        fallback
    } else if class_active_spec(candidates[0], screen) {
        candidates[0]
    } else {
        detect_spec(candidates.drop_first(), screen, fallback)
    }
}

/// Detects the class on screen, trying the candidates in order.
pub fn detect_class(candidates: &Vec<ClassKind>, screen: &ClassScreen, fallback: ClassKind) -> (class: ClassKind)
    ensures
        class == detect_spec(candidates@, *screen, fallback),
{
    let mut i: usize = 0;
    assert(candidates@.skip(0) =~= candidates@);
    while i < candidates.len()
        invariant
            i <= candidates@.len(),
            detect_spec(candidates@, *screen, fallback) == detect_spec(candidates@.skip(i as int), *screen, fallback),
        decreases candidates@.len() - i,
    {
        assert(candidates@.skip(i as int)[0] == candidates@[i as int]);
        assert(candidates@.skip(i as int).drop_first() =~= candidates@.skip(i + 1));
        if class_active(candidates[i], screen) {
            return candidates[i];
        }
        i = i + 1;
    }
    assert(candidates@.skip(i as int).len() == 0);
    fallback
}

/// Detection picks a class shown on screen whenever one of the candidates
/// is shown, and the fallback only when none is.
pub proof fn lemma_detect_picks_active(candidates: Seq<ClassKind>, screen: ClassScreen, fallback: ClassKind)
    ensures
        (exists|i: int| 0 <= i < candidates.len() && class_active_spec(#[trigger] candidates[i], screen))
            ==> candidates.contains(detect_spec(candidates, screen, fallback))
            && class_active_spec(detect_spec(candidates, screen, fallback), screen),
        (forall|i: int| 0 <= i < candidates.len() ==> !class_active_spec(#[trigger] candidates[i], screen))
            ==> detect_spec(candidates, screen, fallback) == fallback,
    decreases candidates.len(),
{
    if candidates.len() > 0 {
        let rest = candidates.drop_first();
        lemma_detect_picks_active(rest, screen, fallback);
        if !class_active_spec(candidates[0], screen) {
            if exists|i: int| 0 <= i < candidates.len() && class_active_spec(#[trigger] candidates[i], screen) {
                let i = choose|i: int| 0 <= i < candidates.len() && class_active_spec(#[trigger] candidates[i], screen);
                assert(rest[i - 1] == candidates[i]);
                let r = detect_spec(rest, screen, fallback);
                let k = choose|k: int| 0 <= k < rest.len() && rest[k] == r;
                assert(candidates[k + 1] == r);
            }
            assert forall|i: int| 0 <= i < rest.len() && (forall|j: int| 0 <= j < candidates.len() ==> !class_active_spec(#[trigger] candidates[j], screen))
                implies !class_active_spec(rest[i], screen) by {
                assert(rest[i] == candidates[i + 1]);
            }
        } else {
            assert(candidates[0] == detect_spec(candidates, screen, fallback));
        }
    }
}

/// A pixel that shows a skill as ready: the expected colour, or
/// `CLR_INVALID`, which `GetPixel` reports while the screen cannot be read.
pub open spec fn ready_or_unreadable(pixel: u32, color: u32) -> bool {
    pixel == color || pixel == CLR_INVALID
}

} // verus!
