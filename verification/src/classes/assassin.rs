//! The Phantom Assassin macro.
use vstd::prelude::*;

use super::{ready_or_unreadable, Command};
use crate::color::soul_triggered_spec;
use crate::keys::{VK_0, VK_4, VK_C, VK_E, VK_Q, VK_R, VK_T};

verus! {

/// The three skills whose key, held down, asks for an iframe.
#[derive(PartialEq, Eq, Structural, Clone, Copy, Debug)]
pub enum AssassinSkill {
    /// Night Fury, on C.
    NightFury,
    /// Shunpo, on E.
    Shunpo,
    /// Shadow Dance, on Q.
    ShadowDance,
}

/// What the assassin rotation reads.
#[derive(Clone, Copy, Debug)]
pub struct AssassinScreen {
    /// The Night Fury icon at (987, 951).
    pub night_fury: u32,
    /// The Shunpo icon at (742, 887).
    pub shunpo: u32,
    /// The Shadow Dance icon at (695, 888).
    pub shadow_dance: u32,
    /// The soul indicator at (592, 811).
    pub soul: u32,
    /// Whether C is held down.
    pub night_fury_held: bool,
    /// Whether E is held down.
    pub shunpo_held: bool,
    /// Whether Q is held down.
    pub shadow_dance_held: bool,
}

/// The key of a skill.
pub open spec fn skill_key(k: AssassinSkill) -> u16 {
    match k {
        AssassinSkill::NightFury => VK_C,
        AssassinSkill::Shunpo => VK_E,
        AssassinSkill::ShadowDance => VK_Q,
    }
}

/// Whether the key of the skill is held down.
pub open spec fn skill_held(o: AssassinScreen, k: AssassinSkill) -> bool {
    match k {
        AssassinSkill::NightFury => o.night_fury_held,
        AssassinSkill::Shunpo => o.shunpo_held,
        AssassinSkill::ShadowDance => o.shadow_dance_held,
    }
}

/// Whether the skill is ready (or the screen cannot be read).
pub open spec fn skill_available(o: AssassinScreen, k: AssassinSkill) -> bool {
    match k {
        AssassinSkill::NightFury => ready_or_unreadable(o.night_fury, 8940159),
        AssassinSkill::Shunpo => ready_or_unreadable(o.shunpo, 4149014),
        AssassinSkill::ShadowDance => ready_or_unreadable(o.shadow_dance, 7631476),
    }
}

#[derive(PartialEq, Eq, Structural, Clone, Copy, Debug)]
pub enum AssassinPhase {
    Idle,
    /// About to look whether the key of this skill, or of one after it, is held.
    Check(AssassinSkill),
    IframeSleep(AssassinSkill),
    IframeBlock(AssassinSkill),
    IframeSpam(AssassinSkill),
    /// The iframes are done; the talisman is next.
    Talisman,
    Strike4,
    Pause4,
    StrikeT,
    PauseT,
    Strike0,
    Pause0,
}

/// The assassin rotation. For each of Night Fury, Shunpo and Shadow Dance
/// whose key the player holds, the skill is spammed with the user's input
/// blocked until it is used; then the talisman with the soul (with `dps`),
/// then 4, T and 0, each followed by a short pause.
#[derive(PartialEq, Eq, Structural, Clone, Copy, Debug)]
pub struct AssassinRotation {
    pub phase: AssassinPhase,
    pub dps: bool,
}

/// The phase after an iframe of the skill.
pub open spec fn after_iframe(k: AssassinSkill) -> AssassinPhase {
    match k {
        AssassinSkill::NightFury => AssassinPhase::Check(AssassinSkill::Shunpo),
        AssassinSkill::Shunpo => AssassinPhase::Check(AssassinSkill::ShadowDance),
        AssassinSkill::ShadowDance => AssassinPhase::Talisman,
    }
}

pub open spec fn assassin_talisman(s: AssassinRotation, o: AssassinScreen) -> (AssassinRotation, Command) {
    if s.dps && soul_triggered_spec(o.soul) {
        (AssassinRotation { phase: AssassinPhase::Strike4, ..s }, Command::Press(VK_R))
    } else {
        (AssassinRotation { phase: AssassinPhase::Pause4, ..s }, Command::Press(VK_4))
    }
}

/// Starts the iframe of the skill: its key is released first.
pub open spec fn assassin_iframe(s: AssassinRotation, k: AssassinSkill) -> (AssassinRotation, Command) {
    (AssassinRotation { phase: AssassinPhase::IframeSleep(k), ..s }, Command::Release(skill_key(k)))
}

pub open spec fn check_shadow_dance(s: AssassinRotation, o: AssassinScreen) -> (AssassinRotation, Command) {
    if o.shadow_dance_held {
        assassin_iframe(s, AssassinSkill::ShadowDance)
    } else {
        assassin_talisman(s, o)
    }
}

pub open spec fn check_shunpo(s: AssassinRotation, o: AssassinScreen) -> (AssassinRotation, Command) {
    if o.shunpo_held {
        assassin_iframe(s, AssassinSkill::Shunpo)
    } else {
        check_shadow_dance(s, o)
    }
}

pub open spec fn check_night_fury(s: AssassinRotation, o: AssassinScreen) -> (AssassinRotation, Command) {
    if o.night_fury_held {
        assassin_iframe(s, AssassinSkill::NightFury)
    } else {
        check_shunpo(s, o)
    }
}

pub open spec fn assassin_check(s: AssassinRotation, o: AssassinScreen, k: AssassinSkill) -> (AssassinRotation, Command) {
    match k {
        AssassinSkill::NightFury => check_night_fury(s, o),
        AssassinSkill::Shunpo => check_shunpo(s, o),
        AssassinSkill::ShadowDance => check_shadow_dance(s, o),
    }
}

pub open spec fn assassin_next(s: AssassinRotation, o: AssassinScreen) -> (AssassinRotation, Command) {
    match s.phase {
        AssassinPhase::Idle => (s, Command::Done),
        AssassinPhase::Check(k) => assassin_check(s, o, k),
        AssassinPhase::IframeSleep(k) => (AssassinRotation { phase: AssassinPhase::IframeBlock(k), ..s }, Command::Sleep(10)),
        AssassinPhase::IframeBlock(k) => (AssassinRotation { phase: AssassinPhase::IframeSpam(k), ..s }, Command::BlockInput(true)),
        AssassinPhase::IframeSpam(k) => if skill_available(o, k) {
            (s, Command::Press(skill_key(k)))
        } else {
            (AssassinRotation { phase: after_iframe(k), ..s }, Command::BlockInput(false))
        },
        AssassinPhase::Talisman => assassin_talisman(s, o),
        AssassinPhase::Strike4 => (AssassinRotation { phase: AssassinPhase::Pause4, ..s }, Command::Press(VK_4)),
        AssassinPhase::Pause4 => (AssassinRotation { phase: AssassinPhase::StrikeT, ..s }, Command::Sleep(2)),
        AssassinPhase::StrikeT => (AssassinRotation { phase: AssassinPhase::PauseT, ..s }, Command::Press(VK_T)),
        AssassinPhase::PauseT => (AssassinRotation { phase: AssassinPhase::Strike0, ..s }, Command::Sleep(2)),
        AssassinPhase::Strike0 => (AssassinRotation { phase: AssassinPhase::Pause0, ..s }, Command::Press(VK_0)),
        AssassinPhase::Pause0 => (AssassinRotation { phase: AssassinPhase::Idle, ..s }, Command::Sleep(2)),
    }
}

fn key_of(k: AssassinSkill) -> (key: u16)
    ensures
        key == skill_key(k),
{
    match k {
        AssassinSkill::NightFury => VK_C,
        AssassinSkill::Shunpo => VK_E,
        AssassinSkill::ShadowDance => VK_Q,
    }
}

fn available(o: &AssassinScreen, k: AssassinSkill) -> (ready: bool)
    ensures
        ready == skill_available(*o, k),
{
    let (pixel, color) = match k {
        AssassinSkill::NightFury => (o.night_fury, 8940159u32),
        AssassinSkill::Shunpo => (o.shunpo, 4149014u32),
        AssassinSkill::ShadowDance => (o.shadow_dance, 7631476u32),
    };
    pixel == color || pixel == crate::color::CLR_INVALID
}

impl AssassinRotation {
    /// A rotation about to start: it first looks whether Night Fury's key is held.
    pub open spec fn start_spec(dps: bool) -> Self {
        AssassinRotation { phase: AssassinPhase::Check(AssassinSkill::NightFury), dps }
    }

    /// A rotation about to start.
    pub fn start(dps: bool) -> (r: Self)
        ensures
            r == Self::start_spec(dps),
    {
        AssassinRotation { phase: AssassinPhase::Check(AssassinSkill::NightFury), dps }
    }

    fn talisman(&mut self, o: &AssassinScreen) -> (cmd: Command)
        ensures
            (*final(self), cmd) == assassin_talisman(*old(self), *o),
    {
        if self.dps && crate::color::general_is_soul_triggered(o.soul) {
            self.phase = AssassinPhase::Strike4;
            Command::Press(VK_R)
        } else {
            self.phase = AssassinPhase::Pause4;
            Command::Press(VK_4)
        }
    }

    fn iframe(&mut self, k: AssassinSkill) -> (cmd: Command)
        ensures
            (*final(self), cmd) == assassin_iframe(*old(self), k),
    {
        self.phase = AssassinPhase::IframeSleep(k);
        Command::Release(key_of(k))
    }

    fn check(&mut self, o: &AssassinScreen, k: AssassinSkill) -> (cmd: Command)
        ensures
            (*final(self), cmd) == assassin_check(*old(self), *o, k),
    {
        if k == AssassinSkill::NightFury && o.night_fury_held {
            return self.iframe(AssassinSkill::NightFury);
        }
        if k != AssassinSkill::ShadowDance && o.shunpo_held {
            return self.iframe(AssassinSkill::Shunpo);
        }
        if o.shadow_dance_held {
            return self.iframe(AssassinSkill::ShadowDance);
        }
        self.talisman(o)
    }

    /// One step of the rotation on a fresh reading of the screen: what to do
    /// next, and the state after it.
    pub fn rotation(&mut self, o: &AssassinScreen) -> (cmd: Command)
        ensures
            (*final(self), cmd) == assassin_next(*old(self), *o),
    {
        match self.phase {
            AssassinPhase::Idle => Command::Done,
            AssassinPhase::Check(k) => self.check(o, k),
            AssassinPhase::IframeSleep(k) => {
                self.phase = AssassinPhase::IframeBlock(k);
                Command::Sleep(10)
            },
            AssassinPhase::IframeBlock(k) => {
                self.phase = AssassinPhase::IframeSpam(k);
                Command::BlockInput(true)
            },
            AssassinPhase::IframeSpam(k) => {
                if available(o, k) {
                    Command::Press(key_of(k))
                } else {
                    self.phase = match k {
                        AssassinSkill::NightFury => AssassinPhase::Check(AssassinSkill::Shunpo),
                        AssassinSkill::Shunpo => AssassinPhase::Check(AssassinSkill::ShadowDance),
                        AssassinSkill::ShadowDance => AssassinPhase::Talisman,
                    };
                    Command::BlockInput(false)
                }
            },
            AssassinPhase::Talisman => self.talisman(o),
            AssassinPhase::Strike4 => {
                self.phase = AssassinPhase::Pause4;
                Command::Press(VK_4)
            },
            AssassinPhase::Pause4 => {
                self.phase = AssassinPhase::StrikeT;
                Command::Sleep(2)
            },
            AssassinPhase::StrikeT => {
                self.phase = AssassinPhase::PauseT;
                Command::Press(VK_T)
            },
            AssassinPhase::PauseT => {
                self.phase = AssassinPhase::Strike0;
                Command::Sleep(2)
            },
            AssassinPhase::Strike0 => {
                self.phase = AssassinPhase::Pause0;
                Command::Press(VK_0)
            },
            AssassinPhase::Pause0 => {
                self.phase = AssassinPhase::Idle;
                Command::Sleep(2)
            },
        }
    }
}

/// The assassin macro only presses its own keys: its three iframe skills,
/// the talisman, 4, T and 0.
pub proof fn lemma_assassin_keys(s: AssassinRotation, o: AssassinScreen)
    ensures
        assassin_next(s, o).1 matches Command::Press(k) ==> k == VK_C || k == VK_E || k == VK_Q || k == VK_R
            || k == VK_4 || k == VK_T || k == VK_0,
{
}

/// An iframe is asked for only by holding the skill's key: the key released
/// at the start of an iframe is the key of a skill held down, and the
/// input is blocked only right before that skill is spammed.
pub proof fn lemma_assassin_iframe_on_hold(s: AssassinRotation, o: AssassinScreen)
    ensures
        assassin_next(s, o).1 matches Command::Release(key) ==> (exists|k: AssassinSkill|
            skill_key(k) == key && skill_held(o, k) && #[trigger] assassin_next(s, o).0.phase == AssassinPhase::IframeSleep(k)),
        assassin_next(s, o).1 == Command::BlockInput(true) ==> assassin_next(s, o).0.phase is IframeSpam,
        assassin_next(s, o).1 == Command::BlockInput(false) ==> s.phase is IframeSpam,
{
    if let Command::Release(key) = assassin_next(s, o).1 {
        if let AssassinPhase::IframeSleep(k) = assassin_next(s, o).0.phase {
            assert(skill_key(k) == key && skill_held(o, k));
        }
    }
}

/// The state after running the rotation on a sequence of screen readings,
/// one step for each.
pub open spec fn assassin_run(s: AssassinRotation, screens: Seq<AssassinScreen>) -> AssassinRotation
    decreases screens.len(),
{
    if screens.len() == 0 {
        s
    } else {
        assassin_next(assassin_run(s, screens.drop_last()), screens.last()).0
    }
}

/// The commands given while running the rotation on a sequence of screen
/// readings, one for each.
pub open spec fn assassin_trace(s: AssassinRotation, screens: Seq<AssassinScreen>) -> Seq<Command>
    decreases screens.len(),
{
    if screens.len() == 0 {
        Seq::empty()
    } else {
        assassin_trace(s, screens.drop_last()).push(
            assassin_next(assassin_run(s, screens.drop_last()), screens.last()).1,
        )
    }
}

/// Whether the user's input is blocked after the commands: the last
/// `BlockInput` among them blocked it.
pub open spec fn input_blocked(cmds: Seq<Command>) -> bool
    decreases cmds.len(),
{
    if cmds.len() == 0 {
        false
    } else {
        match cmds.last() {
            Command::BlockInput(b) => b,
            _ => input_blocked(cmds.drop_last()),
        }
    }
}

proof fn lemma_assassin_blocked_run(s: AssassinRotation, screens: Seq<AssassinScreen>)
    requires
        !(s.phase is IframeSpam),
    ensures
        input_blocked(assassin_trace(s, screens)) <==> assassin_run(s, screens).phase is IframeSpam,
        assassin_trace(s, screens).len() == screens.len(),
    decreases screens.len(),
{
    if screens.len() > 0 {
        lemma_assassin_blocked_run(s, screens.drop_last());
        assert(assassin_trace(s, screens).drop_last() =~= assassin_trace(s, screens.drop_last()));
    }
}

/// Running on the first `i` readings is the start of running on all of them.
proof fn lemma_assassin_prefix(s: AssassinRotation, screens: Seq<AssassinScreen>, i: int)
    requires
        0 <= i < screens.len(),
    ensures
        assassin_run(s, screens.take(i + 1)) == assassin_next(assassin_run(s, screens.take(i)), screens[i]).0,
        assassin_trace(s, screens.take(i + 1)) == assassin_trace(s, screens.take(i)).push(
            assassin_next(assassin_run(s, screens.take(i)), screens[i]).1,
        ),
{
    assert(screens.take(i + 1).drop_last() =~= screens.take(i));
    assert(screens.take(i + 1).last() == screens[i]);
}

/// Input is never left blocked: from the start of a rotation, the input is
/// blocked exactly while an iframe skill is being spammed; while it is
/// blocked the rotation does nothing but press that skill's key or unblock
/// the input; and a rotation that has run to its end has unblocked it.
pub proof fn lemma_assassin_input_unblocked(dps: bool, screens: Seq<AssassinScreen>)
    ensures
        input_blocked(assassin_trace(AssassinRotation::start_spec(dps), screens))
            <==> assassin_run(AssassinRotation::start_spec(dps), screens).phase is IframeSpam,
        assassin_run(AssassinRotation::start_spec(dps), screens).phase == AssassinPhase::Idle
            ==> !input_blocked(assassin_trace(AssassinRotation::start_spec(dps), screens)),
        forall|i: int|
            0 <= i < screens.len() && #[trigger] input_blocked(
                assassin_trace(AssassinRotation::start_spec(dps), screens.take(i)),
            ) ==> {
                let c = assassin_trace(AssassinRotation::start_spec(dps), screens.take(i + 1)).last();
                c == Command::Press(VK_C) || c == Command::Press(VK_E) || c == Command::Press(VK_Q)
                    || c == Command::BlockInput(false)
            },
{
    let s = AssassinRotation::start_spec(dps);
    lemma_assassin_blocked_run(s, screens);
    assert forall|i: int|
        0 <= i < screens.len() && #[trigger] input_blocked(assassin_trace(s, screens.take(i))) implies {
            let c = assassin_trace(s, screens.take(i + 1)).last();
            c == Command::Press(VK_C) || c == Command::Press(VK_E) || c == Command::Press(VK_Q)
                || c == Command::BlockInput(false)
        } by {
        lemma_assassin_blocked_run(s, screens.take(i));
        lemma_assassin_prefix(s, screens, i);
    }
}

/// Running on the first `j` readings gives the first `j` commands.
proof fn lemma_assassin_trace_prefix(s: AssassinRotation, screens: Seq<AssassinScreen>, j: int)
    requires
        0 <= j <= screens.len(),
    ensures
        assassin_trace(s, screens).len() == screens.len(),
        assassin_trace(s, screens.take(j)) == assassin_trace(s, screens).take(j),
    decreases screens.len(),
{
    if j == screens.len() {
        assert(screens.take(j) =~= screens);
        if screens.len() > 0 {
            lemma_assassin_trace_prefix(s, screens.drop_last(), 0);
        }
        assert(assassin_trace(s, screens).take(j) =~= assassin_trace(s, screens));
    } else {
        lemma_assassin_trace_prefix(s, screens.drop_last(), j);
        assert(screens.drop_last().take(j) =~= screens.take(j));
        assert(assassin_trace(s, screens).take(j) =~= assassin_trace(s, screens.drop_last()).take(j));
    }
}

/// Where each phase of the final attacks comes from.
proof fn lemma_assassin_before(t: AssassinRotation, o: AssassinScreen)
    ensures
        assassin_next(t, o).0.phase == AssassinPhase::Idle && t.phase != AssassinPhase::Idle
            ==> t.phase == AssassinPhase::Pause0 && assassin_next(t, o).1 == Command::Sleep(2),
        assassin_next(t, o).0.phase == AssassinPhase::Pause0 ==> t.phase == AssassinPhase::Strike0
            && assassin_next(t, o).1 == Command::Press(VK_0),
        assassin_next(t, o).0.phase == AssassinPhase::Strike0 ==> t.phase == AssassinPhase::PauseT
            && assassin_next(t, o).1 == Command::Sleep(2),
        assassin_next(t, o).0.phase == AssassinPhase::PauseT ==> t.phase == AssassinPhase::StrikeT
            && assassin_next(t, o).1 == Command::Press(VK_T),
        assassin_next(t, o).0.phase == AssassinPhase::StrikeT ==> t.phase == AssassinPhase::Pause4
            && assassin_next(t, o).1 == Command::Sleep(2),
        assassin_next(t, o).0.phase == AssassinPhase::Pause4 ==> assassin_next(t, o).1 == Command::Press(VK_4)
            && (t.phase == AssassinPhase::Strike4 || !(t.dps && soul_triggered_spec(o.soul))),
        assassin_next(t, o).0.phase == AssassinPhase::Strike4 ==> assassin_next(t, o).1 == Command::Press(VK_R)
            && t.dps && soul_triggered_spec(o.soul),
        assassin_next(t, o).0.dps == t.dps,
{
}

/// How a rotation ends: when it first comes to rest, its last commands are
/// 4, T and 0, each followed by a pause of 2 ms; right before them stands
/// the talisman when the rotation deals damage and the soul was triggered
/// on the reading where it came to the talisman, and not otherwise.
pub proof fn lemma_assassin_ends_with_attacks(dps: bool, screens: Seq<AssassinScreen>)
    requires
        assassin_run(AssassinRotation::start_spec(dps), screens).phase == AssassinPhase::Idle,
        screens.len() > 0,
        assassin_run(AssassinRotation::start_spec(dps), screens.drop_last()).phase != AssassinPhase::Idle,
    ensures
        ({
            let c = assassin_trace(AssassinRotation::start_spec(dps), screens);
            let n = screens.len() as int;
            &&& n >= 6
            &&& c.subrange(n - 6, n) == seq![
                Command::Press(VK_4),
                Command::Sleep(2),
                Command::Press(VK_T),
                Command::Sleep(2),
                Command::Press(VK_0),
                Command::Sleep(2),
            ]
            &&& n >= 7 && c[n - 7] == Command::Press(VK_R) ==> dps && soul_triggered_spec(screens[n - 7].soul)
            &&& !(n >= 7 && c[n - 7] == Command::Press(VK_R)) ==> !(dps && soul_triggered_spec(screens[n - 6].soul))
        }),
{
    let s = AssassinRotation::start_spec(dps);
    let n = screens.len() as int;
    let c = assassin_trace(s, screens);
    assert(screens.take(n) =~= screens);
    assert(screens.take(n - 1) =~= screens.drop_last());
    lemma_assassin_trace_prefix(s, screens, n);
    // the step into rest
    lemma_assassin_prefix(s, screens, n - 1);
    lemma_assassin_before(assassin_run(s, screens.take(n - 1)), screens[n - 1]);
    assert(assassin_run(s, screens.take(n - 1)).phase == AssassinPhase::Pause0);
    assert(n - 1 > 0);
    lemma_assassin_prefix(s, screens, n - 2);
    lemma_assassin_before(assassin_run(s, screens.take(n - 2)), screens[n - 2]);
    assert(n - 2 > 0);
    lemma_assassin_prefix(s, screens, n - 3);
    lemma_assassin_before(assassin_run(s, screens.take(n - 3)), screens[n - 3]);
    assert(n - 3 > 0);
    lemma_assassin_prefix(s, screens, n - 4);
    lemma_assassin_before(assassin_run(s, screens.take(n - 4)), screens[n - 4]);
    assert(n - 4 > 0);
    lemma_assassin_prefix(s, screens, n - 5);
    lemma_assassin_before(assassin_run(s, screens.take(n - 5)), screens[n - 5]);
    assert(n - 5 > 0);
    lemma_assassin_prefix(s, screens, n - 6);
    lemma_assassin_before(assassin_run(s, screens.take(n - 6)), screens[n - 6]);
    lemma_assassin_trace_prefix(s, screens, n - 1);
    lemma_assassin_trace_prefix(s, screens, n - 2);
    lemma_assassin_trace_prefix(s, screens, n - 3);
    lemma_assassin_trace_prefix(s, screens, n - 4);
    lemma_assassin_trace_prefix(s, screens, n - 5);
    assert(c[n - 1] == Command::Sleep(2));
    assert(c[n - 2] == Command::Press(VK_0));
    assert(c[n - 3] == Command::Sleep(2));
    assert(c[n - 4] == Command::Press(VK_T));
    assert(c[n - 5] == Command::Sleep(2));
    assert(c[n - 6] == Command::Press(VK_4));
    assert(c.subrange(n - 6, n) =~= seq![
        Command::Press(VK_4),
        Command::Sleep(2),
        Command::Press(VK_T),
        Command::Sleep(2),
        Command::Press(VK_0),
        Command::Sleep(2),
    ]);
    lemma_assassin_dps_kept(s, screens.take(n - 6));
    if assassin_run(s, screens.take(n - 6)).phase == AssassinPhase::Strike4 {
        assert(n - 6 > 0);
        lemma_assassin_prefix(s, screens, n - 7);
        lemma_assassin_before(assassin_run(s, screens.take(n - 7)), screens[n - 7]);
        lemma_assassin_trace_prefix(s, screens, n - 6);
        lemma_assassin_dps_kept(s, screens.take(n - 7));
        assert(c[n - 7] == Command::Press(VK_R));
    } else {
        if n >= 7 && c[n - 7] == Command::Press(VK_R) {
            lemma_assassin_prefix(s, screens, n - 7);
            lemma_assassin_trace_prefix(s, screens, n - 6);
            lemma_assassin_press_r(assassin_run(s, screens.take(n - 7)), screens[n - 7]);
            assert(false);
        }
    }
}

/// The talisman leads into the strike of 4.
proof fn lemma_assassin_press_r(t: AssassinRotation, o: AssassinScreen)
    ensures
        assassin_next(t, o).1 == Command::Press(VK_R) ==> assassin_next(t, o).0.phase == AssassinPhase::Strike4,
{
}

proof fn lemma_assassin_dps_kept(s: AssassinRotation, screens: Seq<AssassinScreen>)
    ensures
        assassin_run(s, screens).dps == s.dps,
    decreases screens.len(),
{
    if screens.len() > 0 {
        lemma_assassin_dps_kept(s, screens.drop_last());
    }
}

/// The skill keys are checked in order, each one whatever happened with
/// the one before: looking from a skill on, the rotation starts the iframe
/// of the first of Night Fury (C), Shunpo (E) and Shadow Dance (Q) whose key
/// is held, by releasing that key; with none held it goes on to the
/// talisman (R) with the soul for a rotation that deals damage, else to 4.
pub proof fn lemma_assassin_checks_in_order(s: AssassinRotation, o: AssassinScreen, k: AssassinSkill)
    requires
        s.phase == AssassinPhase::Check(k),
    ensures
        ({
            let (t, c) = assassin_next(s, o);
            &&& k == AssassinSkill::NightFury && o.night_fury_held ==> c == Command::Release(VK_C) && t.phase
                == AssassinPhase::IframeSleep(AssassinSkill::NightFury)
            &&& k != AssassinSkill::ShadowDance && !(k == AssassinSkill::NightFury && o.night_fury_held)
                && o.shunpo_held ==> c == Command::Release(VK_E) && t.phase == AssassinPhase::IframeSleep(
                AssassinSkill::Shunpo,
            )
            &&& !(k == AssassinSkill::NightFury && o.night_fury_held) && !(k != AssassinSkill::ShadowDance
                && o.shunpo_held) && o.shadow_dance_held ==> c == Command::Release(VK_Q) && t.phase
                == AssassinPhase::IframeSleep(AssassinSkill::ShadowDance)
            &&& !(k == AssassinSkill::NightFury && o.night_fury_held) && !(k != AssassinSkill::ShadowDance
                && o.shunpo_held) && !o.shadow_dance_held ==> (c == Command::Press(VK_R) <==> s.dps
                && soul_triggered_spec(o.soul)) && (c == Command::Press(VK_R) || c == Command::Press(VK_4))
        }),
{
}

/// An iframe spams its skill while the skill is ready, then unblocks the
/// input and goes on with the check of the next skill: Shunpo after Night
/// Fury, Shadow Dance after Shunpo, the talisman after Shadow Dance.
pub proof fn lemma_assassin_iframe_then_next(s: AssassinRotation, o: AssassinScreen, k: AssassinSkill)
    requires
        s.phase == AssassinPhase::IframeSpam(k),
    ensures
        ({
            let (t, c) = assassin_next(s, o);
            &&& skill_available(o, k) ==> c == Command::Press(skill_key(k)) && t == s
            &&& !skill_available(o, k) ==> c == Command::BlockInput(false)
            &&& !skill_available(o, k) && k == AssassinSkill::NightFury ==> t.phase == AssassinPhase::Check(
                AssassinSkill::Shunpo,
            )
            &&& !skill_available(o, k) && k == AssassinSkill::Shunpo ==> t.phase == AssassinPhase::Check(
                AssassinSkill::ShadowDance,
            )
            &&& !skill_available(o, k) && k == AssassinSkill::ShadowDance ==> t.phase
                == AssassinPhase::Talisman
        }),
{
}

/// Shunpo is checked after the Night Fury iframe: once Night Fury's iframe
/// ends, the next step starts the Shunpo iframe (releasing E) whenever E is
/// held on that reading.
pub proof fn lemma_assassin_shunpo_after_night_fury(s: AssassinRotation, o1: AssassinScreen, o2: AssassinScreen)
    requires
        s.phase == AssassinPhase::IframeSpam(AssassinSkill::NightFury),
        !skill_available(o1, AssassinSkill::NightFury),
        o2.shunpo_held,
    ensures
        assassin_next(s, o1).1 == Command::BlockInput(false),
        assassin_next(assassin_next(s, o1).0, o2).1 == Command::Release(VK_E),
        assassin_next(assassin_next(s, o1).0, o2).0.phase == AssassinPhase::IframeSleep(AssassinSkill::Shunpo),
{
}

/// The talisman after the iframes: pressed (R, then 4) exactly when the
/// rotation deals damage and the soul is triggered; else 4 at once.
pub proof fn lemma_assassin_talisman(s: AssassinRotation, o: AssassinScreen)
    requires
        s.phase == AssassinPhase::Talisman,
    ensures
        assassin_next(s, o).1 == Command::Press(VK_R) <==> s.dps && soul_triggered_spec(o.soul),
        assassin_next(s, o).1 != Command::Press(VK_R) ==> assassin_next(s, o).1 == Command::Press(VK_4),
        assassin_next(s, o).1 == Command::Press(VK_R) ==> assassin_next(assassin_next(s, o).0, o).1
            == Command::Press(VK_4),
{
}

/// With no skill key held, the rotation goes straight to the talisman and
/// the attacks.
pub proof fn lemma_assassin_no_iframe(dps: bool, o: AssassinScreen)
    requires
        !o.night_fury_held,
        !o.shunpo_held,
        !o.shadow_dance_held,
    ensures
        assassin_next(AssassinRotation { phase: AssassinPhase::Check(AssassinSkill::NightFury), dps }, o)
            == assassin_talisman(AssassinRotation { phase: AssassinPhase::Check(AssassinSkill::NightFury), dps }, o),
{
}

} // verus!
