//! The machine that runs the bots' scripts.
//!
//! A script is a list of [`Op`]s. Most of them the machine performs itself
//! (jumps, timers, marks, calls); for the others it hands a [`Step`] to its
//! caller: an action to perform, a condition to evaluate, a window to switch
//! to. The caller performs the step and calls [`Vm::step`] again with an
//! [`Event`]: the answer to the last question and the time.
use vstd::prelude::*;

use super::{script_program, script_spec, Script};

verus! {

/// A hotkey of the bot's configuration, pressed as the keys listed there.
#[derive(PartialEq, Eq, Structural, Clone, Copy, Debug)]
pub enum Hotkey {
    GetIntoCombat,
    AfterTaeJangum,
    ToggleAutoCombat,
    CheatEngineSpeedHackOn,
    CheatEngineSpeedHackOff,
    FlyHackBoss1,
    FlyHackBoss2,
    DisableFlyHack,
    ShadowPlay,
    AnimationSpeedHackWarlockOn,
    AnimationSpeedHackWarlockOff,
    AnimationSpeedHackOff,
    TurnCameraTo0Degrees,
    MapTransparencyToggle,
    UseExpCharm,
    UseSoup,
    UseRepairTools,
    DummyOpener,
    CcDummies,
    CcDummies2,
}

/// The name of the hotkey in the `Hotkeys` section of the configuration.
pub open spec fn hotkey_name_spec(h: Hotkey) -> Seq<char> {
    match h {
        Hotkey::GetIntoCombat => "GetIntoCombat"@,
        Hotkey::AfterTaeJangum => "AfterTaeJangum"@,
        Hotkey::ToggleAutoCombat => "ToggleAutoCombat"@,
        Hotkey::CheatEngineSpeedHackOn => "CheatEngineSpeedHackOn"@,
        Hotkey::CheatEngineSpeedHackOff => "CheatEngineSpeedHackOff"@,
        Hotkey::FlyHackBoss1 => "FlyHackBoss1"@,
        Hotkey::FlyHackBoss2 => "FlyHackBoss2"@,
        Hotkey::DisableFlyHack => "DisableFlyHack"@,
        Hotkey::ShadowPlay => "ShadowPlay"@,
        Hotkey::AnimationSpeedHackWarlockOn => "AnimationSpeedHackWarlockOn"@,
        Hotkey::AnimationSpeedHackWarlockOff => "AnimationSpeedHackWarlockOff"@,
        Hotkey::AnimationSpeedHackOff => "AnimationSpeedHackOff"@,
        Hotkey::TurnCameraTo0Degrees => "TurnCameraTo0Degrees"@,
        Hotkey::MapTransparencyToggle => "MapTransparencyToggle"@,
        Hotkey::UseExpCharm => "UseExpCharm"@,
        Hotkey::UseSoup => "UseSoup"@,
        Hotkey::UseRepairTools => "UseRepairTools"@,
        Hotkey::DummyOpener => "DummyOpener"@,
        Hotkey::CcDummies => "CcDummies"@,
        Hotkey::CcDummies2 => "CcDummies2"@,
    }
}

/// The name of the hotkey in the `Hotkeys` section of the configuration.
pub fn hotkey_name(h: Hotkey) -> (name: &'static str)
    ensures
        name@ == hotkey_name_spec(h),
{
    let name = match h {
        Hotkey::GetIntoCombat => "GetIntoCombat",
        Hotkey::AfterTaeJangum => "AfterTaeJangum",
        Hotkey::ToggleAutoCombat => "ToggleAutoCombat",
        Hotkey::CheatEngineSpeedHackOn => "CheatEngineSpeedHackOn",
        Hotkey::CheatEngineSpeedHackOff => "CheatEngineSpeedHackOff",
        Hotkey::FlyHackBoss1 => "FlyHackBoss1",
        Hotkey::FlyHackBoss2 => "FlyHackBoss2",
        Hotkey::DisableFlyHack => "DisableFlyHack",
        Hotkey::ShadowPlay => "ShadowPlay",
        Hotkey::AnimationSpeedHackWarlockOn => "AnimationSpeedHackWarlockOn",
        Hotkey::AnimationSpeedHackWarlockOff => "AnimationSpeedHackWarlockOff",
        Hotkey::AnimationSpeedHackOff => "AnimationSpeedHackOff",
        Hotkey::TurnCameraTo0Degrees => "TurnCameraTo0Degrees",
        Hotkey::MapTransparencyToggle => "MapTransparencyToggle",
        Hotkey::UseExpCharm => "UseExpCharm",
        Hotkey::UseSoup => "UseSoup",
        Hotkey::UseRepairTools => "UseRepairTools",
        Hotkey::DummyOpener => "DummyOpener",
        Hotkey::CcDummies => "CcDummies",
        Hotkey::CcDummies2 => "CcDummies2",
    };
    name
}

/// An animation speed that the bot writes into the game.
#[derive(PartialEq, Eq, Structural, Clone, Copy, Debug)]
pub enum Speed {
    /// The configured `AnimationSpeedHackValue`.
    Configured,
    /// The configured `SlowAnimationSpeedHackValue`.
    Slow,
    /// 4.0, slow enough not to be sent back on the bridge.
    Four,
    /// 1.0, the game's own speed.
    Normal,
}

/// A point of the screen that the bot clicks, read from the configuration.
#[derive(PartialEq, Eq, Structural, Clone, Copy, Debug)]
pub enum Target {
    Chat,
    Origin,
    Ready,
    Dungeon,
    Enter,
    StageRight,
    OverMap,
    TrackingMap,
    Escape,
    /// The lobby search.
    FindLobby,
    /// The exit of the game menu.
    Exit,
}

/// A place on the player's way, told by comparing the player's coordinates
/// (read from the game's memory) with a fixed value.
#[derive(PartialEq, Eq, Structural, Clone, Copy, Debug)]
pub enum Place {
    /// y <= -35750: level with the portal to Poharan.
    PoharanPortalY,
    /// x > 3000: in front of the portal to Poharan.
    PoharanPortalX,
    /// y < -34900: not yet through the portal to Poharan.
    BeforePoharanPortal,
    /// y > -29134: where the warlock turns right on the bridge.
    BridgeTurn,
    /// x < 8039: the last part of the bridge.
    BridgeEnd,
    /// Animation speed above 4 and y > -28100: too fast for the end of the bridge.
    BridgeTooFast,
    /// z < -339: dropped into Poharan's pit.
    PoharanPit,
    /// x < 7450: level with the exit portal after Poharan.
    ExitPortalX,
    /// y > -26700: in front of the exit portal after Poharan.
    ExitPortalY,
    /// x >= 11750: at the barrier before Bulmalo.
    Barrier,
    /// x <= 10924: back at the portal position before the barrier.
    BeforeBarrier,
    /// x < 20000 (of the current window's player): not yet through the portal to Bulmalo.
    BeforeBulmaloPortal,
    /// x > 30805: at Bulmalo.
    Bulmalo,
    /// x > 69650: at Maximon.
    Maximon,
    /// y < -12850: level with the exit portal after Maximon.
    AerodromeExitY,
    /// x > 71000: in front of the exit portal after Maximon.
    AerodromeExitX,
    /// x == 10624: at the entrance of the exp dungeon after an escape.
    ExpEntrance,
}

/// What the bot can ask about the game.
#[derive(PartialEq, Eq, Structural, Clone, Copy, Debug)]
pub enum Cond {
    LoadingScreen,
    OutOfLoadingScreen,
    InF8Lobby,
    HasInvite,
    HasPartyJoinRequest,
    PlayerReady,
    DungeonSelected,
    StageSelected,
    EnterAvailable,
    ThrallReady,
    PortalIcon,
    ExitPortalIcon,
    BonusRewardSelection,
    Revive,
    Resurrect,
    DynamicQuest,
    DynamicReward,
    OutOfCombat,
    MapNotTransparent,
    TrackingMap,
    CameraReset,
    CrossServerLobbyMap,
    SoupActive,
    ExpCharmActive,
    /// The window in front is the game's.
    GameInFront,
    /// The window in front is the window the bot switched to last.
    Foreground,
    /// The current client is in the lobby of the first client.
    LobbyNumberMatches,
    /// The configuration asks to activate the barrier before Bulmalo.
    ActivateBarrier,
    /// The window the bot switched to last is the first client's.
    CurrentIsStart,
    /// At least one run has been counted.
    RunsCounted,
    /// The repair tools are due this run.
    RepairDue,
    /// Moved more than 200 away from the marked position.
    Teleported,
    /// Back within 200 of the marked position.
    BackAtMark,
    /// The dialogue to join a lobby is open.
    JoinLobbyDialogue,
    At(Place),
}

/// A camera direction reached through the map, by dragging the mouse.
#[derive(PartialEq, Eq, Structural, Clone, Copy, Debug)]
pub enum Degree {
    TurnTo0,
    TurnTo90,
    TurnTo270,
}

/// What the bot can do in the game.
#[derive(PartialEq, Eq, Structural, Clone, Copy, Debug)]
pub enum Act {
    KeyDown(u16),
    KeyUp(u16),
    /// Key down, then key up.
    Press(u16),
    Sleep(u64),
    /// Sleeps the given time divided by the configured animation speed.
    SleepScaled(u64),
    /// Sleeps the given time divided by the slow animation speed.
    SleepScaledSlow(u64),
    Hotkey(Hotkey),
    /// Turns the camera by the given degrees with the mouse.
    Rotate(u64),
    /// Writes the camera's yaw in degrees into the game.
    CameraYaw(u16),
    AnimationSpeed(Speed),
    /// Stops the bot when the game is no longer running.
    CheckActivity,
    /// Moves the cursor to the target.
    Cursor(Target),
    /// Clicks at the target.
    Click(Target),
    MouseDown,
    MouseUp,
    /// Moves the mouse left by the given pixels.
    MouseLeft(u32),
    /// Scrolls the mouse wheel out by one notch.
    ScrollOut,
    /// Types the configured farm stage.
    TypeStage,
    /// Types the invite command for the player chosen last.
    TypeInvite,
    /// Types the lobby number of the first client.
    TypeLobbyNumber,
    /// Switches to the window the bot switched to last, once more.
    Refocus,
    /// Takes the window in front as the first client's.
    TakeStartWindow,
    /// Switches to the first client's window; the bot stops if it cannot.
    SwitchToStart,
    /// Remembers the player's position.
    MarkPosition,
    /// Remembers the start of a run.
    MarkRunStart,
    /// Remembers the experience at the start of a run.
    MarkRunStartExp,
    /// Marks the current run as failed.
    MarkRunFailed,
    /// Records the time of the current run as a success (`true`) or a failure.
    RecordRun(bool),
    /// Records the time of the current run, as a failure if it was marked so.
    RecordMarkedRun,
    /// Counts the run and logs the statistics.
    CountRun,
    /// Adds the experience gained this run.
    AddGainedExp,
    /// Remembers the lobby number of the first client.
    MarkLobbyNumber,
}

/// A number that the caller looks up for the machine.
#[derive(PartialEq, Eq, Structural, Clone, Copy, Debug)]
pub enum Quantity {
    /// The milliseconds divided by the configured animation speed.
    Scaled(u64),
    /// The milliseconds divided by the slow animation speed.
    ScaledSlow(u64),
    /// The configured `CombatTime`, in seconds.
    CombatTime,
}

#[derive(PartialEq, Eq, Structural, Clone, Copy, Debug)]
pub enum TimerId {
    First,
    Second,
}

#[derive(PartialEq, Eq, Structural, Clone, Copy, Debug)]
pub enum MarkId {
    First,
    Second,
}

/// An instruction of a script.
#[derive(PartialEq, Eq, Structural, Clone, Copy, Debug)]
pub enum Op {
    /// Has the caller perform the action.
    Act(Act),
    /// Asks the caller about the game; the answer becomes the flag.
    Ask(Cond),
    /// Skips the given number of instructions.
    Skip(usize),
    /// Skips the given number of instructions when the flag is as given.
    SkipIf(bool, usize),
    /// Goes back by the given number of instructions.
    Back(usize),
    StartTimer(TimerId),
    /// Skips when more than the given milliseconds passed since the timer started.
    SkipIfElapsed(TimerId, u64, usize),
    /// Asks the caller for a number, kept as the fetched value.
    Fetch(Quantity),
    /// Skips when more milliseconds than the fetched value passed since the timer started.
    SkipIfFetchedElapsed(TimerId, usize),
    /// Skips when more whole seconds than the fetched value passed since the timer started.
    SkipIfFetchedSeconds(TimerId, usize),
    SetMark(MarkId, bool),
    SkipIfMark(MarkId, bool, usize),
    /// Restarts the count of clients or players.
    ResetCount,
    /// Switches to the next client window (counting the first client's or
    /// not); the answer tells whether there was one.
    NextClient(bool),
    /// Chooses the next configured player; the answer tells whether there was one.
    NextPlayer,
    /// Reports the fight with the boss as having taken the time since the timer started.
    RecordFight(u8, TimerId),
    /// Runs the script and comes back with its result as the flag.
    Call(Script),
    /// Ends the script with the result.
    Finish(bool),
}

/// What the caller of the machine does next.
#[derive(PartialEq, Eq, Structural, Clone, Copy, Debug)]
pub enum Step {
    Act(Act),
    /// Evaluate the condition and answer in the next event.
    Ask(Cond),
    /// Switch to the client window at this index of the windows sorted by
    /// creation time (counting the first client's, or leaving it out), and
    /// answer whether there was one.
    Client { index: usize, include_start: bool },
    /// Choose the configured player at this index, and answer whether there was one.
    Player(usize),
    /// Answer the number.
    Fetch(Quantity),
    /// The fight with the boss took this long.
    Fight { boss: u8, ms: u64 },
    /// Nothing to do: call the machine again.
    Continue,
    /// The script has ended with this result.
    Done(bool),
}

/// What the caller tells the machine at each call.
#[derive(PartialEq, Eq, Structural, Clone, Copy, Debug)]
pub struct Event {
    /// The answer to the question of the last step.
    pub holds: bool,
    /// The value asked for by the last step.
    pub value: u64,
    /// Milliseconds on a clock that never goes back.
    pub now_ms: u64,
}

/// The machine's registers, saved across calls.
#[derive(PartialEq, Eq, Structural, Clone, Copy, Debug)]
pub struct Locals {
    pub timer: u64,
    pub timer2: u64,
    pub mark: bool,
    pub mark2: bool,
    pub count: usize,
    pub fetched: u64,
}

/// Where a call goes back to.
#[derive(PartialEq, Eq, Structural, Clone, Copy, Debug)]
pub struct Frame {
    pub script: Script,
    pub pc: usize,
    pub locals: Locals,
}

/// What the machine waits to hear in the next event.
#[derive(PartialEq, Eq, Structural, Clone, Copy, Debug)]
pub enum Awaiting {
    Nothing,
    Answer,
    Value,
}

/// The machine running a script.
pub struct Vm {
    pub script: Script,
    pub pc: usize,
    pub locals: Locals,
    pub flag: bool,
    pub awaiting: Awaiting,
    pub stack: Vec<Frame>,
    pub done: Option<bool>,
}

/// The machine as a mathematical value.
pub struct VmView {
    pub script: Script,
    pub pc: usize,
    pub locals: Locals,
    pub flag: bool,
    pub awaiting: Awaiting,
    pub stack: Seq<Frame>,
    pub done: Option<bool>,
}

impl View for Vm {
    type V = VmView;

    open spec fn view(&self) -> VmView {
        VmView {
            script: self.script,
            pc: self.pc,
            locals: self.locals,
            flag: self.flag,
            awaiting: self.awaiting,
            stack: self.stack@,
            done: self.done,
        }
    }
}

pub open spec fn fresh_locals() -> Locals {
    Locals { timer: 0, timer2: 0, mark: false, mark2: false, count: 0, fetched: 0 }
}

/// A machine about to run the script: at its first instruction, with fresh
/// registers, nothing called and no answer awaited.
pub open spec fn vm_start(script: Script) -> VmView {
    VmView {
        script,
        pc: 0,
        locals: fresh_locals(),
        flag: false,
        awaiting: Awaiting::Nothing,
        stack: Seq::empty(),
        done: None,
    }
}

/// The answer of the event lands where the last step asked for it.
pub open spec fn absorb(s: VmView, ev: Event) -> VmView {
    match s.awaiting {
        Awaiting::Nothing => s,
        Awaiting::Answer => VmView { flag: ev.holds, awaiting: Awaiting::Nothing, ..s },
        Awaiting::Value => VmView {
            locals: Locals { fetched: ev.value, ..s.locals },
            awaiting: Awaiting::Nothing,
            ..s
        },
    }
}

/// The script ends with `r`: the machine is done, or goes back to its caller
/// with `r` as the flag.
pub open spec fn vm_finish(s: VmView, r: bool) -> (VmView, Step) {
    if s.stack.len() == 0 {
        (VmView { done: Some(r), ..s }, Step::Done(r))
    } else {
        let f = s.stack.last();
        (
            VmView { script: f.script, pc: f.pc, locals: f.locals, flag: r, stack: s.stack.drop_last(), ..s },
            Step::Continue,
        )
    }
}

/// The instruction `n + 1` further on, or the end of the script.
pub open spec fn skip_to(pc: usize, n: usize, len: nat) -> usize {
    if pc + 1 + n <= len {
        (pc + 1 + n) as usize
    } else {
        len as usize
    }
}

pub open spec fn timer_of(l: Locals, t: TimerId) -> u64 {
    match t {
        TimerId::First => l.timer,
        TimerId::Second => l.timer2,
    }
}

pub open spec fn set_timer(l: Locals, t: TimerId, v: u64) -> Locals {
    match t {
        TimerId::First => Locals { timer: v, ..l },
        TimerId::Second => Locals { timer2: v, ..l },
    }
}

pub open spec fn mark_of(l: Locals, m: MarkId) -> bool {
    match m {
        MarkId::First => l.mark,
        MarkId::Second => l.mark2,
    }
}

pub open spec fn set_mark(l: Locals, m: MarkId, v: bool) -> Locals {
    match m {
        MarkId::First => Locals { mark: v, ..l },
        MarkId::Second => Locals { mark2: v, ..l },
    }
}

/// The milliseconds since `start`, none when the clock reads earlier.
pub open spec fn since(now: u64, start: u64) -> u64 {
    if now >= start {
        (now - start) as u64
    } else {
        0
    }
}

/// The count after one more client or player.
pub open spec fn bump(count: usize) -> usize {
    if count < usize::MAX {
        (count + 1) as usize
    } else {
        count
    }
}

pub open spec fn at_pc(s: VmView, pc: usize) -> VmView {
    VmView { pc, ..s }
}

/// Performs one instruction.
pub open spec fn vm_exec(s: VmView, op: Op, now: u64, len: nat) -> (VmView, Step) {
    let next = (s.pc + 1) as usize;
    match op {
        Op::Act(a) => (at_pc(s, next), Step::Act(a)),
        Op::Ask(c) => (VmView { pc: next, awaiting: Awaiting::Answer, ..s }, Step::Ask(c)),
        Op::Skip(n) => (at_pc(s, skip_to(s.pc, n, len)), Step::Continue),
        Op::SkipIf(b, n) => (at_pc(s, if s.flag == b { skip_to(s.pc, n, len) } else { next }), Step::Continue),
        Op::Back(n) => (at_pc(s, if n <= s.pc { (s.pc - n) as usize } else { 0 }), Step::Continue),
        Op::StartTimer(t) => (VmView { pc: next, locals: set_timer(s.locals, t, now), ..s }, Step::Continue),
        Op::SkipIfElapsed(t, ms, n) => (
            at_pc(s, if since(now, timer_of(s.locals, t)) > ms { skip_to(s.pc, n, len) } else { next }),
            Step::Continue,
        ),
        Op::Fetch(q) => (VmView { pc: next, awaiting: Awaiting::Value, ..s }, Step::Fetch(q)),
        Op::SkipIfFetchedElapsed(t, n) => (
            at_pc(s, if since(now, timer_of(s.locals, t)) > s.locals.fetched { skip_to(s.pc, n, len) } else { next }),
            Step::Continue,
        ),
        Op::SkipIfFetchedSeconds(t, n) => (
            at_pc(
                s,
                if since(now, timer_of(s.locals, t)) / 1000 > s.locals.fetched { skip_to(s.pc, n, len) } else { next },
            ),
            Step::Continue,
        ),
        Op::SetMark(m, b) => (VmView { pc: next, locals: set_mark(s.locals, m, b), ..s }, Step::Continue),
        Op::SkipIfMark(m, b, n) => (
            at_pc(s, if mark_of(s.locals, m) == b { skip_to(s.pc, n, len) } else { next }),
            Step::Continue,
        ),
        Op::ResetCount => (VmView { pc: next, locals: Locals { count: 0, ..s.locals }, ..s }, Step::Continue),
        Op::NextClient(include_start) => (
            VmView { pc: next, awaiting: Awaiting::Answer, locals: Locals { count: bump(s.locals.count), ..s.locals }, ..s },
            Step::Client { index: s.locals.count, include_start },
        ),
        Op::NextPlayer => (
            VmView { pc: next, awaiting: Awaiting::Answer, locals: Locals { count: bump(s.locals.count), ..s.locals }, ..s },
            Step::Player(s.locals.count),
        ),
        Op::RecordFight(boss, t) => (at_pc(s, next), Step::Fight { boss, ms: since(now, timer_of(s.locals, t)) }),
        Op::Call(callee) => (
            VmView {
                script: callee,
                pc: 0,
                locals: fresh_locals(),
                stack: s.stack.push(Frame { script: s.script, pc: next, locals: s.locals }),
                ..s
            },
            Step::Continue,
        ),
        Op::Finish(r) => vm_finish(s, r),
    }
}

/// One step of the machine on an event.
pub open spec fn vm_next(s: VmView, ev: Event) -> (VmView, Step) {
    if let Some(r) = s.done {
        (s, Step::Done(r))
    } else {
        let s1 = absorb(s, ev);
        let prog = script_spec(s1.script);
        if s1.pc >= prog.len() {
            vm_finish(s1, true)
        } else {
            vm_exec(s1, prog[s1.pc as int], ev.now_ms, prog.len())
        }
    }
}

fn since_exec(now: u64, start: u64) -> (d: u64)
    ensures
        d == since(now, start),
{
    if now >= start {
        now - start
    } else {
        0
    }
}

impl Vm {
    /// A machine about to run the script.
    pub fn new(script: Script) -> (vm: Self)
        ensures
            vm@ == vm_start(script),
    {
        Vm {
            script,
            pc: 0,
            locals: Locals { timer: 0, timer2: 0, mark: false, mark2: false, count: 0, fetched: 0 },
            flag: false,
            awaiting: Awaiting::Nothing,
            stack: Vec::new(),
            done: None,
        }
    }

    /// The result of the script, once it has ended.
    pub fn result(&self) -> (r: Option<bool>)
        ensures
            r == self.done,
    {
        self.done
    }

    fn finish(&mut self, r: bool) -> (st: Step)
        ensures
            (final(self)@, st) == vm_finish(old(self)@, r),
    {
        match self.stack.pop() {
            None => {
                self.done = Some(r);
                Step::Done(r)
            },
            Some(f) => {
                self.script = f.script;
                self.pc = f.pc;
                self.locals = f.locals;
                self.flag = r;
                Step::Continue
            },
        }
    }

    fn skip(&mut self, n: usize, len: usize)
        requires
            old(self).pc < len,
        ensures
            final(self)@ == at_pc(old(self)@, skip_to(old(self).pc, n, len as nat)),
    {
        if n < len - self.pc {
            self.pc = self.pc + 1 + n;
        } else {
            self.pc = len;
        }
    }

    fn jump(&mut self, op: Op, now: u64, len: usize) -> (st: Step)
        requires
            old(self).pc < len,
            op is Skip || op is SkipIf || op is Back || op is SkipIfElapsed || op is SkipIfFetchedElapsed
                || op is SkipIfFetchedSeconds || op is SkipIfMark,
        ensures
            (final(self)@, st) == vm_exec(old(self)@, op, now, len as nat),
    {
        let next = self.pc + 1;
        let taken = match op {
            Op::Skip(_) => true,
            Op::SkipIf(b, _) => self.flag == b,
            Op::SkipIfElapsed(t, ms, _) => {
                let start = match t {
                    TimerId::First => self.locals.timer,
                    TimerId::Second => self.locals.timer2,
                };
                since_exec(now, start) > ms
            },
            Op::SkipIfFetchedElapsed(t, _) => {
                let start = match t {
                    TimerId::First => self.locals.timer,
                    TimerId::Second => self.locals.timer2,
                };
                since_exec(now, start) > self.locals.fetched
            },
            Op::SkipIfFetchedSeconds(t, _) => {
                let start = match t {
                    TimerId::First => self.locals.timer,
                    TimerId::Second => self.locals.timer2,
                };
                since_exec(now, start) / 1000 > self.locals.fetched
            },
            Op::SkipIfMark(m, b, _) => {
                let v = match m {
                    MarkId::First => self.locals.mark,
                    MarkId::Second => self.locals.mark2,
                };
                v == b
            },
            _ => false,
        };
        match op {
            Op::Back(n) => {
                if n <= self.pc {
                    self.pc = self.pc - n;
                } else {
                    self.pc = 0;
                }
            },
            Op::Skip(n) | Op::SkipIf(_, n) | Op::SkipIfElapsed(_, _, n) | Op::SkipIfFetchedElapsed(_, n)
            | Op::SkipIfFetchedSeconds(_, n) | Op::SkipIfMark(_, _, n) => {
                if taken {
                    self.skip(n, len);
                } else {
                    self.pc = next;
                }
            },
            _ => {},
        }
        Step::Continue
    }

    fn set_register(&mut self, op: Op, now: u64, len: usize) -> (st: Step)
        requires
            old(self).pc < len,
            op is StartTimer || op is SetMark || op is ResetCount,
        ensures
            (final(self)@, st) == vm_exec(old(self)@, op, now, len as nat),
    {
        self.pc = self.pc + 1;
        match op {
            Op::StartTimer(TimerId::First) => self.locals.timer = now,
            Op::StartTimer(TimerId::Second) => self.locals.timer2 = now,
            Op::SetMark(MarkId::First, b) => self.locals.mark = b,
            Op::SetMark(MarkId::Second, b) => self.locals.mark2 = b,
            _ => self.locals.count = 0,
        }
        Step::Continue
    }

    fn exec(&mut self, op: Op, now: u64, len: usize) -> (st: Step)
        requires
            old(self).pc < len,
        ensures
            (final(self)@, st) == vm_exec(old(self)@, op, now, len as nat),
    {
        let next = self.pc + 1;
        match op {
            Op::Act(a) => {
                self.pc = next;
                Step::Act(a)
            },
            Op::Ask(c) => {
                self.pc = next;
                self.awaiting = Awaiting::Answer;
                Step::Ask(c)
            },
            Op::Fetch(q) => {
                self.pc = next;
                self.awaiting = Awaiting::Value;
                Step::Fetch(q)
            },
            Op::NextClient(include_start) => {
                let index = self.locals.count;
                self.pc = next;
                self.awaiting = Awaiting::Answer;
                if index < usize::MAX {
                    self.locals.count = index + 1;
                }
                Step::Client { index, include_start }
            },
            Op::NextPlayer => {
                let index = self.locals.count;
                self.pc = next;
                self.awaiting = Awaiting::Answer;
                if index < usize::MAX {
                    self.locals.count = index + 1;
                }
                Step::Player(index)
            },
            Op::RecordFight(boss, t) => {
                let start = match t {
                    TimerId::First => self.locals.timer,
                    TimerId::Second => self.locals.timer2,
                };
                self.pc = next;
                Step::Fight { boss, ms: since_exec(now, start) }
            },
            Op::Call(callee) => {
                let frame = Frame { script: self.script, pc: next, locals: self.locals };
                self.stack.push(frame);
                self.script = callee;
                self.pc = 0;
                self.locals = Locals { timer: 0, timer2: 0, mark: false, mark2: false, count: 0, fetched: 0 };
                Step::Continue
            },
            Op::Finish(r) => self.finish(r),
            Op::StartTimer(_) | Op::SetMark(_, _) | Op::ResetCount => self.set_register(op, now, len),
            _ => self.jump(op, now, len),
        }
    }

    /// One step of the machine: the event answers the last step's question
    /// (if it asked one) and gives the time.
    pub fn step(&mut self, ev: Event) -> (st: Step)
        ensures
            (final(self)@, st) == vm_next(old(self)@, ev),
    {
        if let Some(r) = self.done {
            return Step::Done(r);
        }
        match self.awaiting {
            Awaiting::Nothing => {},
            Awaiting::Answer => {
                self.flag = ev.holds;
                self.awaiting = Awaiting::Nothing;
            },
            Awaiting::Value => {
                self.locals.fetched = ev.value;
                self.awaiting = Awaiting::Nothing;
            },
        }
        let prog = script_program(self.script);
        if self.pc >= prog.len() {
            return self.finish(true);
        }
        let op = prog[self.pc];
        self.exec(op, ev.now_ms, prog.len())
    }
}

/// A machine that has ended stays ended, with the same result.
pub proof fn lemma_done_stays(s: VmView, ev: Event)
    requires
        s.done is Some,
    ensures
        vm_next(s, ev).0 == s,
        vm_next(s, ev).1 == Step::Done(s.done->0),
{
}

/// A script's result comes back to its caller: whatever the called script
/// did, when it ends the caller goes on after its call, with the result as
/// the flag and its registers as they were before the call.
pub proof fn lemma_call_returns(s: VmView, callee: Script, now: u64, len: nat, u: VmView, r: bool)
    requires
        s.pc < len,
        len <= usize::MAX,
        u.stack == vm_exec(s, Op::Call(callee), now, len).0.stack,
    ensures
        vm_finish(u, r).1 == Step::Continue,
        vm_finish(u, r).0.script == s.script,
        vm_finish(u, r).0.pc == s.pc + 1,
        vm_finish(u, r).0.locals == s.locals,
        vm_finish(u, r).0.flag == r,
        vm_finish(u, r).0.stack == s.stack,
{
    assert(u.stack.drop_last() =~= s.stack);
}

/// A failed call ends the routine: once a called script has come back with
/// `false`, an instruction that jumps on `false` to an end with `false`
/// ends the routine with `false` two steps later, whatever the events.
pub proof fn lemma_failed_call_fails(u: VmView, n: usize, e1: Event, e2: Event)
    requires
        u.done is None,
        u.awaiting == Awaiting::Nothing,
        !u.flag,
        u.pc + 1 + n < script_spec(u.script).len(),
        script_spec(u.script).len() <= usize::MAX,
        script_spec(u.script)[u.pc as int] == Op::SkipIf(false, n),
        script_spec(u.script)[u.pc + 1 + n] == Op::Finish(false),
    ensures
        vm_next(vm_next(u, e1).0, e2) == vm_finish(at_pc(u, (u.pc + 1 + n) as usize), false),
{
    let p = script_spec(u.script);
    let t = vm_next(u, e1).0;
    assert(absorb(u, e1) == u);
    assert(skip_to(u.pc, n, p.len()) == u.pc + 1 + n);
    assert(t == at_pc(u, (u.pc + 1 + n) as usize));
    assert(absorb(t, e2) == t);
}

/// A wait with a timeout ends once the time is up: past the timeout, the
/// check of the timer always jumps out.
pub proof fn lemma_timeout_leaves(s: VmView, t: TimerId, ms: u64, n: usize, now: u64, len: nat)
    requires
        since(now, timer_of(s.locals, t)) > ms,
    ensures
        vm_exec(s, Op::SkipIfElapsed(t, ms, n), now, len).0.pc == skip_to(s.pc, n, len),
{
}

} // verus!
