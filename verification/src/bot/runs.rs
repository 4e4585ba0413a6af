//! The run count of the bots: each run that a bot counts (and logs the
//! statistics for) has had its time recorded once, as a success or a
//! failure, since the run counted before it.
use vstd::prelude::*;

use super::vm::{absorb, vm_exec, vm_finish, vm_next, vm_start, Act, Event, Op, Step, VmView};
use super::{is_start_script, lemma_runs_only_at_start, lemma_start_programs, script_spec, touches_runs, Script};

verus! {

/// The machine after running on the events, one step each.
pub open spec fn vm_run(s: VmView, events: Seq<Event>) -> VmView
    decreases events.len(),
{
    if events.len() == 0 {
        s
    } else {
        vm_next(vm_run(s, events.drop_last()), events.last()).0
    }
}

/// The steps that the machine hands to its caller while running on the
/// events, one for each.
pub open spec fn vm_steps(s: VmView, events: Seq<Event>) -> Seq<Step>
    decreases events.len(),
{
    if events.len() == 0 {
        Seq::empty()
    } else {
        vm_steps(s, events.drop_last()).push(vm_next(vm_run(s, events.drop_last()), events.last()).1)
    }
}

/// The step records the time of a run (a success or a failure).
pub open spec fn records_run(st: Step) -> bool {
    st matches Step::Act(Act::RecordRun(_)) || st == Step::Act(Act::RecordMarkedRun)
}

/// How many of the steps record the time of a run.
pub open spec fn runs_recorded(steps: Seq<Step>) -> nat
    decreases steps.len(),
{
    if steps.len() == 0 {
        0
    } else {
        runs_recorded(steps.drop_last()) + if records_run(steps.last()) { 1nat } else { 0nat }
    }
}

/// How many of the steps count a run.
pub open spec fn runs_counted(steps: Seq<Step>) -> nat
    decreases steps.len(),
{
    if steps.len() == 0 {
        0
    } else {
        runs_counted(steps.drop_last()) + if steps.last() == Step::Act(Act::CountRun) { 1nat } else { 0nat }
    }
}

/// Where the start script stands: its own instruction when it runs, else
/// the instruction it goes on with after the script that it called.
spec fn base_pc(s: VmView) -> int {
    if s.stack.len() == 0 {
        s.pc as int
    } else {
        s.stack[0].pc as int
    }
}

/// The instructions of a start script between recording the time of a run
/// and counting it.
spec fn run_pending(x: Script, pc: int) -> bool {
    match x {
        Script::ExpStart => 9 <= pc <= 11 || 13 <= pc <= 14,
        _ => 11 <= pc <= 19 || pc == 21,
    }
}

/// The machine runs the start script `x`: `x` is at the bottom of the calls
/// and nowhere else, and it has not ended.
spec fn runs_start(s: VmView, x: Script) -> bool {
    &&& is_start_script(x)
    &&& s.done is None
    &&& if s.stack.len() == 0 {
        s.script == x && s.pc < script_spec(x).len()
    } else {
        &&& s.stack[0].script == x
        &&& s.stack[0].pc < script_spec(x).len()
        &&& !is_start_script(s.script)
        &&& forall|i: int| 1 <= i < s.stack.len() ==> !is_start_script(#[trigger] s.stack[i].script)
    }
}

proof fn lemma_start_script_step(s: VmView, x: Script, ev: Event)
    requires
        runs_start(s, x),
        s.stack.len() == 0,
    ensures
        runs_start(vm_next(s, ev).0, x),
        records_run(vm_next(s, ev).1) ==> !run_pending(x, base_pc(s)) && run_pending(x, base_pc(vm_next(s, ev).0)),
        vm_next(s, ev).1 == Step::Act(Act::CountRun) ==> run_pending(x, base_pc(s)) && !run_pending(
            x,
            base_pc(vm_next(s, ev).0),
        ),
        !records_run(vm_next(s, ev).1) && vm_next(s, ev).1 != Step::Act(Act::CountRun) ==> run_pending(
            x,
            base_pc(s),
        ) == run_pending(x, base_pc(vm_next(s, ev).0)),
{
    lemma_start_programs();
    let p = script_spec(x);
    let u = absorb(s, ev);
    assert(vm_next(s, ev) == vm_exec(u, p[s.pc as int], ev.now_ms, p.len()));
    let pc = s.pc as int;
    // one case for each instruction of the start script
    if x == Script::ExpStart {
        if pc == 0 {} else if pc == 1 {} else if pc == 2 {} else if pc == 3 {} else if pc == 4 {} else
        if pc == 5 {} else if pc == 6 {} else if pc == 7 {} else if pc == 8 {} else if pc == 9 {} else
        if pc == 10 {} else if pc == 11 {} else if pc == 12 {} else if pc == 13 {} else
        if pc == 14 {} else if pc == 15 {}
    } else {
        if pc == 0 {} else if pc == 1 {} else if pc == 2 {} else if pc == 3 {} else if pc == 4 {} else
        if pc == 5 {} else if pc == 6 {} else if pc == 7 {} else if pc == 8 {} else if pc == 9 {} else
        if pc == 10 {} else if pc == 11 {} else if pc == 12 {} else if pc == 13 {} else
        if pc == 14 {} else if pc == 15 {} else if pc == 16 {} else if pc == 17 {} else
        if pc == 18 {} else if pc == 19 {} else if pc == 20 {} else if pc == 21 {} else
        if pc == 22 {}
    }
    let t = vm_next(s, ev).0;
    if t.stack.len() > 0 {
        assert(t.stack.len() == 1);
    }
}

/// A script that ends while called goes back to its caller.
proof fn lemma_called_script_finishes(u: VmView, x: Script, r: bool)
    requires
        runs_start(u, x),
        u.stack.len() > 0,
    ensures
        runs_start(vm_finish(u, r).0, x),
        vm_finish(u, r).1 == Step::Continue,
        base_pc(vm_finish(u, r).0) == base_pc(u),
{
    let t = vm_finish(u, r).0;
    if t.stack.len() > 0 {
        assert(t.stack[0] == u.stack[0]);
        assert(t.script == u.stack[u.stack.len() - 1].script);
        assert forall|i: int| 1 <= i < t.stack.len() implies !is_start_script(#[trigger] t.stack[i].script) by {
            assert(t.stack[i] == u.stack[i]);
        }
    }
}

/// An instruction of a called script neither records nor counts a run, and
/// leaves the start script where it was.
proof fn lemma_called_script_exec(u: VmView, x: Script, op: Op, now: u64, len: nat)
    requires
        runs_start(u, x),
        u.stack.len() > 0,
        !touches_runs(op),
    ensures
        runs_start(vm_exec(u, op, now, len).0, x),
        !records_run(vm_exec(u, op, now, len).1),
        vm_exec(u, op, now, len).1 != Step::Act(Act::CountRun),
        base_pc(vm_exec(u, op, now, len).0) == base_pc(u),
{
    match op {
        Op::Finish(r) => lemma_called_script_finishes(u, x, r),
        Op::Call(c) => {
            let t = vm_exec(u, op, now, len).0;
            assert(t.stack[0] == u.stack[0]);
            assert forall|i: int| 1 <= i < t.stack.len() implies !is_start_script(#[trigger] t.stack[i].script) by {
                if i < u.stack.len() {
                    assert(t.stack[i] == u.stack[i]);
                }
            }
        },
        _ => {},
    }
}

proof fn lemma_called_script_step(s: VmView, x: Script, ev: Event)
    requires
        runs_start(s, x),
        s.stack.len() > 0,
    ensures
        runs_start(vm_next(s, ev).0, x),
        !records_run(vm_next(s, ev).1),
        vm_next(s, ev).1 != Step::Act(Act::CountRun),
        base_pc(vm_next(s, ev).0) == base_pc(s),
{
    let u = absorb(s, ev);
    let p = script_spec(u.script);
    assert(runs_start(u, x));
    if u.pc >= p.len() {
        lemma_called_script_finishes(u, x, true);
    } else {
        lemma_runs_only_at_start(u.script);
        assert(!touches_runs(p[u.pc as int]));
        lemma_called_script_exec(u, x, p[u.pc as int], ev.now_ms, p.len());
    }
}

proof fn lemma_runs_invariant(x: Script, events: Seq<Event>)
    requires
        is_start_script(x),
    ensures
        runs_start(vm_run(vm_start(x), events), x),
        runs_recorded(vm_steps(vm_start(x), events)) == runs_counted(vm_steps(vm_start(x), events)) + if run_pending(
            x,
            base_pc(vm_run(vm_start(x), events)),
        ) {
            1nat
        } else {
            0nat
        },
        events.len() > 0 && vm_steps(vm_start(x), events).last() == Step::Act(Act::CountRun) ==> !run_pending(
            x,
            base_pc(vm_run(vm_start(x), events)),
        ),
    decreases events.len(),
{
    if events.len() == 0 {
        lemma_start_programs();
        assert(script_spec(x).len() > 0);
    } else {
        lemma_runs_invariant(x, events.drop_last());
        let s = vm_run(vm_start(x), events.drop_last());
        if s.stack.len() == 0 {
            lemma_start_script_step(s, x, events.last());
        } else {
            lemma_called_script_step(s, x, events.last());
        }
        let steps = vm_steps(vm_start(x), events);
        assert(steps.drop_last() =~= vm_steps(vm_start(x), events.drop_last()));
    }
}

/// The run count. A bot started on its start script records the time of a
/// run (as a success or a failure) before it counts it, and counts it
/// before it records the next: whatever the events, it has recorded as many
/// runs as it counted, or one more, the run about to be counted; and right
/// after each count, where the statistics are logged, the runs counted are
/// exactly the runs recorded. The start script never ends.
pub proof fn lemma_runs_counted(x: Script, events: Seq<Event>)
    requires
        is_start_script(x),
    ensures
        vm_run(vm_start(x), events).done is None,
        ({
            let steps = vm_steps(vm_start(x), events);
            &&& runs_recorded(steps) == runs_counted(steps) || runs_recorded(steps) == runs_counted(steps) + 1
            &&& steps.len() > 0 && steps.last() == Step::Act(Act::CountRun) ==> runs_recorded(steps)
                == runs_counted(steps)
        }),
{
    lemma_runs_invariant(x, events);
    if events.len() > 0 {
        assert(vm_steps(vm_start(x), events).len() > 0);
    }
}

} // verus!
