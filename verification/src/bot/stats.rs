//! The statistics the bots keep over their runs.
use vstd::prelude::*;

verus! {

/// The sum of the values.
pub open spec fn seq_sum(s: Seq<u64>) -> int
    decreases s.len(),
{
    if s.len() == 0 {
        0
    } else {
        seq_sum(s.drop_last()) + s.last()
    }
}

/// The whole part of the mean of the values; 0 for none.
pub open spec fn average_spec(s: Seq<u64>) -> int {
    if s.len() == 0 {
        0
    } else {
        seq_sum(s) / (s.len() as int)
    }
}

proof fn lemma_sum_bounds(s: Seq<u64>)
    ensures
        0 <= seq_sum(s) <= s.len() * (u64::MAX as int),
    decreases s.len(),
{
    if s.len() > 0 {
        lemma_sum_bounds(s.drop_last());
    }
}

/// The whole part of the mean of the values (in milliseconds); 0 for none.
pub fn average(values: &Vec<u64>) -> (avg: u64)
    ensures
        avg == average_spec(values@),
{
    let mut sum: u128 = 0;
    let mut i: usize = 0;
    while i < values.len()
        invariant
            i <= values@.len(),
            sum == seq_sum(values@.take(i as int)),
        decreases values@.len() - i,
    {
        proof {
            lemma_sum_bounds(values@.take(i as int));
            assert(values@.take(i as int + 1).drop_last() =~= values@.take(i as int));
            assert(i * (u64::MAX as int) + u64::MAX <= (usize::MAX as int) * (u64::MAX as int) + u64::MAX)
                by (nonlinear_arith)
                requires
                    i <= usize::MAX,
            ;
            assert((usize::MAX as int) * (u64::MAX as int) + u64::MAX < u128::MAX) by (nonlinear_arith)
                requires
                    usize::MAX <= u64::MAX,
            ;
        }
        sum = sum + values[i] as u128;
        i = i + 1;
    }
    assert(values@.take(values@.len() as int) =~= values@);
    if values.len() == 0 {
        0
    } else {
        proof {
            lemma_sum_bounds(values@);
            assert(seq_sum(values@) / (values@.len() as int) <= u64::MAX) by (nonlinear_arith)
                requires
                    0 <= seq_sum(values@) <= values@.len() * (u64::MAX as int),
                    values@.len() > 0,
            ;
        }
        (sum / (values.len() as u128)) as u64
    }
}

/// The mean lies between the smallest and the largest value.
pub proof fn lemma_average_between(s: Seq<u64>, lo: u64, hi: u64)
    requires
        s.len() > 0,
        forall|i: int| 0 <= i < s.len() ==> lo <= #[trigger] s[i] <= hi,
    ensures
        lo <= average_spec(s) <= hi,
{
    lemma_sum_between(s, lo, hi);
    let n = s.len() as int;
    let t = seq_sum(s);
    assert(lo <= t / n <= hi) by (nonlinear_arith)
        requires
            n > 0,
            n * lo <= t <= n * hi,
    ;
}

proof fn lemma_sum_between(s: Seq<u64>, lo: u64, hi: u64)
    requires
        forall|i: int| 0 <= i < s.len() ==> lo <= #[trigger] s[i] <= hi,
    ensures
        s.len() * lo <= seq_sum(s) <= s.len() * hi,
    decreases s.len(),
{
    if s.len() > 0 {
        let r = s.drop_last();
        assert forall|i: int| 0 <= i < r.len() implies lo <= #[trigger] r[i] <= hi by {
            assert(r[i] == s[i]);
        }
        lemma_sum_between(r, lo, hi);
        assert(s.last() == s[s.len() - 1]);
        assert(s.len() * lo == r.len() * lo + lo) by (nonlinear_arith)
            requires
                s.len() == r.len() + 1,
        ;
        assert(s.len() * hi == r.len() * hi + hi) by (nonlinear_arith)
            requires
                s.len() == r.len() + 1,
        ;
    }
}

/// The times of the runs and fights, and the experience gained.
pub struct RunStatistics {
    pub run_count: u64,
    pub successful_runs: Vec<u64>,
    pub failed_runs: Vec<u64>,
    pub boss1_fights: Vec<u64>,
    pub boss2_fights: Vec<u64>,
    pub gained_exp: u64,
    pub run_start_exp: u64,
    pub run_failed: bool,
}

/// The averages that the bots log, in milliseconds.
#[derive(PartialEq, Eq, Structural, Clone, Copy, Debug)]
pub struct Averages {
    pub successful_run: u64,
    pub failed_run: u64,
    pub boss1_fight: u64,
    pub boss2_fight: u64,
}

impl RunStatistics {
    /// No run yet.
    pub fn new() -> (s: Self)
        ensures
            s.run_count == 0,
            s.successful_runs@ == Seq::<u64>::empty(),
            s.failed_runs@ == Seq::<u64>::empty(),
            s.boss1_fights@ == Seq::<u64>::empty(),
            s.boss2_fights@ == Seq::<u64>::empty(),
            s.gained_exp == 0,
            s.run_start_exp == 0,
            !s.run_failed,
    {
        RunStatistics {
            run_count: 0,
            successful_runs: Vec::new(),
            failed_runs: Vec::new(),
            boss1_fights: Vec::new(),
            boss2_fights: Vec::new(),
            gained_exp: 0,
            run_start_exp: 0,
            run_failed: false,
        }
    }

    /// A new run starts: it is not failed yet.
    pub fn begin_run(&mut self)
        ensures
            !final(self).run_failed,
            final(self).run_count == old(self).run_count,
            final(self).successful_runs@ == old(self).successful_runs@,
            final(self).failed_runs@ == old(self).failed_runs@,
            final(self).boss1_fights@ == old(self).boss1_fights@,
            final(self).boss2_fights@ == old(self).boss2_fights@,
            final(self).gained_exp == old(self).gained_exp,
            final(self).run_start_exp == old(self).run_start_exp,
    {
        self.run_failed = false;
    }

    /// The current run has failed.
    pub fn mark_failed(&mut self)
        ensures
            final(self).run_failed,
            final(self).run_count == old(self).run_count,
            final(self).successful_runs@ == old(self).successful_runs@,
            final(self).failed_runs@ == old(self).failed_runs@,
            final(self).boss1_fights@ == old(self).boss1_fights@,
            final(self).boss2_fights@ == old(self).boss2_fights@,
            final(self).gained_exp == old(self).gained_exp,
            final(self).run_start_exp == old(self).run_start_exp,
    {
        self.run_failed = true;
    }

    /// Records the time of a run, as a success or a failure.
    pub fn record_run(&mut self, success: bool, ms: u64)
        ensures
            success ==> final(self).successful_runs@ == old(self).successful_runs@.push(ms),
            success ==> final(self).failed_runs@ == old(self).failed_runs@,
            !success ==> final(self).failed_runs@ == old(self).failed_runs@.push(ms),
            !success ==> final(self).successful_runs@ == old(self).successful_runs@,
            final(self).run_count == old(self).run_count,
            final(self).boss1_fights@ == old(self).boss1_fights@,
            final(self).boss2_fights@ == old(self).boss2_fights@,
            final(self).gained_exp == old(self).gained_exp,
            final(self).run_start_exp == old(self).run_start_exp,
            final(self).run_failed == old(self).run_failed,
    {
        if success {
            self.successful_runs.push(ms);
        } else {
            self.failed_runs.push(ms);
        }
    }

    /// Records the time of a run that ended normally: a failure when it was
    /// marked failed, else a success.
    pub fn record_marked_run(&mut self, ms: u64)
        ensures
            old(self).run_failed ==> final(self).failed_runs@ == old(self).failed_runs@.push(ms),
            old(self).run_failed ==> final(self).successful_runs@ == old(self).successful_runs@,
            !old(self).run_failed ==> final(self).successful_runs@ == old(self).successful_runs@.push(ms),
            !old(self).run_failed ==> final(self).failed_runs@ == old(self).failed_runs@,
            final(self).run_count == old(self).run_count,
            final(self).boss1_fights@ == old(self).boss1_fights@,
            final(self).boss2_fights@ == old(self).boss2_fights@,
            final(self).gained_exp == old(self).gained_exp,
            final(self).run_start_exp == old(self).run_start_exp,
            final(self).run_failed == old(self).run_failed,
    {
        let success = !self.run_failed;
        self.record_run(success, ms);
    }

    /// Counts a finished run.
    pub fn count_run(&mut self)
        requires
            old(self).run_count < u64::MAX,
        ensures
            final(self).run_count == old(self).run_count + 1,
            final(self).successful_runs@ == old(self).successful_runs@,
            final(self).failed_runs@ == old(self).failed_runs@,
            final(self).boss1_fights@ == old(self).boss1_fights@,
            final(self).boss2_fights@ == old(self).boss2_fights@,
            final(self).gained_exp == old(self).gained_exp,
            final(self).run_start_exp == old(self).run_start_exp,
            final(self).run_failed == old(self).run_failed,
    {
        self.run_count = self.run_count + 1;
    }

    /// Records the time of a boss fight; fights with other bosses than the
    /// first two are not kept.
    pub fn record_fight(&mut self, boss: u8, ms: u64)
        ensures
            boss == 1 ==> final(self).boss1_fights@ == old(self).boss1_fights@.push(ms),
            boss != 1 ==> final(self).boss1_fights@ == old(self).boss1_fights@,
            boss == 2 ==> final(self).boss2_fights@ == old(self).boss2_fights@.push(ms),
            boss != 2 ==> final(self).boss2_fights@ == old(self).boss2_fights@,
            final(self).run_count == old(self).run_count,
            final(self).successful_runs@ == old(self).successful_runs@,
            final(self).failed_runs@ == old(self).failed_runs@,
            final(self).gained_exp == old(self).gained_exp,
            final(self).run_start_exp == old(self).run_start_exp,
            final(self).run_failed == old(self).run_failed,
    {
        if boss == 1 {
            self.boss1_fights.push(ms);
        } else if boss == 2 {
            self.boss2_fights.push(ms);
        }
    }

    /// Remembers the experience at the start of a run.
    pub fn set_run_start_exp(&mut self, exp: u64)
        ensures
            final(self).run_start_exp == exp,
            final(self).run_count == old(self).run_count,
            final(self).successful_runs@ == old(self).successful_runs@,
            final(self).failed_runs@ == old(self).failed_runs@,
            final(self).boss1_fights@ == old(self).boss1_fights@,
            final(self).boss2_fights@ == old(self).boss2_fights@,
            final(self).gained_exp == old(self).gained_exp,
            final(self).run_failed == old(self).run_failed,
    {
        self.run_start_exp = exp;
    }

    /// Adds the experience gained since the start of the run, when there is any.
    pub fn add_gained_exp(&mut self, current: u64)
        requires
            current > old(self).run_start_exp ==> old(self).gained_exp + (current - old(self).run_start_exp)
                <= u64::MAX,
        ensures
            current > old(self).run_start_exp ==> final(self).gained_exp == old(self).gained_exp + (current
                - old(self).run_start_exp),
            current <= old(self).run_start_exp ==> final(self).gained_exp == old(self).gained_exp,
            final(self).run_count == old(self).run_count,
            final(self).successful_runs@ == old(self).successful_runs@,
            final(self).failed_runs@ == old(self).failed_runs@,
            final(self).boss1_fights@ == old(self).boss1_fights@,
            final(self).boss2_fights@ == old(self).boss2_fights@,
            final(self).run_start_exp == old(self).run_start_exp,
            final(self).run_failed == old(self).run_failed,
    {
        if current > self.run_start_exp {
            self.gained_exp = self.gained_exp + (current - self.run_start_exp);
        }
    }

    /// The averages of the run and fight times.
    pub fn averages(&self) -> (a: Averages)
        ensures
            a.successful_run == average_spec(self.successful_runs@),
            a.failed_run == average_spec(self.failed_runs@),
            a.boss1_fight == average_spec(self.boss1_fights@),
            a.boss2_fight == average_spec(self.boss2_fights@),
    {
        Averages {
            successful_run: average(&self.successful_runs),
            failed_run: average(&self.failed_runs),
            boss1_fight: average(&self.boss1_fights),
            boss2_fight: average(&self.boss2_fights),
        }
    }
}

/// The repair tools are used on the first run and on every 19th.
pub open spec fn repair_due_spec(run_count: u64) -> bool {
    run_count == 0 || run_count % 19 == 0
}

/// Whether the repair tools are due on this run.
pub fn repair_due(run_count: u64) -> (due: bool)
    ensures
        due == repair_due_spec(run_count),
{
    run_count == 0 || run_count % 19 == 0
}

} // verus!
