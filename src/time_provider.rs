use vstd::prelude::*;
use crate::message::{clock_ok, TimeVal};

verus! {

/// How many round-trip samples the window keeps.
pub const WINDOW_SIZE: usize = 200;

/// Largest sample, in milliseconds, that the window takes: a full window of such samples still
/// sums within `u64`. It allows readings of up to about 9.2e13 seconds.
pub const MAX_SAMPLE_MS: u64 = 92233720368547758;

/// A time value in whole milliseconds.
pub open spec fn millis(t: TimeVal) -> int {
    t.sec * 1000 + t.usec / 1000
}

/// A time value that the window and the scheduler take: both fields non-negative, and at most
/// `MAX_SAMPLE_MS` milliseconds in all.
pub open spec fn sample_ok(t: TimeVal) -> bool {
    0 <= t.sec && 0 <= t.usec && millis(t) <= MAX_SAMPLE_MS
}

/// Whether `t` is a time value that the window and the scheduler take.
pub fn is_sample_ok(t: TimeVal) -> (r: bool)
    ensures
        r == sample_ok(t),
{
    t.sec >= 0 && t.usec >= 0 && (t.sec as u128) * 1000 + (t.usec as u128) / 1000
        <= MAX_SAMPLE_MS as u128
}

/// `t` in whole milliseconds.
pub fn millis_of(t: TimeVal) -> (r: u64)
    requires
        sample_ok(t),
    ensures
        r == millis(t),
{
    (t.sec as u64) * 1000 + (t.usec as u64) / 1000
}

/// `w` with `x` appended, keeping only the newest `WINDOW_SIZE` entries.
pub open spec fn push_window(w: Seq<u64>, x: u64) -> Seq<u64> {
    let v = w.push(x);
    if v.len() > WINDOW_SIZE {
        v.subrange(v.len() - WINDOW_SIZE, v.len() as int)
    } else {
        v
    }
}

/// The window after each of `xs` was pushed in turn onto an empty one.
pub open spec fn window_of(xs: Seq<u64>) -> Seq<u64>
    decreases xs.len(),
{
    if xs.len() == 0 {
        Seq::empty()
    } else {
        push_window(window_of(xs.drop_last()), xs.last())
    }
}

/// The newest `WINDOW_SIZE` entries of `xs`.
pub open spec fn latest(xs: Seq<u64>) -> Seq<u64> {
    if xs.len() > WINDOW_SIZE {
        xs.subrange(xs.len() - WINDOW_SIZE, xs.len() as int)
    } else {
        xs
    }
}

pub open spec fn seq_sum(s: Seq<u64>) -> int
    decreases s.len(),
{
    if s.len() == 0 {
        0
    } else {
        seq_sum(s.drop_last()) + s.last()
    }
}

/// The integer mean of `s`, rounded down; 0 for an empty sequence.
pub open spec fn mean(s: Seq<u64>) -> int {
    if s.len() == 0 {
        0
    } else {
        seq_sum(s) / (s.len() as int)
    }
}

/// Pushing samples one by one onto an empty window leaves exactly the newest
/// `WINDOW_SIZE` of them, in arrival order.
pub proof fn lemma_window_keeps_latest(xs: Seq<u64>)
    ensures
        window_of(xs) == latest(xs),
    decreases xs.len(),
{
    if xs.len() > 0 {
        lemma_window_keeps_latest(xs.drop_last());
        let prev = latest(xs.drop_last());
        if xs.len() > WINDOW_SIZE {
            assert(prev.push(xs.last()).subrange(prev.len() + 1 - WINDOW_SIZE, prev.len() + 1int)
                =~= xs.subrange(xs.len() - WINDOW_SIZE, xs.len() as int));
        } else {
            assert(prev.push(xs.last()) =~= xs);
        }
    }
}

/// The estimator of the offset between the local and the server clock: a moving window of
/// round-trip samples in milliseconds.
#[derive(Debug, Clone)]
pub struct TimeProvider {
    times: Vec<u64>,
}

impl View for TimeProvider {
    type V = Seq<u64>;

    closed spec fn view(&self) -> Seq<u64> {
        self.times@
    }
}

impl TimeProvider {
    /// The window holds at most `WINDOW_SIZE` samples, each one that the wire can carry.
    pub open spec fn wf(&self) -> bool {
        &&& self@.len() <= WINDOW_SIZE
        &&& forall|i: int| 0 <= i < self@.len() ==> self@[i] <= MAX_SAMPLE_MS
    }

    pub fn new() -> (r: TimeProvider)
        ensures
            r.wf(),
            r@ == Seq::<u64>::empty(),
    {
        TimeProvider { times: Vec::new() }
    }

    /// The samples in the window, oldest first, in milliseconds.
    pub fn samples(&self) -> (r: &Vec<u64>)
        ensures
            r@ == self@,
    {
        &self.times
    }

    /// Records a round-trip sample, dropping the oldest once the window is full.
    pub fn add_time(&mut self, time: TimeVal)
        requires
            old(self).wf(),
            sample_ok(time),
        ensures
            final(self).wf(),
            final(self)@ == push_window(old(self)@, millis(time) as u64),
    {
        let diff: u64 = millis_of(time);
        self.times.push(diff);
        if self.times.len() > WINDOW_SIZE {
            self.times.remove(0);
        }
        assert(self.times@ =~= push_window(old(self)@, millis(time) as u64));
    }

    /// The offset estimate: the mean of the window, 0 while it is empty.
    pub fn get_diff_to_server(&self) -> (r: u64)
        requires
            self.wf(),
        ensures
            r == mean(self@),
    {
        let l = self.times.len();
        let mut total: u64 = 0;
        let mut i: usize = 0;
        while i < l
            invariant
                l == self.times@.len(),
                l <= WINDOW_SIZE,
                i <= l,
                forall|j: int| 0 <= j < l ==> self.times@[j] <= MAX_SAMPLE_MS,
                total == seq_sum(self.times@.subrange(0, i as int)),
                total <= i * MAX_SAMPLE_MS,
            decreases l - i,
        {
            assert(self.times@.subrange(0, i + 1).drop_last() =~= self.times@.subrange(0, i as int));
            total = total + self.times[i];
            i = i + 1;
        }
        assert(self.times@.subrange(0, l as int) =~= self.times@);
        if l == 0 {
            0
        } else {
            total / (l as u64)
        }
    }

    /// The server's clock at the local reading `now`: `now` in milliseconds plus the offset
    /// estimate.
    pub fn server_time_at(&self, now: TimeVal) -> (r: u64)
        requires
            self.wf(),
            clock_ok(now),
        ensures
            r == millis(now) + mean(self@),
    {
        let diff = self.get_diff_to_server();
        assert(diff <= MAX_SAMPLE_MS) by {
            self.lemma_mean_bounded();
        }
        (now.sec as u64) * 1000 + (now.usec as u64) / 1000 + diff
    }

    /// The server's clock now, by the local wall clock and the offset estimate.
    pub fn get_server_time(&self) -> (r: u64)
        requires
            self.wf(),
        ensures
            exists|now: TimeVal| clock_ok(now) && r == millis(now) + mean(self@),
    {
        let now = TimeVal::new();
        self.server_time_at(now)
    }

    proof fn lemma_mean_bounded(&self)
        requires
            self.wf(),
        ensures
            0 <= mean(self@) <= MAX_SAMPLE_MS,
    {
        lemma_sum_bounded(self.times@);
        let s = self.times@;
        if s.len() > 0 {
            let n = s.len() as int;
            assert(seq_sum(s) / n <= MAX_SAMPLE_MS) by (nonlinear_arith)
                requires
                    0 <= seq_sum(s) <= n * MAX_SAMPLE_MS,
                    n > 0,
            ;
            assert(seq_sum(s) / n >= 0) by (nonlinear_arith)
                requires
                    0 <= seq_sum(s),
                    n > 0,
            ;
        }
    }
}

proof fn lemma_sum_bounded(s: Seq<u64>)
    requires
        forall|i: int| 0 <= i < s.len() ==> s[i] <= MAX_SAMPLE_MS,
    ensures
        0 <= seq_sum(s) <= s.len() * MAX_SAMPLE_MS,
    decreases s.len(),
{
    if s.len() > 0 {
        lemma_sum_bounded(s.drop_last());
    }
}

} // verus!
