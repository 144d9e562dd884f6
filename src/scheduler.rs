use vstd::prelude::*;

verus! {

/// Chunks whose age lies in `0..=READY_WINDOW_MS` are played on this tick.
pub const READY_WINDOW_MS: u64 = 100;

/// Playback target used by the client: one second behind the server.
pub const DEFAULT_BUFFER_TARGET_MS: u64 = 1000;

/// Time from handing samples to the device until they are heard.
pub const DEFAULT_OUTPUT_LATENCY_SLOP_MS: u64 = 150;

/// Decoded samples waiting for the instant the server stamped them with.
#[derive(Debug, Clone)]
pub struct PendingChunk {
    pub timestamp_ms: u64,
    pub samples: Vec<i16>,
}

/// How long before its playback instant a chunk stands, in milliseconds: the chunk is due at
/// `ts + target`, and must reach the device `slop` earlier. Negative means it is too late.
pub open spec fn age(ts: u64, now: u64, target: u64, slop: u64) -> int {
    (ts + target + slop) - now
}

pub open spec fn is_ready(a: int) -> bool {
    0 <= a <= READY_WINDOW_MS
}

pub open spec fn is_early(a: int) -> bool {
    a > READY_WINDOW_MS
}

/// The samples of every ready chunk of `s`, concatenated in the order of `s`.
pub open spec fn ready_run(s: Seq<PendingChunk>, now: u64, target: u64, slop: u64) -> Seq<i16>
    decreases s.len(),
{
    if s.len() == 0 {
        Seq::empty()
    } else {
        let c = s.last();
        let before = ready_run(s.drop_last(), now, target, slop);
        if is_ready(age(c.timestamp_ms, now, target, slop)) {
            before + c.samples@
        } else {
            before
        }
    }
}

/// The chunks of `s` that are still too early, in the order of `s`.
pub open spec fn early_chunks(s: Seq<PendingChunk>, now: u64, target: u64, slop: u64) -> Seq<
    PendingChunk,
>
    decreases s.len(),
{
    if s.len() == 0 {
        Seq::empty()
    } else {
        let c = s.last();
        let before = early_chunks(s.drop_last(), now, target, slop);
        if is_early(age(c.timestamp_ms, now, target, slop)) {
            before.push(c)
        } else {
            before
        }
    }
}

/// `s` with `c` placed after every chunk not later than it.
pub open spec fn in_order_with(s: Seq<PendingChunk>, c: PendingChunk) -> Seq<PendingChunk>
    decreases s.len(),
{
    if s.len() == 0 {
        seq![c]
    } else if s.last().timestamp_ms <= c.timestamp_ms {
        s.push(c)
    } else {
        in_order_with(s.drop_last(), c).push(s.last())
    }
}

/// Timestamps never decrease along `s`.
pub open spec fn sorted(s: Seq<PendingChunk>) -> bool {
    forall|i: int, j: int| 0 <= i < j < s.len() ==> s[i].timestamp_ms <= s[j].timestamp_ms
}

proof fn lemma_early_bounded(s: Seq<PendingChunk>, now: u64, target: u64, slop: u64, bound: u64)
    requires
        forall|j: int| 0 <= j < s.len() ==> s[j].timestamp_ms <= bound,
    ensures
        forall|k: int|
            0 <= k < early_chunks(s, now, target, slop).len() ==> early_chunks(
                s,
                now,
                target,
                slop,
            )[k].timestamp_ms <= bound,
    decreases s.len(),
{
    if s.len() > 0 {
        let t = s.drop_last();
        assert(forall|j: int| 0 <= j < t.len() ==> t[j] == s[j]);
        lemma_early_bounded(t, now, target, slop, bound);
        let e = early_chunks(t, now, target, slop);
        assert(s.last().timestamp_ms <= bound);
        if is_early(age(s.last().timestamp_ms, now, target, slop)) {
            assert(early_chunks(s, now, target, slop) == e.push(s.last()));
        } else {
            assert(early_chunks(s, now, target, slop) == e);
        }
    }
}

proof fn lemma_early_sorted(s: Seq<PendingChunk>, now: u64, target: u64, slop: u64)
    requires
        sorted(s),
    ensures
        sorted(early_chunks(s, now, target, slop)),
    decreases s.len(),
{
    if s.len() > 0 {
        let t = s.drop_last();
        lemma_early_sorted(t, now, target, slop);
        lemma_early_bounded(t, now, target, slop, s.last().timestamp_ms);
    }
}

proof fn lemma_in_order_step(s: Seq<PendingChunk>, i: int, c: PendingChunk)
    requires
        0 < i <= s.len(),
        s[i - 1].timestamp_ms > c.timestamp_ms,
    ensures
        in_order_with(s.subrange(0, i), c) + s.subrange(i, s.len() as int) == in_order_with(
            s.subrange(0, i - 1),
            c,
        ) + s.subrange(i - 1, s.len() as int),
{
    let p = s.subrange(0, i);
    assert(p.drop_last() =~= s.subrange(0, i - 1));
    assert(in_order_with(p, c) == in_order_with(s.subrange(0, i - 1), c).push(s[i - 1]));
    assert(in_order_with(s.subrange(0, i - 1), c).push(s[i - 1]) + s.subrange(i, s.len() as int)
        =~= in_order_with(s.subrange(0, i - 1), c) + s.subrange(i - 1, s.len() as int));
}

proof fn lemma_insert_sorted(s: Seq<PendingChunk>, i: int, c: PendingChunk)
    requires
        sorted(s),
        0 <= i <= s.len(),
        forall|j: int| 0 <= j < i ==> s[j].timestamp_ms <= c.timestamp_ms,
        forall|j: int| i <= j < s.len() ==> s[j].timestamp_ms > c.timestamp_ms,
    ensures
        sorted(s.insert(i, c)),
{
    let r = s.insert(i, c);
    assert forall|a: int, b: int| 0 <= a < b < r.len() implies r[a].timestamp_ms
        <= r[b].timestamp_ms by {
        if a < i && b > i {
            assert(r[a] == s[a] && r[b] == s[b - 1]);
        } else if a < i && b == i {
        } else if a == i {
            assert(r[b] == s[b - 1]);
        } else if b < i {
        } else {
            assert(r[a] == s[a - 1] && r[b] == s[b - 1]);
        }
    }
}

/// Moves every sample of `from` to the end of `out`.
fn append_samples(out: &mut Vec<i16>, from: &mut Vec<i16>)
    ensures
        final(out)@ == old(out)@ + old(from)@,
{
    out.append(from);
}

/// The jitter buffer: decoded chunks waiting to be played, in timestamp order.
pub struct PlaybackScheduler {
    pending: Vec<PendingChunk>,
    output_latency_slop_ms: u64,
}

impl View for PlaybackScheduler {
    type V = Seq<PendingChunk>;

    closed spec fn view(&self) -> Seq<PendingChunk> {
        self.pending@
    }
}

impl PlaybackScheduler {
    /// The pending chunks are in timestamp order.
    pub open spec fn wf(&self) -> bool {
        sorted(self@)
    }

    /// The output latency this scheduler allows for.
    pub closed spec fn slop(&self) -> u64 {
        self.output_latency_slop_ms
    }

    /// An empty scheduler for an output device with the given latency.
    pub fn with_output_latency(output_latency_slop_ms: u64) -> (r: PlaybackScheduler)
        ensures
            r.wf(),
            r@ == Seq::<PendingChunk>::empty(),
            r.slop() == output_latency_slop_ms,
    {
        PlaybackScheduler { pending: Vec::new(), output_latency_slop_ms }
    }

    /// An empty scheduler with the client's default output latency.
    pub fn new() -> (r: PlaybackScheduler)
        ensures
            r.wf(),
            r@ == Seq::<PendingChunk>::empty(),
            r.slop() == DEFAULT_OUTPUT_LATENCY_SLOP_MS,
    {
        PlaybackScheduler::with_output_latency(DEFAULT_OUTPUT_LATENCY_SLOP_MS)
    }

    /// How many chunks are waiting.
    pub fn pending_len(&self) -> (r: usize)
        ensures
            r == self@.len(),
    {
        self.pending.len()
    }

    /// The timestamp of the waiting chunk at `i`.
    pub fn pending_timestamp(&self, i: usize) -> (r: u64)
        requires
            i < self@.len(),
        ensures
            r == self@[i as int].timestamp_ms,
    {
        self.pending[i].timestamp_ms
    }

    /// Takes a chunk in, after every waiting chunk not later than it.
    pub fn push_chunk(&mut self, chunk: PendingChunk)
        requires
            old(self).wf(),
        ensures
            final(self).wf(),
            final(self)@ == in_order_with(old(self)@, chunk),
            final(self).slop() == old(self).slop(),
    {
        let ghost s = self.pending@;
        let len = self.pending.len();
        let mut i: usize = len;
        assert(s.subrange(0, len as int) =~= s);
        assert(in_order_with(s, chunk) + s.subrange(len as int, len as int) =~= in_order_with(s, chunk));
        while i > 0 && self.pending[i - 1].timestamp_ms > chunk.timestamp_ms
            invariant
                self.pending@ == s,
                len == s.len(),
                i <= len,
                forall|j: int| i <= j < len ==> s[j].timestamp_ms > chunk.timestamp_ms,
                in_order_with(s, chunk) == in_order_with(s.subrange(0, i as int), chunk) + s.subrange(
                    i as int,
                    len as int,
                ),
            decreases i,
        {
            proof {
                lemma_in_order_step(s, i as int, chunk);
            }
            i = i - 1;
        }
        if i > 0 {
            assert(s.subrange(0, i as int).drop_last() =~= s.subrange(0, i - 1));
            assert(s.subrange(0, i as int).last() == s[i - 1]);
        }
        assert(in_order_with(s.subrange(0, i as int), chunk) =~= s.subrange(0, i as int).push(chunk));
        self.pending.insert(i, chunk);
        assert(self.pending@ =~= s.subrange(0, i as int).push(chunk) + s.subrange(i as int, len as int));
        assert(forall|j: int| 0 <= j < i ==> s[j].timestamp_ms <= chunk.timestamp_ms) by {
            if i > 0 {
                assert(s[i - 1].timestamp_ms <= chunk.timestamp_ms);
            }
        }
        proof {
            lemma_insert_sorted(s, i as int, chunk);
        }
    }

    /// One scheduling step at server time `server_time_ms`: returns the samples of every chunk
    /// whose age lies in `0..=READY_WINDOW_MS`, in timestamp order, keeps the chunks that are
    /// still too early and drops those that are too late.
    pub fn tick(&mut self, server_time_ms: u64, buffer_target_ms: u64) -> (run: Vec<i16>)
        requires
            old(self).wf(),
        ensures
            final(self).wf(),
            final(self).slop() == old(self).slop(),
            run@ == ready_run(old(self)@, server_time_ms, buffer_target_ms, old(self).slop()),
            final(self)@ == early_chunks(
                old(self)@,
                server_time_ms,
                buffer_target_ms,
                old(self).slop(),
            ),
    {
        let slop = self.output_latency_slop_ms;
        let mut rest: Vec<PendingChunk> = Vec::new();
        std::mem::swap(&mut self.pending, &mut rest);
        let ghost s = rest@;
        let len = rest.len();
        let mut run: Vec<i16> = Vec::new();
        let mut kept: Vec<PendingChunk> = Vec::new();
        let mut i: usize = 0;
        while i < len
            invariant
                len == s.len(),
                i <= len,
                rest@ == s.subrange(i as int, len as int),
                run@ == ready_run(s.subrange(0, i as int), server_time_ms, buffer_target_ms, slop),
                kept@ == early_chunks(s.subrange(0, i as int), server_time_ms, buffer_target_ms, slop),
            decreases len - i,
        {
            let mut c = rest.remove(0);
            assert(c == s[i as int]);
            assert(s.subrange(0, i + 1).drop_last() =~= s.subrange(0, i as int));
            let due = c.timestamp_ms as u128 + buffer_target_ms as u128 + slop as u128;
            let at = server_time_ms as u128;
            if at <= due && due <= at + READY_WINDOW_MS as u128 {
                append_samples(&mut run, &mut c.samples);
            } else if due > at + READY_WINDOW_MS as u128 {
                kept.push(c);
            }
            i = i + 1;
            assert(rest@ =~= s.subrange(i as int, len as int));
        }
        assert(s.subrange(0, len as int) =~= s);
        proof {
            lemma_early_sorted(s, server_time_ms, buffer_target_ms, slop);
        }
        self.pending = kept;
        run
    }
}

} // verus!
