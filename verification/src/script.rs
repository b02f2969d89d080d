//! Hardware-status modelling shared by all peripherals.
//!
//! The drivers in this crate busy-wait on memory-mapped status registers
//! whose bits are flipped by the hardware, not by the driver.  The model
//! represents the hardware's side of such a register as a finite queue of
//! read results: each polled read consumes the front of the queue.  A spin
//! loop therefore returns exactly at the first queued value that satisfies
//! its exit condition, which is what lets the contracts say "this call does
//! not return while the bit is still set".
//!
//! Two wait shapes exist.  [`StatusScript::poll_until`] is for bits only the
//! hardware's progress can satisfy (a transfer draining, a frame arriving):
//! its precondition that the queue eventually satisfies the condition is the
//! model's rendering of the unbounded spin — on hardware that never responds
//! the driver would simply never return.  [`StatusScript::poll_or_settle`]
//! is for registers with a quiescent value the hardware falls back to once
//! it has caught up (an emptied FIFO, an idle bus): the wait runs through
//! whatever transient values are queued and then reads the settled value,
//! so it needs no precondition.

use vstd::prelude::*;

verus! {

/// Exit condition of one busy-wait loop, applied to a polled register value.
#[derive(Clone, Copy, PartialEq, Eq, Structural, Debug)]
pub enum PollCond {
    /// At least one of the masked bits reads as one.
    AnySet(u32),
    /// The masked bits read exactly as the given pattern.
    MaskedEq(u32, u32),
    /// The value reads below the given bound.
    Below(u32),
}

/// Whether a polled register value satisfies the exit condition.
pub open spec fn cond_holds(c: PollCond, v: u32) -> bool {
    match c {
        PollCond::AnySet(mask) => v & mask != 0,
        PollCond::MaskedEq(mask, want) => v & mask == want,
        PollCond::Below(bound) => v < bound,
    }
}

/// Runtime check of [`cond_holds`].
pub fn check_cond(c: PollCond, v: u32) -> (b: bool)
    ensures
        b == cond_holds(c, v),
{
    match c {
        PollCond::AnySet(mask) => v & mask != 0,
        PollCond::MaskedEq(mask, want) => v & mask == want,
        PollCond::Below(bound) => v < bound,
    }
}

/// Whether some queued value satisfies the exit condition.
pub open spec fn has_hit(p: Seq<u32>, c: PollCond) -> bool {
    exists|i: int| 0 <= i < p.len() && cond_holds(c, p[i])
}

/// Index of the first queued value that satisfies the exit condition
/// (meaningful only when [`has_hit`] holds).
pub open spec fn first_hit(p: Seq<u32>, c: PollCond) -> int
    decreases p.len(),
{
    if p.len() == 0 {
        0
    } else if cond_holds(c, p[0]) {
        0
    } else {
        1 + first_hit(p.skip(1), c)
    }
}

/// What remains of the queue once a spin loop has consumed up to and
/// including the first satisfying value.
pub open spec fn after_hit(p: Seq<u32>, c: PollCond) -> Seq<u32> {
    p.skip(first_hit(p, c) + 1)
}

/// What remains of the queue after a wait on a register that settles: the
/// tail past the first satisfying value, or nothing when every queued value
/// fails and the wait ends on the settled register instead.
pub open spec fn drained(p: Seq<u32>, c: PollCond) -> Seq<u32> {
    if has_hit(p, c) {
        after_hit(p, c)
    } else {
        Seq::empty()
    }
}

/// What such a wait returns: the first satisfying queued value, or the
/// register's quiescent value once the queue is exhausted.
pub open spec fn drain_result(p: Seq<u32>, c: PollCond, quiescent: u32) -> u32 {
    if has_hit(p, c) {
        p[first_hit(p, c)]
    } else {
        quiescent
    }
}

/// The queue after `n` successive settling waits.
pub open spec fn drained_n(p: Seq<u32>, c: PollCond, n: nat) -> Seq<u32>
    decreases n,
{
    if n == 0 {
        p
    } else {
        drained_n(drained(p, c), c, (n - 1) as nat)
    }
}

/// One more settling wait drains the queue one more step.
pub proof fn lemma_drained_n_step(p: Seq<u32>, c: PollCond, n: nat)
    ensures
        drained_n(p, c, n + 1) == drained(drained_n(p, c, n), c),
    decreases n,
{
    assert(drained_n(p, c, n + 1) == drained_n(drained(p, c), c, n));
    if n == 0 {
        assert(drained_n(drained(p, c), c, 0) == drained(p, c));
        assert(drained_n(p, c, 0) == p);
    } else {
        lemma_drained_n_step(drained(p, c), c, (n - 1) as nat);
        assert(drained_n(p, c, n) == drained_n(drained(p, c), c, (n - 1) as nat));
    }
}

/// The first satisfying value is within the queue, satisfies the condition,
/// and nothing before it does.
pub proof fn lemma_first_hit(p: Seq<u32>, c: PollCond)
    requires
        has_hit(p, c),
    ensures
        0 <= first_hit(p, c) < p.len(),
        cond_holds(c, p[first_hit(p, c)]),
        forall|j: int| 0 <= j < first_hit(p, c) ==> !cond_holds(c, p[j]),
    decreases p.len(),
{
    if p.len() > 0 && !cond_holds(c, p[0]) {
        let q = p.skip(1);
        assert(has_hit(q, c)) by {
            let i = choose|i: int| 0 <= i < p.len() && cond_holds(c, p[i]);
            assert(q[i - 1] == p[i]);
        }
        lemma_first_hit(q, c);
        assert forall|j: int| 0 <= j < first_hit(p, c) implies !cond_holds(c, p[j]) by {
            if j > 0 {
                assert(p[j] == q[j - 1]);
            }
        }
    }
}

/// The hardware's pending answers for one status register, together with a
/// cursor over how many of them the driver has already consumed.
pub struct StatusScript {
    /// Queued read results, oldest first.
    pub reads: Vec<u32>,
    /// How many of them have been consumed by polled reads.
    pub taken: usize,
}

impl StatusScript {
    /// The cursor never runs past the queue.
    pub open spec fn wf(self) -> bool {
        self.taken <= self.reads.len()
    }

    /// The read results not yet consumed.
    pub open spec fn pending(self) -> Seq<u32> {
        self.reads@.skip(self.taken as int)
    }

    /// A script with nothing queued.
    pub fn new() -> (s: StatusScript)
        ensures
            s.wf(),
            s.pending() == Seq::<u32>::empty(),
            s.reads@ == Seq::<u32>::empty(),
            s.taken == 0,
    {
        let s = StatusScript { reads: Vec::new(), taken: 0 };
        proof {
            assert(s.pending() =~= Seq::<u32>::empty());
        }
        s
    }

    /// Queue one more read result for the hardware to serve.
    pub fn enqueue(&mut self, v: u32)
        requires
            old(self).wf(),
        ensures
            final(self).wf(),
            final(self).taken == old(self).taken,
            final(self).reads@ == old(self).reads@.push(v),
            final(self).pending() == old(self).pending().push(v),
    {
        self.reads.push(v);
        proof {
            assert(self.pending() =~= old(self).pending().push(v));
        }
    }

    /// Serve the next queued read result (a single unpolled register read).
    pub fn take_next(&mut self) -> (v: u32)
        requires
            old(self).wf(),
            old(self).pending().len() > 0,
        ensures
            final(self).wf(),
            final(self).reads == old(self).reads,
            final(self).taken == old(self).taken + 1,
            v == old(self).pending()[0],
            final(self).pending() == old(self).pending().skip(1),
    {
        let v = self.reads[self.taken];
        self.taken = self.taken + 1;
        proof {
            assert(self.pending() =~= old(self).pending().skip(1));
        }
        v
    }

    /// Spin until a polled read satisfies the exit condition: consumes queued
    /// values up to and including the first satisfying one, and returns it.
    pub fn poll_until(&mut self, c: PollCond) -> (v: u32)
        requires
            old(self).wf(),
            has_hit(old(self).pending(), c),
        ensures
            final(self).wf(),
            final(self).reads == old(self).reads,
            v == old(self).pending()[first_hit(old(self).pending(), c)],
            cond_holds(c, v),
            final(self).pending() == after_hit(old(self).pending(), c),
            final(self).taken == old(self).taken + first_hit(old(self).pending(), c) + 1,
            forall|j: int|
                0 <= j < first_hit(old(self).pending(), c) ==> !cond_holds(
                    c,
                    old(self).pending()[j],
                ),
    {
        let ghost p0 = self.pending();
        let ghost n = first_hit(p0, c);
        proof {
            lemma_first_hit(p0, c);
        }
        loop
            invariant
                self.wf(),
                self.reads == old(self).reads,
                p0 == old(self).pending(),
                n == first_hit(p0, c),
                old(self).taken <= self.taken,
                self.taken - old(self).taken <= n,
                self.pending() == p0.skip(self.taken - old(self).taken),
                0 <= n < p0.len(),
                cond_holds(c, p0[n]),
                forall|j: int| 0 <= j < n ==> !cond_holds(c, p0[j]),
            decreases n - (self.taken - old(self).taken),
        {
            let ghost k = self.taken - old(self).taken;
            proof {
                assert(self.pending()[0] == p0[k]);
            }
            let v = self.take_next();
            if check_cond(c, v) {
                proof {
                    assert(k == n);
                    assert(self.pending() =~= after_hit(p0, c));
                }
                return v;
            }
            proof {
                assert(k < n);
                assert(self.pending() =~= p0.skip(k + 1));
            }
        }
    }

    /// Spin on a register that settles to `quiescent` once the hardware has
    /// caught up: consume queued values up to and including the first
    /// satisfying one, or the whole queue if none satisfies, in which case
    /// the read returns the settled value.  Nothing consumed before the
    /// exit read satisfied the condition.
    pub fn poll_or_settle(&mut self, c: PollCond, quiescent: u32) -> (v: u32)
        requires
            old(self).wf(),
            cond_holds(c, quiescent),
        ensures
            final(self).wf(),
            final(self).reads == old(self).reads,
            v == drain_result(old(self).pending(), c, quiescent),
            cond_holds(c, v),
            final(self).pending() == drained(old(self).pending(), c),
            has_hit(old(self).pending(), c) ==> forall|j: int|
                0 <= j < first_hit(old(self).pending(), c) ==> !cond_holds(
                    c,
                    old(self).pending()[j],
                ),
    {
        let ghost p0 = self.pending();
        while self.taken < self.reads.len()
            invariant
                self.wf(),
                self.reads == old(self).reads,
                p0 == old(self).pending(),
                old(self).taken <= self.taken,
                self.pending() == p0.skip(self.taken - old(self).taken),
                forall|j: int|
                    0 <= j < self.taken - old(self).taken ==> !cond_holds(c, p0[j]),
            decreases self.reads.len() - self.taken,
        {
            let ghost k = self.taken - old(self).taken;
            proof {
                assert(self.pending()[0] == p0[k]);
            }
            let v = self.take_next();
            if check_cond(c, v) {
                proof {
                    assert(has_hit(p0, c));
                    lemma_first_hit(p0, c);
                    assert(first_hit(p0, c) == k);
                    assert(self.pending() =~= drained(p0, c));
                }
                return v;
            }
        }
        proof {
            assert(self.pending().len() == 0);
            assert(!has_hit(p0, c));
            assert(self.pending() =~= drained(p0, c));
        }
        quiescent
    }
}

} // verus!
