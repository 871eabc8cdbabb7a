//! The telemetry ring buffer: the most recent per-angle hall samples, kept
//! for live polling independently of the acquisition.
use std::collections::VecDeque;
use vstd::prelude::*;
use crate::hall::HallSample;
use vstd::math::min;

verus! {

/// Capacity of the telemetry buffer.
pub const BUFFER_SIZE: usize = 10000;

/// One sweep sample: the angle, as the bits of an `f32`, with the hall
/// sample taken there. The two are always reported together.
#[derive(Clone, Copy, Debug, PartialEq, Eq)]
pub struct Payload {
    pub angle_bits: u32,
    pub data: HallSample,
}

/// The buffer after pushing `p` onto `s`: the oldest entry leaves first when
/// the buffer is full.
pub open spec fn push_spec(s: Seq<Payload>, p: Payload) -> Seq<Payload> {
    if s.len() >= BUFFER_SIZE {
        s.drop_first().push(p)
    } else {
        s.push(p)
    }
}

/// The buffer after pushing each of `items` in turn onto `s`.
pub open spec fn push_all(s: Seq<Payload>, items: Seq<Payload>) -> Seq<Payload>
    decreases items.len(),
{
    if items.len() == 0 {
        s
    } else {
        push_spec(push_all(s, items.drop_last()), items.last())
    }
}

/// A bounded FIFO of sweep samples with drop-oldest overflow.
pub struct HallBuffer {
    items: VecDeque<Payload>,
}

impl HallBuffer {
    /// The samples held, oldest first.
    pub closed spec fn view(&self) -> Seq<Payload> {
        self.items@
    }

    /// The buffer holds at most `BUFFER_SIZE` samples.
    pub open spec fn wf(&self) -> bool {
        self@.len() <= BUFFER_SIZE
    }

    /// An empty buffer.
    pub fn new() -> (r: HallBuffer)
        ensures
            r@ == Seq::<Payload>::empty(),
            r.wf(),
    {
        HallBuffer { items: VecDeque::new() }
    }

    /// Number of samples held.
    pub fn len(&self) -> (r: usize)
        ensures
            r == self@.len(),
    {
        self.items.len()
    }

    /// Appends `payload`, evicting the oldest sample first when full.
    pub fn push_hall_data(&mut self, payload: Payload)
        requires
            old(self).wf(),
        ensures
            final(self).wf(),
            final(self)@ == push_spec(old(self)@, payload),
    {
        if self.items.len() >= BUFFER_SIZE {
            let _ = self.items.pop_front();
        }
        self.items.push_back(payload);
        proof {
            if old(self)@.len() >= BUFFER_SIZE {
                assert(self@ =~= old(self)@.drop_first().push(payload));
            }
        }
    }

    /// Removes and returns the `min(max, len)` oldest samples, oldest first.
    pub fn fetch_hall_data(&mut self, max: usize) -> (r: Vec<Payload>)
        requires
            old(self).wf(),
        ensures
            final(self).wf(),
            r@ == old(self)@.take(min(max as int, old(self)@.len() as int)),
            final(self)@ == old(self)@.skip(min(max as int, old(self)@.len() as int)),
    {
        let mut res: Vec<Payload> = Vec::new();
        let mut n: usize = 0;
        while n < max && self.items.len() > 0
            invariant
                n <= max,
                n <= old(self)@.len(),
                res@ == old(self)@.take(n as int),
                self@ == old(self)@.skip(n as int),
            decreases max - n,
        {
            if let Some(item) = self.items.pop_front() {
                res.push(item);
                n = n + 1;
                assert(res@ =~= old(self)@.take(n as int));
                assert(self@ =~= old(self)@.skip(n as int));
            }
        }
        res
    }
}

/// Pushing `k` more samples than the capacity onto an empty buffer leaves it
/// full, holding the last `BUFFER_SIZE` samples pushed in their order; more
/// generally an empty buffer holds the last `min(n, BUFFER_SIZE)` of `n`
/// samples pushed.
pub proof fn lemma_push_keeps_latest(items: Seq<Payload>)
    ensures
        push_all(Seq::empty(), items) == items.skip(
            if items.len() > BUFFER_SIZE {
                items.len() - BUFFER_SIZE
            } else {
                0
            },
        ),
    decreases items.len(),
{
    if items.len() > 0 {
        let rest = items.drop_last();
        lemma_push_keeps_latest(rest);
        let before = push_all(Seq::empty(), rest);
        if rest.len() >= BUFFER_SIZE {
            assert(before.drop_first().push(items.last()) =~= items.skip(items.len() - BUFFER_SIZE));
        } else {
            assert(before.push(items.last()) =~= items.skip(0));
        }
    } else {
        assert(items.skip(0) =~= items);
    }
}

/// Draining `n` samples from a buffer of `m` returns `min(n, m)` of them and
/// shrinks the buffer by as many.
pub proof fn lemma_drain_count(s: Seq<Payload>, n: int)
    requires
        n >= 0,
    ensures
        s.take(min(n, s.len() as int)).len() == min(n, s.len() as int),
        s.skip(min(n, s.len() as int)).len() == s.len() - min(n, s.len() as int),
{
}

} // verus!
