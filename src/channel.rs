//! The bounded sample channel and the two relays that run on it.
use vstd::prelude::*;
use ringbuf::{Consumer, Producer};
use crate::ring::{ring_capacity, ring_contents, ring_new, ring_pop, ring_push, ring_remaining, ring_capacity_of, MAX_CAPACITY};

verus! {

/// The error of a push onto a channel that already holds `capacity` samples.
#[derive(Debug, Clone, Copy, PartialEq, Eq, Structural)]
pub struct Full;

/// The error of priming a channel beyond its free space.
#[derive(Debug, Clone, Copy, PartialEq, Eq, Structural)]
pub struct PrimeOverflow;

/// A fixed-capacity FIFO of samples. The producer end and the consumer end
/// of one ring are created together and are never handed out, so there is
/// exactly one of each.
pub struct SampleChannel {
    producer: Producer<u32>,
    consumer: Consumer<u32>,
}

/// One operation on a channel: a push of a sample, or a pop.
#[derive(Debug, Clone, Copy, PartialEq, Eq, Structural)]
pub enum ChannelOp {
    Push(u32),
    Pop,
}

/// What a channel holding `q` with capacity `cap` holds after `op`.
pub open spec fn next_contents(q: Seq<u32>, cap: nat, op: ChannelOp) -> Seq<u32> {
    match op {
        ChannelOp::Push(s) => if q.len() < cap { q.push(s) } else { q },
        ChannelOp::Pop => if q.len() > 0 { q.drop_first() } else { q },
    }
}

/// The sample `op` enqueues on a channel holding `q`: one for an accepted
/// push, none otherwise.
pub open spec fn accepted_by(q: Seq<u32>, cap: nat, op: ChannelOp) -> Seq<u32> {
    match op {
        ChannelOp::Push(s) => if q.len() < cap { seq![s] } else { Seq::empty() },
        ChannelOp::Pop => Seq::empty(),
    }
}

/// The sample `op` dequeues from a channel holding `q`: one for a pop from
/// a non-empty channel, none otherwise.
pub open spec fn delivered_by(q: Seq<u32>, op: ChannelOp) -> Seq<u32> {
    match op {
        ChannelOp::Push(_) => Seq::empty(),
        ChannelOp::Pop => if q.len() > 0 { seq![q[0]] } else { Seq::empty() },
    }
}

/// What a channel holding `q` with capacity `cap` holds after `ops`, in order.
pub open spec fn contents_after(q: Seq<u32>, cap: nat, ops: Seq<ChannelOp>) -> Seq<u32>
    decreases ops.len(),
{
    if ops.len() == 0 {
        q
    } else {
        next_contents(contents_after(q, cap, ops.drop_last()), cap, ops.last())
    }
}

/// The samples of all accepted pushes among `ops`, in order.
pub open spec fn accepted(q: Seq<u32>, cap: nat, ops: Seq<ChannelOp>) -> Seq<u32>
    decreases ops.len(),
{
    if ops.len() == 0 {
        Seq::empty()
    } else {
        accepted(q, cap, ops.drop_last()) + accepted_by(
            contents_after(q, cap, ops.drop_last()),
            cap,
            ops.last(),
        )
    }
}

/// The samples returned by all successful pops among `ops`, in order.
pub open spec fn delivered(q: Seq<u32>, cap: nat, ops: Seq<ChannelOp>) -> Seq<u32>
    decreases ops.len(),
{
    if ops.len() == 0 {
        Seq::empty()
    } else {
        delivered(q, cap, ops.drop_last()) + delivered_by(
            contents_after(q, cap, ops.drop_last()),
            ops.last(),
        )
    }
}

/// `n` silent samples.
pub open spec fn silence(n: nat) -> Seq<u32> {
    Seq::new(n, |i: int| 0u32)
}

/// What a capture batch leaves in a channel holding `q` with capacity
/// `cap`: the samples of `data` that fit are appended in order.
pub open spec fn after_capture(q: Seq<u32>, cap: nat, data: Seq<u32>) -> Seq<u32> {
    let free = cap - q.len();
    if data.len() <= free {
        q + data
    } else {
        q + data.take(free)
    }
}

/// The number of samples a playback request of `n` slots takes from `q`.
pub open spec fn taken(q: Seq<u32>, n: nat) -> nat {
    if n <= q.len() { n } else { q.len() }
}

/// The samples a playback request of `n` slots writes: what the channel
/// holds, oldest first, then silence for the slots it cannot fill.
pub open spec fn played(q: Seq<u32>, n: nat) -> Seq<u32> {
    q.take(taken(q, n) as int) + silence((n - taken(q, n)) as nat)
}

impl SampleChannel {
    /// The samples held, oldest first.
    pub closed spec fn view(&self) -> Seq<u32> {
        ring_contents(self.producer, self.consumer)
    }

    /// The fixed capacity.
    pub closed spec fn capacity_spec(&self) -> nat {
        ring_capacity(self.producer)
    }

    /// Never more than `capacity` samples are held.
    pub open spec fn wf(&self) -> bool {
        self@.len() <= self.capacity_spec()
    }

    /// An empty channel of the given capacity.
    pub fn new(capacity: usize) -> (r: SampleChannel)
        requires
            capacity <= MAX_CAPACITY,
        ensures
            r.wf(),
            r@ == Seq::<u32>::empty(),
            r.capacity_spec() == capacity as nat,
    {
        let (producer, consumer) = ring_new(capacity);
        SampleChannel { producer, consumer }
    }

    /// Appends `s` at the tail, or fails with `Full` when the channel holds
    /// `capacity` samples, in which case nothing changes.
    pub fn push(&mut self, s: u32) -> (r: Result<(), Full>)
        requires
            old(self).wf(),
        ensures
            final(self).wf(),
            final(self).capacity_spec() == old(self).capacity_spec(),
            r is Err <==> old(self)@.len() == old(self).capacity_spec(),
            final(self)@ == next_contents(old(self)@, old(self).capacity_spec(), ChannelOp::Push(s)),
            r is Ok ==> final(self)@ == old(self)@.push(s),
            r is Err ==> final(self)@ == old(self)@,
    {
        match ring_push(&mut self.producer, &self.consumer, s) {
            Ok(()) => Ok(()),
            Err(_) => Err(Full),
        }
    }

    /// Appends `depth` silent samples. Fails with `PrimeOverflow`, leaving
    /// the channel unchanged, when fewer than `depth` slots are free.
    pub fn prime(&mut self, depth: usize) -> (r: Result<(), PrimeOverflow>)
        requires
            old(self).wf(),
        ensures
            final(self).wf(),
            final(self).capacity_spec() == old(self).capacity_spec(),
            r is Err <==> old(self)@.len() + depth > old(self).capacity_spec(),
            r is Ok ==> final(self)@ == old(self)@ + silence(depth as nat),
            r is Err ==> final(self)@ == old(self)@,
    {
        let free = self.remaining();
        if depth > free {
            return Err(PrimeOverflow);
        }
        let ghost start = self@;
        let mut i: usize = 0;
        while i < depth
            invariant
                self.wf(),
                self.capacity_spec() == old(self).capacity_spec(),
                start == old(self)@,
                start.len() + depth <= self.capacity_spec(),
                i <= depth,
                self@ == start + silence(i as nat),
            decreases depth - i,
        {
            let pushed = self.push(0);
            assert(pushed is Ok);
            i = i + 1;
            assert(self@ == start + silence(i as nat));
        }
        Ok(())
    }

    /// Capture relay: pushes each sample of `data` in order, dropping each
    /// one that meets a full channel. Returns whether any was dropped, the
    /// "fell behind" condition to report once for the batch.
    pub fn capture(&mut self, data: &[u32]) -> (fell_behind: bool)
        requires
            old(self).wf(),
        ensures
            final(self).wf(),
            final(self).capacity_spec() == old(self).capacity_spec(),
            final(self)@ == after_capture(old(self)@, old(self).capacity_spec(), data@),
            fell_behind <==> old(self)@.len() + data@.len() > old(self).capacity_spec(),
    {
        let ghost start = self@;
        let ghost cap = self.capacity_spec();
        let mut fell_behind = false;
        let mut i: usize = 0;
        while i < data.len()
            invariant
                self.wf(),
                self.capacity_spec() == cap,
                start == old(self)@,
                cap == old(self).capacity_spec(),
                start.len() <= cap,
                i <= data@.len(),
                self@ == after_capture(start, cap, data@.take(i as int)),
                fell_behind <==> start.len() + i > cap,
            decreases data@.len() - i,
        {
            let ghost before = self@;
            let s = data[i];
            let pushed = self.push(s);
            if pushed.is_err() {
                fell_behind = true;
            }
            proof {
                let free = cap - start.len();
                assert(data@.take(i + 1) == data@.take(i as int).push(s));
                if i + 1 <= free {
                    assert(start + data@.take(i + 1) == (start + data@.take(i as int)).push(s));
                } else if i < free {
                } else {
                    assert(data@.take(i + 1).take(free as int) == data@.take(i as int).take(free as int));
                }
            }
            i = i + 1;
        }
        assert(data@.take(data@.len() as int) == data@);
        fell_behind
    }

    /// Playback relay: fills each slot of `out` in order with the oldest
    /// sample held, or with silence once the channel is empty. Returns
    /// whether any slot got silence, the "fell behind" condition to report
    /// once for the request.
    pub fn playback(&mut self, out: &mut [u32]) -> (fell_behind: bool)
        requires
            old(self).wf(),
        ensures
            final(self).wf(),
            final(self).capacity_spec() == old(self).capacity_spec(),
            final(out)@ == played(old(self)@, old(out)@.len()),
            final(self)@ == old(self)@.skip(taken(old(self)@, old(out)@.len()) as int),
            fell_behind <==> old(out)@.len() > old(self)@.len(),
    {
        let ghost start = self@;
        let ghost n = out@.len();
        let mut fell_behind = false;
        let mut i: usize = 0;
        while i < out.len()
            invariant
                self.wf(),
                self.capacity_spec() == old(self).capacity_spec(),
                start == old(self)@,
                n == old(out)@.len(),
                out@.len() == n,
                i <= n,
                self@ == start.skip(taken(start, i as nat) as int),
                out@.take(i as int) == played(start, i as nat),
                fell_behind <==> i > start.len(),
            decreases n - i,
        {
            let ghost before_out = out@;
            let v = match self.pop() {
                Some(s) => s,
                None => {
                    fell_behind = true;
                    0
                },
            };
            out[i] = v;
            proof {
                assert(out@.take(i as int) == before_out.take(i as int));
                assert(out@.take(i + 1) == played(start, i as nat).push(v));
                if i < start.len() {
                    assert(start.take(i + 1) == start.take(i as int).push(start[i as int]));
                    assert(silence(0) =~= Seq::<u32>::empty());
                    assert(start.skip(i + 1) =~= start.skip(i as int).drop_first());
                } else {
                    assert(silence((i + 1 - start.len()) as nat) =~= silence((i - start.len()) as nat).push(0));
                }
                assert(out@.take(i + 1) =~= played(start, (i + 1) as nat));
            }
            i = i + 1;
        }
        assert(out@.take(n as int) == out@);
        fell_behind
    }

    /// The fixed capacity.
    pub fn capacity(&self) -> (r: usize)
        ensures
            r as nat == self.capacity_spec(),
    {
        ring_capacity_of(&self.producer)
    }

    /// The number of samples held.
    pub fn len(&self) -> (r: usize)
        requires
            self.wf(),
        ensures
            r as nat == self@.len(),
    {
        let cap = self.capacity();
        let free = self.remaining();
        cap - free
    }

    /// The number of free slots.
    pub fn remaining(&self) -> (r: usize)
        requires
            self.wf(),
        ensures
            r as nat == self.capacity_spec() - self@.len(),
    {
        ring_remaining(&self.producer, &self.consumer)
    }

    /// Removes and returns the oldest sample, or `None` when empty.
    pub fn pop(&mut self) -> (r: Option<u32>)
        requires
            old(self).wf(),
        ensures
            final(self).wf(),
            final(self).capacity_spec() == old(self).capacity_spec(),
            r is None <==> old(self)@.len() == 0,
            r is Some ==> r == Some(old(self)@[0]) && final(self)@ == old(self)@.drop_first(),
            r is None ==> final(self)@ == old(self)@,
            final(self)@ == next_contents(old(self)@, old(self).capacity_spec(), ChannelOp::Pop),
            r is Some ==> seq![r->Some_0] == delivered_by(old(self)@, ChannelOp::Pop),
    {
        ring_pop(&mut self.consumer, &self.producer)
    }
}

} // verus!
