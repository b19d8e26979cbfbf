//! Properties of the channel over whole sequences of operations.
use vstd::prelude::*;
use crate::channel::{accepted, contents_after, delivered, silence, ChannelOp};

verus! {

/// `n` pops in a row.
pub open spec fn pops(n: nat) -> Seq<ChannelOp> {
    Seq::new(n, |i: int| ChannelOp::Pop)
}

/// FIFO order: starting from a channel holding `q`, whatever pushes and
/// pops are made, the samples popped followed by those still held are
/// exactly the samples held at first followed by those pushed
/// successfully. So the pops return a prefix of what was pushed, in the
/// order it was pushed, with nothing reordered, duplicated or lost.
pub proof fn lemma_fifo_order(q: Seq<u32>, cap: nat, ops: Seq<ChannelOp>)
    requires
        q.len() <= cap,
    ensures
        delivered(q, cap, ops) + contents_after(q, cap, ops) == q + accepted(q, cap, ops),
        (q + accepted(q, cap, ops)).take(delivered(q, cap, ops).len() as int) == delivered(q, cap, ops),
    decreases ops.len(),
{
    if ops.len() > 0 {
        let prev = ops.drop_last();
        lemma_fifo_order(q, cap, prev);
        let c = contents_after(q, cap, prev);
        let d = delivered(q, cap, prev);
        let a = accepted(q, cap, prev);
        let op = ops.last();
        match op {
            ChannelOp::Push(s) => {
                if c.len() < cap {
                    assert(d + c.push(s) =~= (q + a) + seq![s]);
                    assert(q + (a + seq![s]) =~= (q + a) + seq![s]);
                } else {
                    assert(a + Seq::<u32>::empty() =~= a);
                    assert(d + Seq::<u32>::empty() =~= d);
                }
            },
            ChannelOp::Pop => {
                assert(a + Seq::<u32>::empty() =~= a);
                if c.len() > 0 {
                    assert((d + seq![c[0]]) + c.drop_first() =~= d + c);
                } else {
                    assert(d + Seq::<u32>::empty() =~= d);
                }
            },
        }
    }
    let d = delivered(q, cap, ops);
    let c = contents_after(q, cap, ops);
    assert((d + c).take(d.len() as int) =~= d);
}

/// Capacity bound: after any sequence of operations on a channel of
/// capacity `cap` that starts within it, at most `cap` samples are held.
pub proof fn lemma_capacity_bound(q: Seq<u32>, cap: nat, ops: Seq<ChannelOp>)
    requires
        q.len() <= cap,
    ensures
        contents_after(q, cap, ops).len() <= cap,
    decreases ops.len(),
{
    if ops.len() > 0 {
        lemma_capacity_bound(q, cap, ops.drop_last());
    }
}

/// `n` pops from a channel holding `q` return its first `n` samples, or all
/// of them when there are fewer, and leave the rest.
pub proof fn lemma_pops(q: Seq<u32>, cap: nat, n: nat)
    ensures
        delivered(q, cap, pops(n)) == q.take(if n <= q.len() { n as int } else { q.len() as int }),
        contents_after(q, cap, pops(n)) == q.skip(if n <= q.len() { n as int } else { q.len() as int }),
    decreases n,
{
    if n > 0 {
        assert(pops(n).drop_last() =~= pops((n - 1) as nat));
        lemma_pops(q, cap, (n - 1) as nat);
        let m: int = if n - 1 <= q.len() { n - 1 } else { q.len() as int };
        let c = q.skip(m);
        if c.len() > 0 {
            assert(q.take(m) + seq![c[0]] =~= q.take(m + 1));
            assert(c.drop_first() =~= q.skip(m + 1));
        } else {
            assert(q.take(m) + Seq::<u32>::empty() =~= q.take(m));
        }
    } else {
        assert(q.take(0) =~= Seq::<u32>::empty());
        assert(q.skip(0) =~= q);
    }
}

/// Priming: a channel holding `d` silent samples, as priming leaves an
/// empty one, gives silence on each of `d` pops and is empty afterwards;
/// one more pop returns nothing.
pub proof fn lemma_primed_drain(d: nat, cap: nat)
    requires
        d <= cap,
    ensures
        delivered(silence(d), cap, pops(d)) == silence(d),
        contents_after(silence(d), cap, pops(d)).len() == 0,
        delivered(silence(d), cap, pops(d + 1)) == silence(d),
{
    lemma_pops(silence(d), cap, d);
    lemma_pops(silence(d), cap, d + 1);
    assert(silence(d).take(d as int) =~= silence(d));
}

} // verus!
