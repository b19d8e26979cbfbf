//! The outside ring buffer (`ringbuf` 0.2) that stores the samples, and the
//! trusted contracts this library relies on for it.
use vstd::prelude::*;
use ringbuf::{Consumer, Producer, RingBuffer};

verus! {

#[verifier::external_type_specification]
#[verifier::external_body]
#[verifier::reject_recursive_types(T)]
pub struct ExProducer<T>(Producer<T>);

#[verifier::external_type_specification]
#[verifier::external_body]
#[verifier::reject_recursive_types(T)]
pub struct ExConsumer<T>(Consumer<T>);

/// Largest capacity a ring may be created with: small enough that the
/// buffer of `capacity + 1` slots of four bytes is a valid allocation size
/// on 32-bit and 64-bit targets alike.
pub const MAX_CAPACITY: usize = 0x1000_0000;

/// The samples held by the ring shared by a producer end and a consumer end,
/// oldest first.
pub uninterp spec fn ring_contents(p: Producer<u32>, c: Consumer<u32>) -> Seq<u32>;

/// The capacity the ring behind a producer end was created with.
pub uninterp spec fn ring_capacity(p: Producer<u32>) -> nat;

/// Relies on `ringbuf::RingBuffer::new` and `RingBuffer::split`: a new ring
/// holds nothing and has the requested capacity; `split` hands out its two
/// ends. `new` computes `capacity + 1`, hence the bound.
#[verifier::external_body]
pub(crate) fn ring_new(capacity: usize) -> (r: (Producer<u32>, Consumer<u32>))
    requires
        capacity <= MAX_CAPACITY,
    ensures
        ring_contents(r.0, r.1) == Seq::<u32>::empty(),
        ring_capacity(r.0) == capacity as nat,
{
    RingBuffer::new(capacity).split()
}

/// Relies on `ringbuf::Producer::push`: while fewer than `capacity` samples
/// are held, the sample is appended at the tail and `Ok(())` is returned;
/// otherwise the ring is unchanged and the sample is handed back in `Err`.
/// The consumer end is borrowed so that nothing is popped during the call.
#[verifier::external_body]
pub(crate) fn ring_push(p: &mut Producer<u32>, c: &Consumer<u32>, s: u32) -> (r: Result<(), u32>)
    requires
        ring_contents(*old(p), *c).len() <= ring_capacity(*old(p)),
    ensures
        ring_capacity(*final(p)) == ring_capacity(*old(p)),
        ring_contents(*old(p), *c).len() < ring_capacity(*old(p)) ==> {
            &&& r == Ok::<(), u32>(())
            &&& ring_contents(*final(p), *c) == ring_contents(*old(p), *c).push(s)
        },
        ring_contents(*old(p), *c).len() == ring_capacity(*old(p)) ==> {
            &&& r == Err::<(), u32>(s)
            &&& ring_contents(*final(p), *c) == ring_contents(*old(p), *c)
        },
{
    p.push(s)
}

/// Relies on `ringbuf::Consumer::pop`: when the ring holds a sample, the
/// oldest one is removed and returned; when it is empty, `None` is returned
/// and nothing changes. The producer end is borrowed so that nothing is
/// pushed during the call.
#[verifier::external_body]
pub(crate) fn ring_pop(c: &mut Consumer<u32>, p: &Producer<u32>) -> (r: Option<u32>)
    ensures
        ring_contents(*p, *old(c)).len() == 0 ==> {
            &&& r == None::<u32>
            &&& ring_contents(*p, *final(c)) == ring_contents(*p, *old(c))
        },
        ring_contents(*p, *old(c)).len() > 0 ==> {
            &&& r == Some(ring_contents(*p, *old(c))[0])
            &&& ring_contents(*p, *final(c)) == ring_contents(*p, *old(c)).drop_first()
        },
{
    c.pop()
}

/// Relies on `ringbuf::Producer::remaining`: the capacity minus the number
/// of samples held. The consumer end is borrowed so that nothing is popped
/// during the call.
#[verifier::external_body]
pub(crate) fn ring_remaining(p: &Producer<u32>, c: &Consumer<u32>) -> (r: usize)
    requires
        ring_contents(*p, *c).len() <= ring_capacity(*p),
    ensures
        r as nat == ring_capacity(*p) - ring_contents(*p, *c).len(),
{
    p.remaining()
}

/// Relies on `ringbuf::Producer::capacity`: the capacity the ring was
/// created with.
#[verifier::external_body]
pub(crate) fn ring_capacity_of(p: &Producer<u32>) -> (r: usize)
    ensures
        r as nat == ring_capacity(*p),
{
    p.capacity()
}

} // verus!
