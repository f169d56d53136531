//! The sample queues between the audio threads: the two ends of a `ringbuf` ring of samples.

use ringbuf::traits::{Consumer, Observer, Producer, Split};
use vstd::prelude::*;

verus! {

/// The writing end of a ring of samples (`ringbuf::HeapProd`).
#[verifier::external_body]
pub struct SampleProducer {
    end: ringbuf::HeapProd<u32>,
}

/// The reading end of a ring of samples (`ringbuf::HeapCons`).
#[verifier::external_body]
pub struct SampleConsumer {
    end: ringbuf::HeapCons<u32>,
}

/// All the samples that a writing end has put into its ring so far, the oldest first.
pub uninterp spec fn sent(producer: SampleProducer) -> Seq<u32>;

/// The free places that a writing end has last seen. The reader can only add to them.
pub uninterp spec fn room(producer: SampleProducer) -> nat;

/// The samples that a reading end has last seen waiting, the oldest first. The writer can only add
/// to them, at the end.
pub uninterp spec fn waiting(consumer: SampleConsumer) -> Seq<u32>;

/// All the samples that a reading end has taken out of its ring so far, the oldest first.
pub uninterp spec fn received(consumer: SampleConsumer) -> Seq<u32>;

/// All the samples that are ever put into the ring of a writing end, over its whole life.
pub uninterp spec fn inflow(producer: SampleProducer) -> Seq<u32>;

/// All the samples that are ever put into the ring of a reading end, over its whole life.
pub uninterp spec fn outflow(consumer: SampleConsumer) -> Seq<u32>;

/// What holds of a writing end: what it has sent is the beginning of all that its ring ever gets.
pub open spec fn writes_in_order(producer: SampleProducer) -> bool {
    sent(producer).is_prefix_of(inflow(producer))
}

/// What holds of a reading end: what it has taken out, and then what waits, is the beginning of all
/// that its ring ever gets.
pub open spec fn reads_in_order(consumer: SampleConsumer) -> bool {
    (received(consumer) + waiting(consumer)).is_prefix_of(outflow(consumer))
}

/// Calls `HeapRb::new` and `split`: a ring of `capacity` places, all of them free. What goes in at
/// the one end comes out at the other. `HeapRb::new` panics on no places, and where the samples
/// would take more than half the address range.
#[verifier::external_body]
pub(crate) fn new_ring(capacity: usize) -> (ends: (SampleProducer, SampleConsumer))
    requires
        0 < capacity <= usize::MAX / 8,
    ensures
        sent(ends.0) == Seq::<u32>::empty(),
        room(ends.0) == capacity,
        waiting(ends.1) == Seq::<u32>::empty(),
        received(ends.1) == Seq::<u32>::empty(),
        inflow(ends.0) == outflow(ends.1),
        writes_in_order(ends.0),
        reads_in_order(ends.1),
{
    let (producer, consumer) = ringbuf::HeapRb::<u32>::new(capacity).split();
    (SampleProducer { end: producer }, SampleConsumer { end: consumer })
}

/// Calls `Observer::occupied_len`: looks at what the writer has added since, and gives the number
/// of samples that now wait.
#[verifier::external_body]
pub(crate) fn occupied_len(consumer: &mut SampleConsumer) -> (count: usize)
    ensures
        waiting(*old(consumer)).is_prefix_of(waiting(*final(consumer))),
        count == waiting(*final(consumer)).len(),
        received(*final(consumer)) == received(*old(consumer)),
        outflow(*final(consumer)) == outflow(*old(consumer)),
        reads_in_order(*final(consumer)),
{
    consumer.end.occupied_len()
}

/// Calls `Consumer::pop_slice`: moves samples from the ring to the front of `target`, the oldest
/// first, until `target` is full or none is left waiting. What had been seen waiting comes first.
#[verifier::external_body]
pub(crate) fn pop_slice(consumer: &mut SampleConsumer, target: &mut Vec<u32>) -> (count: usize)
    ensures
        count <= old(target)@.len(),
        final(target)@.len() == old(target)@.len(),
        final(target)@.skip(count as int) == old(target)@.skip(count as int),
        waiting(*old(consumer)).is_prefix_of(
            final(target)@.take(count as int) + waiting(*final(consumer)),
        ),
        count == old(target)@.len() || waiting(*final(consumer)).len() == 0,
        received(*final(consumer)) == received(*old(consumer)) + final(target)@.take(count as int),
        outflow(*final(consumer)) == outflow(*old(consumer)),
        reads_in_order(*final(consumer)),
{
    consumer.end.pop_slice(target)
}

/// Calls `Producer::push_slice`: puts samples from the front of `source` into the ring until all
/// are in or no place is free, and gives their number.
#[verifier::external_body]
pub(crate) fn push_slice(producer: &mut SampleProducer, source: &[u32]) -> (count: usize)
    ensures
        count <= source@.len(),
        sent(*final(producer)) == sent(*old(producer)) + source@.take(count as int),
        room(*old(producer)) <= count + room(*final(producer)),
        count == source@.len() || room(*final(producer)) == 0,
        inflow(*final(producer)) == inflow(*old(producer)),
        writes_in_order(*final(producer)),
{
    producer.end.push_slice(source)
}

/// What comes out of a ring is what went in, in the same order, with nothing lost and nothing
/// twice: as far as both ends have come, the samples at every place are the same.
pub proof fn what_comes_out_is_what_went_in(producer: SampleProducer, consumer: SampleConsumer)
    requires
        inflow(producer) == outflow(consumer),
        writes_in_order(producer),
        reads_in_order(consumer),
    ensures
        forall|i: int|
            #![trigger sent(producer)[i]]
            #![trigger received(consumer)[i]]
            0 <= i < sent(producer).len() && i < received(consumer).len() ==> received(
                consumer,
            )[i] == sent(producer)[i],
{
    let passed = received(consumer) + waiting(consumer);
    let all = inflow(producer);
    assert forall|i: int| 0 <= i < sent(producer).len() && i < received(consumer).len() implies
        received(consumer)[i] == sent(producer)[i] by {
        assert(passed[i] == received(consumer)[i]);
        assert(passed == all.subrange(0, passed.len() as int));
        assert(all.subrange(0, passed.len() as int)[i] == all[i]);
        assert(sent(producer) == all.subrange(0, sent(producer).len() as int));
        assert(all.subrange(0, sent(producer).len() as int)[i] == all[i]);
    }
}

} // verus!
