use crate::event::GlobEvent;
use heapless::mpmc::MpMcQueue;
use vstd::prelude::*;

verus! {

#[verifier::external_type_specification]
#[verifier::external_body]
#[verifier::reject_recursive_types(T)]
pub struct ExMpMcQueue<T, const N: usize>(MpMcQueue<T, N>);

/// Outcome of an enqueue: the event is handed back when the queue is full.
pub type EnqueueResult = Result<(), GlobEvent>;

/// The fixed capacity event queue (`heapless::mpmc::Q8`).
pub type EventQueue = MpMcQueue<GlobEvent, 8>;

/// Number of events the queue holds at most.
pub const EVENT_QUEUE_CAPACITY: usize = 8;

/// The events held by a queue, oldest first.
pub uninterp spec fn queued_events(q: MpMcQueue<GlobEvent, 8>) -> Seq<GlobEvent>;

/// `MpMcQueue::new`: the new queue holds no event.
#[verifier::external_body]
pub fn new_event_queue() -> (q: EventQueue)
    ensures
        queued_events(q) == Seq::<GlobEvent>::empty(),
{
    MpMcQueue::new()
}

/// `MpMcQueue::enqueue`: appends the event at the back unless the queue
/// already holds its capacity of eight events, in which case the queue is left
/// unchanged and the event is handed back.
#[verifier::external_body]
pub fn enqueue_event(q: &mut EventQueue, event: GlobEvent) -> (r: EnqueueResult)
    ensures
        queued_events(*old(q)).len() < 8 ==> r is Ok,
        queued_events(*old(q)).len() < 8 ==> queued_events(*final(q)) == queued_events(*old(q)).push(event),
        queued_events(*old(q)).len() >= 8 ==> r == EnqueueResult::Err(event),
        queued_events(*old(q)).len() >= 8 ==> queued_events(*final(q)) == queued_events(*old(q)),
{
    q.enqueue(event)
}

/// `MpMcQueue::dequeue`: removes and returns the oldest event, or `None` when
/// the queue is empty.
#[verifier::external_body]
pub fn dequeue_event(q: &mut EventQueue) -> (r: Option<GlobEvent>)
    ensures
        queued_events(*old(q)).len() == 0 ==> r == None::<GlobEvent>,
        queued_events(*old(q)).len() == 0 ==> queued_events(*final(q)) == queued_events(*old(q)),
        queued_events(*old(q)).len() > 0 ==> r == Some(queued_events(*old(q))[0]),
        queued_events(*old(q)).len() > 0 ==> queued_events(*final(q)) == queued_events(*old(q)).drop_first(),
{
    q.dequeue()
}

/// Removes every event from the queue.
pub fn drain_event_queue(q: &mut EventQueue)
    ensures
        queued_events(*final(q)) == Seq::<GlobEvent>::empty(),
{
    loop
        invariant_except_break
            true,
        ensures
            queued_events(*q) == Seq::<GlobEvent>::empty(),
        decreases queued_events(*q).len(),
    {
        let e = dequeue_event(q);
        if e.is_none() {
            break;
        }
    }
}

} // verus!
