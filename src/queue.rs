use crossbeam_queue::SegQueue;
use vstd::prelude::*;

verus! {

#[verifier::external_type_specification]
#[verifier::external_body]
#[verifier::reject_recursive_types(T)]
pub struct ExSegQueue<T>(SegQueue<T>);

/// A message waiting for the worker, with the id it was given when queued.
pub struct QueuedMessage {
    pub content: String,
    pub id: usize,
}

/// What a queue of messages holds, front first: each message's id and text.
pub uninterp spec fn queued_items(q: SegQueue<QueuedMessage>) -> Seq<(usize, Seq<char>)>;

/// Relies on `SegQueue::new`: a new queue is empty.
#[verifier::external_body]
pub(crate) fn new_queue() -> (q: SegQueue<QueuedMessage>)
    ensures
        queued_items(q) == Seq::<(usize, Seq<char>)>::empty(),
{
    SegQueue::new()
}

/// Relies on `SegQueue::push_mut`: with exclusive access the item goes to
/// the back of the queue.
#[verifier::external_body]
pub(crate) fn push_back(q: &mut SegQueue<QueuedMessage>, m: QueuedMessage)
    ensures
        queued_items(*final(q)) == queued_items(*old(q)).push((m.id, m.content@)),
{
    q.push_mut(m)
}

/// Relies on `SegQueue::pop_mut`: with exclusive access it takes the front
/// item, or gives `None` on an empty queue and leaves it as it is.
#[verifier::external_body]
pub(crate) fn pop_front(q: &mut SegQueue<QueuedMessage>) -> (r: Option<QueuedMessage>)
    ensures
        queued_items(*old(q)).len() == 0 ==> r is None && queued_items(*final(q))
            == queued_items(*old(q)),
        queued_items(*old(q)).len() > 0 ==> {
            &&& r is Some
            &&& (r.unwrap().id, r.unwrap().content@) == queued_items(*old(q))[0]
            &&& queued_items(*final(q)) == queued_items(*old(q)).drop_first()
        },
{
    q.pop_mut()
}

/// Relies on `SegQueue::len`: the number of items in the queue.
#[verifier::external_body]
pub(crate) fn queue_len(q: &SegQueue<QueuedMessage>) -> (r: usize)
    ensures
        r == queued_items(*q).len(),
{
    q.len()
}

} // verus!
