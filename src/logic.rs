use crate::network::{decimal_text, int_to_text, Network};
use crate::queue::{new_queue, pop_front, push_back, queue_len, queued_items, QueuedMessage};
use crate::response::{message_text, Response};
use crossbeam_queue::SegQueue;
use vstd::prelude::*;
use vstd::string::StringExecFns;

verus! {

/// A message on its way to the delivery capability: its text, its queue id
/// (0 for a message processed synchronously, which is never queued) and the
/// processed count once it was taken up.
pub struct Outbound {
    pub content: String,
    pub id: usize,
    pub count: usize,
}

/// What the worker is to do after one step.
pub enum WorkerAction {
    /// The running flag is off: leave the loop and touch the processor no more.
    Stop,
    /// The queue is empty: wait one backoff interval, then step again.
    Idle,
    /// Hand this message to the bound delivery capability.
    Deliver(Outbound),
    /// No delivery capability is bound: the message is dropped.
    Discard(Outbound),
}

/// The state of a processor as the contracts see it.
pub struct ProcessorView {
    pub processed: usize,
    pub next_id: usize,
    pub pending: Seq<(usize, Seq<char>)>,
    pub running: bool,
    pub network: Option<usize>,
}

/// One worker step as the contracts see it.
pub enum StepOutcome {
    Stopped,
    Idle,
    Delivered(Seq<char>, usize, usize),
    Discarded(Seq<char>, usize, usize),
}

/// The processed count after one more message; it stays put at the top of
/// the range.
pub open spec fn bump(n: usize) -> usize {
    if n < usize::MAX {
        (n + 1) as usize
    } else {
        n
    }
}

/// The state after `content` is queued under the next id.
pub open spec fn enqueue_spec(v: ProcessorView, content: Seq<char>) -> ProcessorView {
    ProcessorView {
        next_id: (v.next_id + 1) as usize,
        pending: v.pending.push((v.next_id, content)),
        ..v
    }
}

/// One worker step: stop when the flag is off, idle on an empty queue, or
/// take the front message, count it, and deliver it or drop it.
pub open spec fn step_spec(v: ProcessorView) -> (ProcessorView, StepOutcome) {
    if !v.running {
        (v, StepOutcome::Stopped)
    } else if v.pending.len() == 0 {
        (v, StepOutcome::Idle)
    } else {
        let m = v.pending[0];
        let count = bump(v.processed);
        let w = ProcessorView { processed: count, pending: v.pending.drop_first(), ..v };
        if v.network is Some {
            (w, StepOutcome::Delivered(m.1, m.0, count))
        } else {
            (w, StepOutcome::Discarded(m.1, m.0, count))
        }
    }
}

/// The state after the running flag is switched off.
pub open spec fn shutdown_spec(v: ProcessorView) -> ProcessorView {
    ProcessorView { running: false, ..v }
}

/// The state after a message is processed synchronously.
pub open spec fn process_spec(v: ProcessorView) -> ProcessorView {
    ProcessorView { processed: bump(v.processed), ..v }
}

/// What a worker action is in the contracts' terms.
pub open spec fn action_view(a: WorkerAction) -> StepOutcome {
    match a {
        WorkerAction::Stop => StepOutcome::Stopped,
        WorkerAction::Idle => StepOutcome::Idle,
        WorkerAction::Deliver(o) => StepOutcome::Delivered(o.content@, o.id, o.count),
        WorkerAction::Discard(o) => StepOutcome::Discarded(o.content@, o.id, o.count),
    }
}

/// The text of the result that stands in for a delivery when no delivery
/// capability is bound: the message and the processed count.
pub open spec fn substitute_text(content: Seq<char>, count: usize) -> Seq<char> {
    "Processed without delivery: "@ + content + " (count: "@ + decimal_text(count as int) + ")"@
}

/// The texts of a run of queued messages, in queue order.
pub open spec fn contents(p: Seq<(usize, Seq<char>)>) -> Seq<Seq<char>> {
    p.map_values(|e: (usize, Seq<char>)| e.1)
}

/// The state after `msgs` are queued one after another by one producer.
pub open spec fn enqueue_all(v: ProcessorView, msgs: Seq<Seq<char>>) -> ProcessorView
    decreases msgs.len(),
{
    if msgs.len() == 0 {
        v
    } else {
        enqueue_spec(enqueue_all(v, msgs.drop_last()), msgs.last())
    }
}

/// The text a step took up, if it took one.
pub open spec fn taken_up(o: StepOutcome) -> Seq<Seq<char>> {
    match o {
        StepOutcome::Delivered(c, _, _) => seq![c],
        StepOutcome::Discarded(c, _, _) => seq![c],
        _ => Seq::empty(),
    }
}

/// The texts that `n` worker steps from `v` take up, in the order taken.
pub open spec fn taken_in(v: ProcessorView, n: nat) -> Seq<Seq<char>>
    decreases n,
{
    if n == 0 {
        Seq::empty()
    } else {
        let (w, o) = step_spec(v);
        taken_up(o) + taken_in(w, (n - 1) as nat)
    }
}

proof fn lemma_enqueue_all(v: ProcessorView, msgs: Seq<Seq<char>>)
    requires
        v.next_id + msgs.len() < usize::MAX,
    ensures
        enqueue_all(v, msgs).running == v.running,
        enqueue_all(v, msgs).next_id == v.next_id + msgs.len(),
        contents(enqueue_all(v, msgs).pending) == contents(v.pending) + msgs,
    decreases msgs.len(),
{
    if msgs.len() > 0 {
        let w = enqueue_all(v, msgs.drop_last());
        lemma_enqueue_all(v, msgs.drop_last());
        assert(contents(enqueue_all(v, msgs).pending) =~= contents(w.pending).push(msgs.last()));
        assert(msgs =~= msgs.drop_last().push(msgs.last()));
        assert(contents(v.pending) + msgs =~= (contents(v.pending) + msgs.drop_last()).push(
            msgs.last(),
        ));
    }
}

proof fn lemma_taken_in(v: ProcessorView, n: nat)
    requires
        v.running,
        n <= v.pending.len(),
    ensures
        taken_in(v, n) == contents(v.pending).take(n as int),
    decreases n,
{
    if n == 0 {
        assert(contents(v.pending).take(0) =~= Seq::<Seq<char>>::empty());
    } else {
        let (w, o) = step_spec(v);
        lemma_taken_in(w, (n - 1) as nat);
        assert(contents(w.pending) =~= contents(v.pending).drop_first());
        assert(taken_up(o) =~= seq![v.pending[0].1]);
        assert(contents(v.pending).take(n as int) =~= seq![v.pending[0].1] + contents(
            w.pending,
        ).take(n - 1));
    }
}

/// Messages queued by one producer are taken up by the worker in the order
/// they were queued: after queueing `msgs` on a running processor, the next
/// worker steps take up what was queued before, then exactly `msgs`, in
/// order.
pub proof fn lemma_fifo_per_producer(v: ProcessorView, msgs: Seq<Seq<char>>)
    requires
        v.running,
        v.next_id + msgs.len() < usize::MAX,
    ensures
        taken_in(enqueue_all(v, msgs), v.pending.len() + msgs.len()) == contents(v.pending)
            + msgs,
        v.pending.len() == 0 ==> taken_in(enqueue_all(v, msgs), msgs.len()) == msgs,
{
    lemma_enqueue_all(v, msgs);
    let w = enqueue_all(v, msgs);
    let n = v.pending.len() + msgs.len();
    assert(contents(v.pending).len() == v.pending.len());
    assert(contents(w.pending).len() == w.pending.len());
    lemma_taken_in(w, n);
    assert(contents(w.pending).take(n as int) =~= contents(w.pending));
    if v.pending.len() == 0 {
        assert(contents(v.pending) + msgs =~= msgs);
    }
}

/// After shutdown the worker only stops: a step neither changes the state
/// nor takes up a message, however many messages are still queued.
pub proof fn lemma_no_work_after_shutdown(v: ProcessorView, n: nat)
    ensures
        step_spec(shutdown_spec(v)) == (shutdown_spec(v), StepOutcome::Stopped),
        taken_in(shutdown_spec(v), n) == Seq::<Seq<char>>::empty(),
    decreases n,
{
    if n > 0 {
        lemma_no_work_after_shutdown(v, (n - 1) as nat);
        assert(taken_in(shutdown_spec(v), n) =~= Seq::<Seq<char>>::empty());
    }
}

/// The owning aggregate: counters, the queue of pending messages, the
/// worker's running flag and the handle of the bound delivery capability,
/// if any.
pub struct LogicProcessor {
    messages_processed: usize,
    next_message_id: usize,
    network: Option<Network>,
    message_queue: SegQueue<QueuedMessage>,
    worker_running: bool,
}

impl View for LogicProcessor {
    type V = ProcessorView;

    closed spec fn view(&self) -> ProcessorView {
        ProcessorView {
            processed: self.messages_processed,
            next_id: self.next_message_id,
            pending: queued_items(self.message_queue),
            running: self.worker_running,
            network: match self.network {
                Some(n) => Some(n.handle),
                None => None,
            },
        }
    }
}

impl LogicProcessor {
    /// A running processor with nothing processed or queued; message ids
    /// start at 1. Without a delivery capability it still works, and its
    /// sends become no-ops.
    pub fn new(network: Option<Network>) -> (p: LogicProcessor)
        ensures
            p@.processed == 0,
            p@.next_id == 1,
            p@.pending == Seq::<(usize, Seq<char>)>::empty(),
            p@.running,
            p@.network == (match network {
                Some(n) => Some(n.handle),
                None => None::<usize>,
            }),
    {
        LogicProcessor {
            messages_processed: 0,
            next_message_id: 1,
            network,
            message_queue: new_queue(),
            worker_running: true,
        }
    }

    /// Queues `message` under the next id and returns that id. Nothing is
    /// reported about its delivery later: queued submission is fire and
    /// forget. Once the id space is used up nothing is queued and the result
    /// is `None`.
    pub fn queue_message(&mut self, message: &str) -> (r: Option<usize>)
        ensures
            old(self)@.next_id < usize::MAX ==> r == Some(old(self)@.next_id) && final(self)@
                == enqueue_spec(old(self)@, message@),
            old(self)@.next_id == usize::MAX ==> r is None && final(self)@ == old(self)@,
    {
        if self.next_message_id == usize::MAX {
            return None;
        }
        let id = self.next_message_id;
        self.next_message_id = id + 1;
        push_back(&mut self.message_queue, QueuedMessage { content: message.to_owned(), id });
        Some(id)
    }

    /// One round of the worker loop. The caller performs the action: it
    /// sends a `Deliver` message outside any lock on the processor, waits
    /// after `Idle`, and leaves the loop on `Stop`.
    pub fn worker_step(&mut self) -> (r: WorkerAction)
        ensures
            (final(self)@, action_view(r)) == step_spec(old(self)@),
    {
        if !self.worker_running {
            return WorkerAction::Stop;
        }
        match pop_front(&mut self.message_queue) {
            None => WorkerAction::Idle,
            Some(m) => {
                if self.messages_processed < usize::MAX {
                    self.messages_processed = self.messages_processed + 1;
                }
                let out = Outbound { content: m.content, id: m.id, count: self.messages_processed };
                if self.network.is_some() {
                    WorkerAction::Deliver(out)
                } else {
                    WorkerAction::Discard(out)
                }
            },
        }
    }

    /// Takes up `message` for synchronous processing: counts it and returns
    /// what is to be handed to the delivery capability.
    pub fn begin_process(&mut self, message: &str) -> (r: Outbound)
        ensures
            final(self)@ == process_spec(old(self)@),
            r.content@ == message@,
            r.id == 0,
            r.count == final(self)@.processed,
    {
        if self.messages_processed < usize::MAX {
            self.messages_processed = self.messages_processed + 1;
        }
        Outbound { content: message.to_owned(), id: 0, count: self.messages_processed }
    }

    /// Switches the running flag off. The worker sees it at its next step
    /// and stops; the owner waits one backoff interval before letting go of
    /// the processor.
    pub fn shutdown(&mut self)
        ensures
            final(self)@ == shutdown_spec(old(self)@),
    {
        self.worker_running = false;
    }

    /// How many messages were taken up, synchronously or by the worker.
    pub fn messages_processed(&self) -> (r: usize)
        ensures
            r == self@.processed,
    {
        self.messages_processed
    }

    /// Whether the worker is to keep running.
    pub fn is_running(&self) -> (r: bool)
        ensures
            r == self@.running,
    {
        self.worker_running
    }

    /// How many messages wait in the queue.
    pub fn queue_len(&self) -> (r: usize)
        ensures
            r == self@.pending.len(),
    {
        queue_len(&self.message_queue)
    }

    /// The handle of the bound delivery capability, if any.
    pub fn network_handle(&self) -> (r: Option<usize>)
        ensures
            r == self@.network,
    {
        match &self.network {
            Some(n) => Some(n.handle),
            None => None,
        }
    }
}

/// Turns the outcome of a synchronous delivery into the result for the
/// caller: with no delivery capability bound (`None`), a success with code
/// 200 that stands in for it and reports the message and the processed count; the envelope that the delivery returned; or,
/// when it failed, an error with code 500 and its error text.
pub fn finish_process(outbound: &Outbound, outcome: Option<Result<Response, String>>) -> (r:
    Response)
    ensures
        outcome is None ==> r.success && r.response_code == 200 && message_text(r) == Some(
            substitute_text(outbound.content@, outbound.count),
        ),
        outcome matches Some(Ok(d)) ==> r == d,
        outcome matches Some(Err(e)) ==> !r.success && r.response_code == 500 && message_text(r)
            == Some(e@),
{
    match outcome {
        None => {
            let mut text = "Processed without delivery: ".to_owned();
            text.append(outbound.content.as_str());
            text.append(" (count: ");
            let count = int_to_text(outbound.count as i128);
            text.append(count.as_str());
            text.append(")");
            Response::success(200, text.as_str())
        },
        Some(Ok(d)) => d,
        Some(Err(e)) => Response::error(500, e.as_str()),
    }
}

} // verus!
