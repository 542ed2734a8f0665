//! The queue of messages still to be handled.
//!
//! Messages leave the queue in the order in which they entered it. Handling
//! the message at the head takes two steps: [`InMemoryQueue::claim`] shows it,
//! and [`InMemoryQueue::settle`] applies what its handler decided. Until a
//! claimed message is settled the queue is as it was, so a handler that never
//! comes back leaves its message to be claimed again.

use crate::relayer_msg::{views, RelayerMsg, RelayerMsgView};
use std::collections::VecDeque;
use vstd::prelude::*;

verus! {

/// What the handler of a message decided.
#[derive(Clone, Debug, PartialEq, Eq)]
pub enum ProcessFlow<T> {
    /// The message is done, and these are its successors.
    Success(Vec<T>),
    /// The message is to be handled again, before any other.
    Requeue,
    /// The message cannot be handled, for the reason given.
    Fail(String),
}

/// The value of a [`ProcessFlow`] of messages as contracts see it.
pub enum ProcessFlowView {
    Success(Seq<RelayerMsgView>),
    Requeue,
    Fail(Seq<char>),
}

/// The value of `flow`.
pub open spec fn flow_view(flow: ProcessFlow<RelayerMsg>) -> ProcessFlowView {
    match flow {
        ProcessFlow::Success(msgs) => ProcessFlowView::Success(views(msgs@)),
        ProcessFlow::Requeue => ProcessFlowView::Requeue,
        ProcessFlow::Fail(why) => ProcessFlowView::Fail(why@),
    }
}

/// The queue without its head; the empty queue if it has none.
pub open spec fn without_head(queue: Seq<RelayerMsgView>) -> Seq<RelayerMsgView> {
    if queue.len() == 0 {
        queue
    } else {
        queue.drop_first()
    }
}

/// The queue after the handler of its head has decided `flow`.
///
/// On success the head leaves and its successors join at the tail. A requeued
/// head stays where it is. A failed head leaves and has no successors.
pub open spec fn spec_settle(queue: Seq<RelayerMsgView>, flow: ProcessFlowView) -> Seq<
    RelayerMsgView,
> {
    match flow {
        ProcessFlowView::Success(successors) => without_head(queue) + successors,
        ProcessFlowView::Requeue => queue,
        ProcessFlowView::Fail(_) => without_head(queue),
    }
}

/// What the caller is told after the handler has decided `flow`: the reason,
/// if the handler failed.
pub open spec fn spec_verdict(flow: ProcessFlowView) -> Result<(), Seq<char>> {
    match flow {
        ProcessFlowView::Fail(why) => Err(why),
        _ => Ok(()),
    }
}

/// The value of what [`InMemoryQueue::settle`] hands back.
pub open spec fn verdict_view(verdict: Result<(), String>) -> Result<(), Seq<char>> {
    match verdict {
        Ok(()) => Ok(()),
        Err(why) => Err(why@),
    }
}

/// A queue that lives in memory and is lost with the process.
#[derive(Debug)]
pub struct InMemoryQueue {
    items: VecDeque<RelayerMsg>,
}

impl View for InMemoryQueue {
    type V = Seq<RelayerMsgView>;

    closed spec fn view(&self) -> Seq<RelayerMsgView> {
        views(self.items@)
    }
}

impl Clone for InMemoryQueue {
    fn clone(&self) -> (copy: InMemoryQueue)
        ensures
            copy@ == self@,
    {
        let copy = InMemoryQueue { items: self.items.clone() };
        assert(copy@ =~= self@);
        copy
    }
}

impl InMemoryQueue {
    /// The empty queue.
    pub fn new() -> (queue: InMemoryQueue)
        ensures
            queue@ == Seq::<RelayerMsgView>::empty(),
    {
        let queue = InMemoryQueue { items: VecDeque::new() };
        assert(queue@ =~= Seq::<RelayerMsgView>::empty());
        queue
    }

    /// The number of messages waiting.
    pub fn len(&self) -> (len: usize)
        ensures
            len == self@.len(),
    {
        self.items.len()
    }

    /// Appends `item` at the tail.
    pub fn enqueue(&mut self, item: RelayerMsg)
        ensures
            final(self)@ == old(self)@.push(item@),
    {
        self.items.push_back(item);
        assert(self@ =~= old(self)@.push(item@));
    }

    /// The message at the head, if there is one. The queue stays as it is.
    pub fn claim(&self) -> (head: Option<&RelayerMsg>)
        ensures
            match head {
                Some(msg) => self@.len() > 0 && msg@ == self@[0],
                None => self@.len() == 0,
            },
    {
        if self.items.len() == 0 {
            None
        } else {
            Some(&self.items[0])
        }
    }

    /// Applies what the handler of the head decided, and tells why it failed
    /// if it did.
    pub fn settle(&mut self, flow: ProcessFlow<RelayerMsg>) -> (verdict: Result<(), String>)
        ensures
            final(self)@ == spec_settle(old(self)@, flow_view(flow)),
            verdict_view(verdict) == spec_verdict(flow_view(flow)),
    {
        match flow {
            ProcessFlow::Success(successors) => {
                if self.items.len() > 0 {
                    let _ = self.items.pop_front();
                }
                assert(self@ =~= without_head(old(self)@));
                let ghost all = successors@;
                for msg in it: successors
                    invariant
                        it.seq() == all,
                        self@ == without_head(old(self)@) + views(all.take(it.index() as int)),
                {
                    let ghost before = self.items@;
                    self.items.push_back(msg);
                    assert(views(all.take(it.index() + 1)) =~= views(
                        all.take(it.index() as int),
                    ).push(msg@));
                    assert(self@ =~= views(before).push(msg@));
                }
                assert(all.take(all.len() as int) =~= all);
                Ok(())
            },
            ProcessFlow::Requeue => Ok(()),
            ProcessFlow::Fail(why) => {
                if self.items.len() > 0 {
                    let _ = self.items.pop_front();
                }
                assert(self@ =~= without_head(old(self)@));
                Err(why)
            },
        }
    }

    /// Handles the message at the head with `f`, if there is one.
    ///
    /// `f` is handed the head and decides its fate; the queue then is as
    /// [`spec_settle`] says. With an empty queue `f` is not called and nothing
    /// changes.
    pub fn process<F: FnOnce(RelayerMsg) -> ProcessFlow<RelayerMsg>>(&mut self, f: F) -> (verdict:
        Result<(), String>)
        requires
            forall|msg: RelayerMsg| #[trigger] f.requires((msg,)),
        ensures
            old(self)@.len() == 0 ==> verdict is Ok && final(self)@ == old(self)@,
            old(self)@.len() > 0 ==> exists|head: RelayerMsg, flow: ProcessFlow<RelayerMsg>|
                head@ == old(self)@[0] && #[trigger] f.ensures((head,), flow) && final(self)@
                    == spec_settle(old(self)@, flow_view(flow)) && verdict_view(verdict)
                    == spec_verdict(flow_view(flow)),
    {
        if self.items.len() == 0 {
            return Ok(());
        }
        let head = self.items[0].clone();
        let flow = f(head);
        let ghost decided = flow;
        let verdict = self.settle(flow);
        assert(head@ == old(self)@[0] && f.ensures((head,), decided));
        verdict
    }
}

/// Where a message of the durable queue stands.
#[derive(Clone, Copy, Debug, PartialEq, Eq, Structural)]
pub enum RowStatus {
    /// The message waits to be handled.
    Ready,
    /// The message is being handled.
    InFlight,
    /// The message was handled, and its successors are in the queue.
    Done,
    /// The message cannot be handled.
    Failed,
}

impl RowStatus {
    /// The number under which the status is stored.
    pub open spec fn spec_code(self) -> i32 {
        match self {
            RowStatus::Ready => 0,
            RowStatus::InFlight => 1,
            RowStatus::Done => 2,
            RowStatus::Failed => 3,
        }
    }

    /// The number under which the status is stored.
    #[verifier::when_used_as_spec(spec_code)]
    pub fn code(self) -> (code: i32)
        ensures
            code == self.spec_code(),
    {
        match self {
            RowStatus::Ready => 0,
            RowStatus::InFlight => 1,
            RowStatus::Done => 2,
            RowStatus::Failed => 3,
        }
    }
}

/// Where a message stands after its handler has decided `flow`: it is done on
/// success, waits again if it was requeued, and has failed otherwise.
pub open spec fn spec_status_after<T>(flow: ProcessFlow<T>) -> RowStatus {
    match flow {
        ProcessFlow::Success(_) => RowStatus::Done,
        ProcessFlow::Requeue => RowStatus::Ready,
        ProcessFlow::Fail(_) => RowStatus::Failed,
    }
}

/// Where a message stands after its handler has decided `flow`.
pub fn status_after<T>(flow: &ProcessFlow<T>) -> (status: RowStatus)
    ensures
        status == spec_status_after(*flow),
{
    match flow {
        ProcessFlow::Success(_) => RowStatus::Done,
        ProcessFlow::Requeue => RowStatus::Ready,
        ProcessFlow::Fail(_) => RowStatus::Failed,
    }
}

/// Where the durable queue keeps its messages.
#[derive(Clone, Debug, PartialEq, Eq)]
pub struct PgQueueConfig {
    pub database_url: String,
}

impl Default for PgQueueConfig {
    fn default() -> (config: PgQueueConfig)
        ensures
            config.database_url@ == Seq::<char>::empty(),
    {
        PgQueueConfig { database_url: String::new() }
    }
}

/// Which queue the engine runs on.
#[derive(Clone, Debug, PartialEq, Eq)]
pub enum AnyQueueConfig {
    InMemory,
    PgQueue(PgQueueConfig),
}

/// A message whose handler asks for it again is delivered again: requeueing
/// leaves the queue as it is, with the same message at its head.
pub proof fn lemma_requeued_is_redelivered(queue: Seq<RelayerMsgView>)
    requires
        queue.len() > 0,
    ensures
        spec_settle(queue, ProcessFlowView::Requeue) == queue,
        spec_settle(queue, ProcessFlowView::Requeue)[0] == queue[0],
{
}

/// Settling a success removes the head and appends its successors once: the
/// queue is then the messages that stood behind the head, followed by the
/// successors, and nothing else.
pub proof fn lemma_successors_enqueued_once(
    queue: Seq<RelayerMsgView>,
    successors: Seq<RelayerMsgView>,
)
    requires
        queue.len() > 0,
    ensures
        spec_settle(queue, ProcessFlowView::Success(successors)).len() == queue.len() - 1
            + successors.len(),
        forall|i: int|
            0 <= i < queue.len() - 1 ==> spec_settle(queue, ProcessFlowView::Success(successors))[i]
                == queue[i + 1],
        forall|i: int|
            0 <= i < successors.len() ==> spec_settle(
                queue,
                ProcessFlowView::Success(successors),
            )[queue.len() - 1 + i] == successors[i],
{
}

} // verus!
