use voyager::queue::{
    status_after, AnyQueueConfig, InMemoryQueue, PgQueueConfig, ProcessFlow, RowStatus,
};
use voyager::relayer_msg::RelayerMsg;

fn defer(timestamp: u64) -> RelayerMsg {
    RelayerMsg::DeferUntil { timestamp }
}

fn drain(mut queue: InMemoryQueue) -> Vec<RelayerMsg> {
    let mut all = vec![];
    while let Some(head) = queue.claim() {
        all.push(head.clone());
        queue.settle(ProcessFlow::Success(vec![])).unwrap();
    }
    all
}

#[test]
fn messages_leave_in_the_order_they_entered() {
    let mut queue = InMemoryQueue::new();
    assert_eq!(queue.len(), 0);
    assert_eq!(queue.claim(), None);
    for t in 1..=4 {
        queue.enqueue(defer(t));
    }
    assert_eq!(queue.len(), 4);
    assert_eq!(drain(queue), vec![defer(1), defer(2), defer(3), defer(4)]);
}

#[test]
fn successors_join_at_the_tail() {
    let mut queue = InMemoryQueue::new();
    queue.enqueue(defer(1));
    queue.enqueue(defer(2));
    let verdict = queue.process(|head| {
        assert_eq!(head, defer(1));
        ProcessFlow::Success(vec![defer(10), defer(11)])
    });
    assert_eq!(verdict, Ok(()));
    assert_eq!(drain(queue), vec![defer(2), defer(10), defer(11)]);
}

#[test]
fn a_requeued_message_stays_at_the_head() {
    let mut queue = InMemoryQueue::new();
    queue.enqueue(defer(1));
    queue.enqueue(defer(2));
    assert_eq!(queue.process(|_| ProcessFlow::Requeue), Ok(()));
    assert_eq!(queue.claim(), Some(&defer(1)));
    assert_eq!(drain(queue), vec![defer(1), defer(2)]);
}

#[test]
fn a_failure_is_surfaced_with_its_reason() {
    let mut queue = InMemoryQueue::new();
    queue.enqueue(defer(1));
    queue.enqueue(defer(2));
    assert_eq!(
        queue.process(|_| ProcessFlow::Fail("no such chain".to_string())),
        Err("no such chain".to_string())
    );
    assert_eq!(drain(queue), vec![defer(2)]);
}

#[test]
fn an_empty_queue_calls_no_handler() {
    let mut queue = InMemoryQueue::new();
    let mut called = false;
    assert_eq!(
        queue.process(|_| {
            called = true;
            ProcessFlow::Requeue
        }),
        Ok(())
    );
    assert!(!called);
    assert_eq!(queue.len(), 0);
}

#[test]
fn a_message_whose_handler_never_settled_is_delivered_again_and_its_successors_once() {
    let mut queue = InMemoryQueue::new();
    queue.enqueue(defer(1));
    queue.enqueue(defer(2));

    // The handler returns its successors, and the process dies before they
    // are settled: the queue is as it was.
    let first = queue.claim().cloned();
    let lost = vec![defer(10)];
    drop(lost);

    // After the restart the same message is delivered again.
    let again = queue.claim().cloned();
    assert_eq!(first, again);
    assert_eq!(again, Some(defer(1)));
    queue.settle(ProcessFlow::Success(vec![defer(10)])).unwrap();

    assert_eq!(drain(queue), vec![defer(2), defer(10)]);
}

#[test]
fn settling_an_empty_queue_appends_what_it_is_given() {
    let mut queue = InMemoryQueue::new();
    assert_eq!(queue.settle(ProcessFlow::Requeue), Ok(()));
    assert_eq!(queue.settle(ProcessFlow::Fail("x".to_string())), Err("x".to_string()));
    assert_eq!(queue.settle(ProcessFlow::Success(vec![defer(3)])), Ok(()));
    assert_eq!(drain(queue), vec![defer(3)]);
}

#[test]
fn queue_configs() {
    assert_eq!(PgQueueConfig::default(), PgQueueConfig { database_url: String::new() });
    assert_ne!(
        AnyQueueConfig::InMemory,
        AnyQueueConfig::PgQueue(PgQueueConfig { database_url: "postgres://x".to_string() })
    );
}

#[test]
fn where_a_row_stands() {
    assert_eq!(status_after(&ProcessFlow::Success(vec![defer(1)])), RowStatus::Done);
    assert_eq!(status_after(&ProcessFlow::<RelayerMsg>::Requeue), RowStatus::Ready);
    assert_eq!(status_after(&ProcessFlow::<RelayerMsg>::Fail("x".to_string())), RowStatus::Failed);
    assert_eq!(
        [RowStatus::Ready, RowStatus::InFlight, RowStatus::Done, RowStatus::Failed].map(RowStatus::code),
        [0, 1, 2, 3]
    );
}
