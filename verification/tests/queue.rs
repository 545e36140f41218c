use zkp_service::errors::ZkpError;
use zkp_service::queue::{Dequeued, WorkQueue};
use zkp_service::types::QueuedProofTask;

fn task(id: &str) -> QueuedProofTask {
    QueuedProofTask {
        task_id: id.to_string(),
        circuit_path: "circuits/main".to_string(),
        input: "{}".to_string(),
        mock_mode: true,
    }
}

#[test]
fn queue_hands_out_in_arrival_order() {
    let mut queue = WorkQueue::new();
    assert_eq!(queue.send(task("a")), Ok(()));
    assert_eq!(queue.send(task("b")), Ok(()));
    assert_eq!(queue.send(task("c")), Ok(()));
    assert_eq!(queue.len(), 3);
    assert_eq!(queue.receive(), Dequeued::Task(task("a")));
    assert_eq!(queue.receive(), Dequeued::Task(task("b")));
    assert_eq!(queue.send(task("d")), Ok(()));
    assert_eq!(queue.receive(), Dequeued::Task(task("c")));
    assert_eq!(queue.receive(), Dequeued::Task(task("d")));
    assert_eq!(queue.receive(), Dequeued::Empty);
    assert_eq!(queue.len(), 0);
}

#[test]
fn closed_queue_refuses_but_still_drains() {
    let mut queue = WorkQueue::new();
    assert!(!queue.is_closed());
    assert_eq!(queue.send(task("a")), Ok(()));
    queue.close();
    assert!(queue.is_closed());
    assert_eq!(queue.send(task("b")), Err(ZkpError::QueueClosed));
    assert_eq!(queue.len(), 1);
    assert_eq!(queue.receive(), Dequeued::Task(task("a")));
    assert_eq!(queue.receive(), Dequeued::Closed);
    assert_eq!(queue.receive(), Dequeued::Closed);
}

#[test]
fn empty_open_queue_reports_empty() {
    let mut queue = WorkQueue::new();
    assert_eq!(queue.receive(), Dequeued::Empty);
    assert_eq!(queue.len(), 0);
}
