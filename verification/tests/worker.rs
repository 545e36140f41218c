use zkp_service::backend::{ProverCommand, ProverReport};
use zkp_service::errors::ZkpError;
use zkp_service::service::ZkpService;
use zkp_service::types::{ProofRequest, ProofResponse};
use zkp_service::worker::{Worker, WorkerAction, WorkerEvent};

fn service_with(jobs: &[(&str, bool)]) -> ZkpService {
    let mut service = ZkpService::new(false);
    for (id, mock) in jobs {
        let request = ProofRequest {
            circuit_path: format!("circuits/{}", id),
            input: "{\"x\":1}".to_string(),
            mock: *mock,
        };
        service.submit(id.to_string(), request).unwrap();
    }
    service
}

fn status_of(service: &ZkpService, id: &str) -> String {
    service.retrieve_output(id).unwrap().status
}

fn run_of(id: &str) -> WorkerAction {
    WorkerAction::RunProver(ProverCommand {
        program: "prover".to_string(),
        args: vec![
            format!("circuits/{}", id),
            format!("circuits/{}.witness", id),
            format!("circuits/{}.proof", id),
            "{\"x\":1}".to_string(),
        ],
        proof_path: format!("circuits/{}.proof", id),
    })
}

#[test]
fn woken_worker_waits_when_nothing_is_queued() {
    let mut service = ZkpService::new(true);
    let mut worker = Worker::new("prover");
    assert_eq!(worker.holding(), None);
    assert_eq!(worker.step(&mut service, WorkerEvent::Wake), WorkerAction::Wait);
    assert_eq!(worker.step(&mut service, WorkerEvent::Wake), WorkerAction::Wait);
    assert!(!worker.is_stopped());
}

#[test]
fn worker_exits_when_queue_is_closed_and_empty() {
    let mut service = service_with(&[("a", true)]);
    service.shutdown();
    let mut worker = Worker::new("prover");
    assert_eq!(worker.step(&mut service, WorkerEvent::Wake), WorkerAction::Delay { millis: 100 });
    assert_eq!(worker.step(&mut service, WorkerEvent::Elapsed), WorkerAction::Exit);
    assert!(worker.is_stopped());
    assert_eq!(status_of(&service, "a"), "completed");
    assert_eq!(worker.step(&mut service, WorkerEvent::Wake), WorkerAction::Exit);
    assert_eq!(worker.step(&mut service, WorkerEvent::Elapsed), WorkerAction::Exit);
    assert!(worker.is_stopped());
}

#[test]
fn mock_job_is_delayed_then_completed() {
    let mut service = service_with(&[("a", true), ("b", true)]);
    let mut worker = Worker::new("prover");
    assert_eq!(worker.step(&mut service, WorkerEvent::Wake), WorkerAction::Delay { millis: 100 });
    assert_eq!(worker.holding(), Some("a".to_string()));
    assert_eq!(status_of(&service, "a"), "in_progress");
    assert_eq!(status_of(&service, "b"), "pending");
    assert_eq!(worker.step(&mut service, WorkerEvent::Elapsed), WorkerAction::Delay { millis: 100 });
    assert_eq!(worker.holding(), Some("b".to_string()));
    let reply = service.retrieve_output("a").unwrap();
    assert_eq!(reply.status, "completed");
    assert!(reply.proof.unwrap().contains("mock_proof_a"));
    assert_eq!(status_of(&service, "b"), "in_progress");
    assert_eq!(worker.step(&mut service, WorkerEvent::Elapsed), WorkerAction::Wait);
    assert_eq!(worker.holding(), None);
    assert_eq!(status_of(&service, "b"), "completed");
}

#[test]
fn prover_job_is_run_read_and_completed() {
    let mut service = service_with(&[("a", false)]);
    let mut worker = Worker::new("prover");
    assert_eq!(worker.step(&mut service, WorkerEvent::Wake), run_of("a"));
    assert_eq!(worker.holding(), Some("a".to_string()));
    let ended = WorkerEvent::ProverEnded(ProverReport::Exited {
        code: Some(0),
        stderr: "note: 12 constraints".to_string(),
    });
    assert_eq!(
        worker.step(&mut service, ended),
        WorkerAction::ReadProof { path: "circuits/a.proof".to_string() }
    );
    assert_eq!(status_of(&service, "a"), "in_progress");
    assert_eq!(
        worker.step(&mut service, WorkerEvent::ProofRead(Ok("0xfeed\n".to_string()))),
        WorkerAction::Wait
    );
    assert_eq!(
        service.retrieve_output("a"),
        Ok(ProofResponse {
            task_id: "a".to_string(),
            status: "completed".to_string(),
            proof: Some("0xfeed\n".to_string()),
            error: None,
        })
    );
}

#[test]
fn failed_exit_fails_the_job_with_stderr() {
    let mut service = service_with(&[("a", false), ("b", false)]);
    let mut worker = Worker::new("prover");
    assert_eq!(worker.step(&mut service, WorkerEvent::Wake), run_of("a"));
    let ended = WorkerEvent::ProverEnded(ProverReport::Exited {
        code: Some(2),
        stderr: "error: constraint 7 failed\n".to_string(),
    });
    assert_eq!(worker.step(&mut service, ended), run_of("b"));
    assert_eq!(
        service.retrieve_output("a"),
        Ok(ProofResponse {
            task_id: "a".to_string(),
            status: "failed".to_string(),
            proof: None,
            error: Some("error: constraint 7 failed\n".to_string()),
        })
    );
    assert_eq!(status_of(&service, "b"), "in_progress");
}

#[test]
fn launch_failure_fails_the_job() {
    let mut service = service_with(&[("a", false)]);
    let mut worker = Worker::new("prover");
    worker.step(&mut service, WorkerEvent::Wake);
    let ended = WorkerEvent::ProverEnded(ProverReport::LaunchFailed {
        reason: "No such file or directory (os error 2)".to_string(),
    });
    assert_eq!(worker.step(&mut service, ended), WorkerAction::Wait);
    let reply = service.retrieve_output("a").unwrap();
    assert_eq!(reply.status, "failed");
    assert_eq!(reply.error, Some("No such file or directory (os error 2)".to_string()));
}

#[test]
fn unreadable_proof_fails_the_job() {
    let mut service = service_with(&[("a", false)]);
    let mut worker = Worker::new("prover");
    worker.step(&mut service, WorkerEvent::Wake);
    worker.step(
        &mut service,
        WorkerEvent::ProverEnded(ProverReport::Exited { code: Some(0), stderr: String::new() }),
    );
    assert_eq!(
        worker.step(&mut service, WorkerEvent::ProofRead(Err("permission denied".to_string()))),
        WorkerAction::Wait
    );
    let reply = service.retrieve_output("a").unwrap();
    assert_eq!(reply.status, "failed");
    assert_eq!(reply.error, Some("permission denied".to_string()));
}

#[test]
fn event_that_is_not_awaited_changes_nothing() {
    let mut service = service_with(&[("a", false), ("m", true)]);
    let mut worker = Worker::new("prover");
    assert_eq!(worker.step(&mut service, WorkerEvent::Elapsed), WorkerAction::Wait);
    assert_eq!(status_of(&service, "a"), "pending");
    assert_eq!(worker.step(&mut service, WorkerEvent::Wake), run_of("a"));
    assert_eq!(worker.step(&mut service, WorkerEvent::Wake), run_of("a"));
    assert_eq!(worker.step(&mut service, WorkerEvent::Elapsed), run_of("a"));
    assert_eq!(
        worker.step(&mut service, WorkerEvent::ProofRead(Ok("early".to_string()))),
        run_of("a")
    );
    assert_eq!(status_of(&service, "a"), "in_progress");
    assert_eq!(status_of(&service, "m"), "pending");
    assert_eq!(service.waiting(), 1);
    worker.step(
        &mut service,
        WorkerEvent::ProverEnded(ProverReport::Exited { code: Some(0), stderr: String::new() }),
    );
    let pending = WorkerAction::ReadProof { path: "circuits/a.proof".to_string() };
    assert_eq!(worker.step(&mut service, WorkerEvent::Wake), pending);
    assert_eq!(worker.step(&mut service, WorkerEvent::Elapsed), pending);
    assert_eq!(status_of(&service, "a"), "in_progress");
}

#[test]
fn two_workers_never_hold_the_same_job() {
    let mut service = service_with(&[("a", true), ("b", true), ("c", true)]);
    let mut first = Worker::new("prover");
    let mut second = Worker::new("prover");
    first.step(&mut service, WorkerEvent::Wake);
    second.step(&mut service, WorkerEvent::Wake);
    assert_eq!(first.holding(), Some("a".to_string()));
    assert_eq!(second.holding(), Some("b".to_string()));
    second.step(&mut service, WorkerEvent::Elapsed);
    assert_eq!(second.holding(), Some("c".to_string()));
    assert_eq!(status_of(&service, "b"), "completed");
    assert_eq!(status_of(&service, "a"), "in_progress");
    first.step(&mut service, WorkerEvent::Elapsed);
    assert_eq!(first.holding(), None);
    second.step(&mut service, WorkerEvent::Elapsed);
    assert_eq!(second.holding(), None);
    for id in ["a", "b", "c"] {
        assert_eq!(status_of(&service, id), "completed");
    }
}

#[test]
fn report_on_a_job_that_someone_else_finished_is_dropped() {
    let mut service = service_with(&[("a", true)]);
    let mut worker = Worker::new("prover");
    worker.step(&mut service, WorkerEvent::Wake);
    assert!(service.complete_task("a", Err(ZkpError::ProofGenerationError("first".to_string()))));
    assert_eq!(worker.step(&mut service, WorkerEvent::Elapsed), WorkerAction::Wait);
    let reply = service.retrieve_output("a").unwrap();
    assert_eq!(reply.status, "failed");
    assert_eq!(reply.error, Some("first".to_string()));
}
