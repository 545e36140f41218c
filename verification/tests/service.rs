use zkp_service::backend::{generate_mock_proof, Backend};
use zkp_service::errors::ZkpError;
use zkp_service::queue::Dequeued;
use zkp_service::service::{worker_count, ZkpService};
use zkp_service::types::{ProofRequest, ProofResponse, QueuedProofTask};

fn request(mock: bool) -> ProofRequest {
    ProofRequest {
        circuit_path: "circuits/main".to_string(),
        input: "{\"x\":\"1\"}".to_string(),
        mock,
    }
}

fn take(service: &mut ZkpService) -> QueuedProofTask {
    match service.next_task() {
        Dequeued::Task(task) => task,
        other => panic!("no task: {:?}", other),
    }
}

fn status_of(service: &ZkpService, id: &str) -> String {
    service.retrieve_output(id).unwrap().status
}

#[test]
fn status_is_pending_right_after_submission() {
    let mut service = ZkpService::new(false);
    let reply = service.execute_zkp(request(true)).unwrap();
    assert_eq!(reply.status, "pending");
    assert_eq!(reply.proof, None);
    assert_eq!(reply.error, None);
    assert_eq!(service.retrieve_output(&reply.task_id), Ok(reply.clone()));
    assert_eq!(service.waiting(), 1);
}

#[test]
fn generated_identifiers_are_hyphenated_hex() {
    let mut service = ZkpService::new(true);
    let a = service.execute_zkp(request(false)).unwrap().task_id;
    let b = service.execute_zkp(request(false)).unwrap().task_id;
    assert_ne!(a, b);
    for id in [a, b] {
        assert_eq!(id.chars().count(), 36);
        assert!(id.chars().all(|c| c == '-' || c.is_ascii_digit() || ('a'..='f').contains(&c)));
    }
}

#[test]
fn unknown_job_id_is_invalid_input() {
    let service = ZkpService::new(false);
    assert_eq!(
        service.retrieve_output("does-not-exist"),
        Err(ZkpError::InvalidInput("Task not found".to_string()))
    );
    let mut busy = ZkpService::new(false);
    busy.submit("known".to_string(), request(true)).unwrap();
    assert_eq!(
        busy.retrieve_output("does-not-exist"),
        Err(ZkpError::InvalidInput("Task not found".to_string()))
    );
}

#[test]
fn submit_registers_under_the_given_id() {
    let mut service = ZkpService::new(false);
    assert_eq!(
        service.submit("job-1".to_string(), request(false)),
        Ok(ProofResponse {
            task_id: "job-1".to_string(),
            status: "pending".to_string(),
            proof: None,
            error: None,
        })
    );
    assert_eq!(
        take(&mut service),
        QueuedProofTask {
            task_id: "job-1".to_string(),
            circuit_path: "circuits/main".to_string(),
            input: "{\"x\":\"1\"}".to_string(),
            mock_mode: false,
        }
    );
}

#[test]
fn mock_flag_is_the_or_of_switch_and_request() {
    for (switch, asked) in [(false, false), (false, true), (true, false), (true, true)] {
        let mut service = ZkpService::new(switch);
        assert_eq!(service.mock_mode(), switch);
        service.submit("a".to_string(), request(asked)).unwrap();
        let task = take(&mut service);
        assert_eq!(task.mock_mode, switch || asked);
        assert_eq!(Backend::of_task(&task), Backend::select(switch, asked));
    }
}

#[test]
fn closed_queue_refuses_submission_and_stores_nothing() {
    let mut service = ZkpService::new(true);
    service.submit("before".to_string(), request(true)).unwrap();
    service.shutdown();
    assert!(service.is_closed());
    assert_eq!(service.submit("after".to_string(), request(true)), Err(ZkpError::QueueClosed));
    assert_eq!(service.execute_zkp(request(true)), Err(ZkpError::QueueClosed));
    assert_eq!(
        service.retrieve_output("after"),
        Err(ZkpError::InvalidInput("Task not found".to_string()))
    );
    assert_eq!(service.waiting(), 1);
    assert_eq!(take(&mut service).task_id, "before");
    assert_eq!(service.next_task(), Dequeued::Closed);
}

#[test]
fn empty_circuit_reference_is_invalid_input() {
    let mut service = ZkpService::new(true);
    let mut bad = request(true);
    bad.circuit_path = String::new();
    assert_eq!(
        service.submit("a".to_string(), bad.clone()),
        Err(ZkpError::InvalidInput("circuit_path must not be empty".to_string()))
    );
    assert_eq!(
        service.execute_zkp(bad.clone()),
        Err(ZkpError::InvalidInput("circuit_path must not be empty".to_string()))
    );
    assert_eq!(service.waiting(), 0);
    assert!(service.retrieve_output("a").is_err());
    service.shutdown();
    assert_eq!(service.submit("a".to_string(), bad), Err(ZkpError::QueueClosed));
}

#[test]
fn known_identifier_is_not_registered_again() {
    let mut service = ZkpService::new(true);
    service.submit("a".to_string(), request(true)).unwrap();
    take(&mut service);
    assert_eq!(
        service.submit("a".to_string(), request(true)),
        Err(ZkpError::InvalidInput("Task already exists".to_string()))
    );
    assert_eq!(status_of(&service, "a"), "in_progress");
    assert_eq!(service.waiting(), 0);
}

#[test]
fn lifecycle_moves_forward_only() {
    let mut service = ZkpService::new(true);
    service.submit("a".to_string(), request(true)).unwrap();
    let mut seen = vec![status_of(&service, "a")];
    assert!(!service.complete_task("a", Ok("too early".to_string())));
    seen.push(status_of(&service, "a"));
    let task = take(&mut service);
    seen.push(status_of(&service, "a"));
    assert!(service.complete_task(&task.task_id, Ok("the proof".to_string())));
    seen.push(status_of(&service, "a"));
    assert!(!service.complete_task("a", Err(ZkpError::ProofGenerationError("late".to_string()))));
    assert!(!service.complete_task("a", Ok("another".to_string())));
    seen.push(status_of(&service, "a"));
    assert_eq!(service.next_task(), Dequeued::Empty);
    seen.push(status_of(&service, "a"));
    assert_eq!(seen, vec!["pending", "pending", "in_progress", "completed", "completed", "completed"]);
    assert_eq!(
        service.retrieve_output("a"),
        Ok(ProofResponse {
            task_id: "a".to_string(),
            status: "completed".to_string(),
            proof: Some("the proof".to_string()),
            error: None,
        })
    );
}

#[test]
fn report_for_an_unknown_job_is_ignored() {
    let mut service = ZkpService::new(true);
    assert!(!service.complete_task("ghost", Ok("p".to_string())));
    assert!(service.retrieve_output("ghost").is_err());
}

#[test]
fn failed_job_reports_the_failure_detail() {
    let mut service = ZkpService::new(false);
    service.submit("a".to_string(), request(false)).unwrap();
    let task = take(&mut service);
    let stderr = "error: could not satisfy constraint\n".to_string();
    assert!(service.complete_task(&task.task_id, Err(ZkpError::ProofGenerationError(stderr.clone()))));
    assert_eq!(
        service.retrieve_output("a"),
        Ok(ProofResponse {
            task_id: "a".to_string(),
            status: "failed".to_string(),
            proof: None,
            error: Some(stderr),
        })
    );
}

#[test]
fn jobs_are_dequeued_in_submission_order() {
    let mut service = ZkpService::new(true);
    let ids: Vec<String> = (0..5)
        .map(|_| service.execute_zkp(request(true)).unwrap().task_id)
        .collect();
    let taken: Vec<String> = (0..5).map(|_| take(&mut service).task_id).collect();
    assert_eq!(taken, ids);
    assert_eq!(service.next_task(), Dequeued::Empty);
}

#[test]
fn later_job_may_complete_first() {
    let mut service = ZkpService::new(true);
    service.submit("a".to_string(), request(true)).unwrap();
    service.submit("b".to_string(), request(true)).unwrap();
    let first = take(&mut service);
    let second = take(&mut service);
    assert_eq!((first.task_id.as_str(), second.task_id.as_str()), ("a", "b"));
    assert!(service.complete_task("b", Ok("pb".to_string())));
    assert_eq!(status_of(&service, "b"), "completed");
    assert_eq!(status_of(&service, "a"), "in_progress");
    assert!(service.complete_task("a", Ok("pa".to_string())));
    assert_eq!(status_of(&service, "a"), "completed");
}

#[test]
fn each_job_is_handed_out_once() {
    let mut service = ZkpService::new(true);
    let mut ids = Vec::new();
    for _ in 0..8 {
        ids.push(service.execute_zkp(request(true)).unwrap().task_id);
    }
    let mut handed = Vec::new();
    let mut workers: Vec<Option<QueuedProofTask>> = vec![None, None, None];
    let mut turn = 0;
    loop {
        let slot = turn % workers.len();
        turn += 1;
        if let Some(task) = workers[slot].take() {
            let outcome = generate_mock_proof(&task);
            assert!(service.complete_task(&task.task_id, outcome));
        }
        match service.next_task() {
            Dequeued::Task(task) => {
                handed.push(task.task_id.clone());
                workers[slot] = Some(task);
            }
            _ => {
                if workers.iter().all(|w| w.is_none()) {
                    break;
                }
            }
        }
    }
    assert_eq!(handed, ids);
    for id in &ids {
        assert_eq!(status_of(&service, id), "completed");
    }
    assert_eq!(service.waiting(), 0);
}

#[test]
fn three_mock_jobs_complete_with_unique_proofs() {
    let mut service = ZkpService::new(false);
    let ids: Vec<String> = (0..3)
        .map(|_| service.execute_zkp(request(true)).unwrap().task_id)
        .collect();
    for id in &ids {
        assert_eq!(status_of(&service, id), "pending");
    }
    loop {
        match service.next_task() {
            Dequeued::Task(task) => {
                assert_eq!(Backend::of_task(&task), Backend::Mock);
                assert_eq!(status_of(&service, &task.task_id), "in_progress");
                let outcome = generate_mock_proof(&task);
                assert!(service.complete_task(&task.task_id, outcome));
            }
            Dequeued::Empty => break,
            Dequeued::Closed => panic!("queue closed"),
        }
    }
    let mut proofs = Vec::new();
    for id in &ids {
        let reply = service.retrieve_output(id).unwrap();
        assert_eq!(reply.status, "completed");
        assert_eq!(reply.error, None);
        let proof = reply.proof.unwrap();
        assert!(proof.contains(&format!("mock_proof_{}", id)));
        proofs.push(proof);
    }
    assert_ne!(proofs[0], proofs[1]);
    assert_ne!(proofs[0], proofs[2]);
    assert_ne!(proofs[1], proofs[2]);
}

#[test]
fn malformed_input_is_refused_at_submission() {
    let mut service = ZkpService::new(true);
    let mut bad = request(false);
    bad.input = "{oops".to_string();
    assert_eq!(
        service.submit("a".to_string(), bad.clone()),
        Err(ZkpError::JsonError("key must be a string at line 1 column 2".to_string()))
    );
    assert!(matches!(service.execute_zkp(bad.clone()), Err(ZkpError::JsonError(_))));
    assert!(service.retrieve_output("a").is_err());
    assert_eq!(service.waiting(), 0);
    bad.circuit_path = String::new();
    assert_eq!(
        service.submit("a".to_string(), bad),
        Err(ZkpError::InvalidInput("circuit_path must not be empty".to_string()))
    );
}

#[test]
fn failed_mock_job_stores_the_failure() {
    let mut service = ZkpService::new(true);
    service.submit("a".to_string(), request(false)).unwrap();
    let mut task = take(&mut service);
    task.input = "[1,".to_string();
    let outcome = generate_mock_proof(&task);
    assert!(service.complete_task("a", outcome));
    let reply = service.retrieve_output("a").unwrap();
    assert_eq!(reply.status, "failed");
    assert_eq!(reply.proof, None);
    assert_eq!(reply.error, Some("EOF while parsing a value at line 1 column 3".to_string()));
}

#[test]
fn written_state_is_read_back() {
    let mut service = ZkpService::new(false);
    assert_eq!(service.query_state("k"), None);
    service.write_state("k".to_string(), "v1".to_string());
    service.write_state("other".to_string(), "w".to_string());
    assert_eq!(service.query_state("k"), Some("v1".to_string()));
    service.write_state("k".to_string(), "v2".to_string());
    assert_eq!(service.query_state("k"), Some("v2".to_string()));
    assert_eq!(service.query_state("other"), Some("w".to_string()));
    assert_eq!(service.query_state("missing"), None);
}

#[test]
fn state_writes_do_not_touch_jobs() {
    let mut service = ZkpService::new(true);
    service.submit("a".to_string(), request(true)).unwrap();
    service.write_state("a".to_string(), "v".to_string());
    assert_eq!(status_of(&service, "a"), "pending");
    assert_eq!(service.waiting(), 1);
}

#[test]
fn pool_has_the_configured_size_or_one_worker_per_unit() {
    assert_eq!(worker_count(Some(3), 8), 3);
    assert_eq!(worker_count(None, 8), 8);
    assert_eq!(worker_count(Some(0), 8), 8);
    assert_eq!(worker_count(None, 0), 1);
    assert_eq!(worker_count(Some(0), 0), 1);
    assert_eq!(worker_count(Some(1), 0), 1);
}
