use zkp_service::errors::ZkpError;
use zkp_service::store::StatusStore;
use zkp_service::types::ProofStatus;

#[test]
fn new_store_knows_no_job() {
    let store = StatusStore::new();
    assert!(!store.contains("a"));
    assert_eq!(store.get("a"), Err(ZkpError::InvalidInput("Task not found".to_string())));
}

#[test]
fn register_creates_a_pending_entry_once() {
    let mut store = StatusStore::new();
    assert!(store.register("a".to_string()));
    assert_eq!(store.get("a"), Ok(ProofStatus::Pending));
    assert!(store.advance("a", ProofStatus::InProgress));
    assert!(!store.register("a".to_string()));
    assert_eq!(store.get("a"), Ok(ProofStatus::InProgress));
}

#[test]
fn advance_follows_the_lifecycle() {
    let mut store = StatusStore::new();
    store.register("a".to_string());
    assert!(!store.advance("a", ProofStatus::Completed { proof: "p".to_string() }));
    assert_eq!(store.get("a"), Ok(ProofStatus::Pending));
    assert!(store.advance("a", ProofStatus::InProgress));
    assert!(!store.advance("a", ProofStatus::Pending));
    assert!(!store.advance("a", ProofStatus::InProgress));
    assert!(store.advance("a", ProofStatus::Failed { error: "e".to_string() }));
    assert!(!store.advance("a", ProofStatus::Completed { proof: "p".to_string() }));
    assert!(!store.advance("a", ProofStatus::InProgress));
    assert_eq!(store.get("a"), Ok(ProofStatus::Failed { error: "e".to_string() }));
}

#[test]
fn advance_of_an_unknown_job_changes_nothing() {
    let mut store = StatusStore::new();
    assert!(!store.advance("ghost", ProofStatus::InProgress));
    assert!(!store.contains("ghost"));
}

#[test]
fn entries_are_independent() {
    let mut store = StatusStore::new();
    store.register("a".to_string());
    store.register("b".to_string());
    store.advance("a", ProofStatus::InProgress);
    store.advance("a", ProofStatus::Completed { proof: "pa".to_string() });
    assert_eq!(store.get("b"), Ok(ProofStatus::Pending));
    assert_eq!(store.get("a"), Ok(ProofStatus::Completed { proof: "pa".to_string() }));
}
