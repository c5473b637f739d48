use mls_mock_client::{GroupState, MlsClientImpl, PendingArtifact, SessionRegistry};

#[test]
fn fresh_registry_resolves_nothing() {
    let registry = SessionRegistry::new();
    assert!(!registry.contains_transaction(0));
    assert!(!registry.contains_state(0));
    assert!(registry.resolve_state(0).is_none());
}

#[test]
fn allocation_issues_distinct_ids_and_resolution_sees_the_write() {
    let mut registry = SessionRegistry::new();
    let t0 = registry.allocate_transaction(PendingArtifact {
        key_package: vec![1, 2, 3],
    });
    let t1 = registry.allocate_transaction(PendingArtifact {
        key_package: vec![4, 5],
    });
    assert_ne!(t0, t1);
    assert!(registry.contains_transaction(t0));
    assert!(registry.contains_transaction(t1));

    let s0 = registry.allocate_state(GroupState { epoch: 0 });
    let s1 = registry.allocate_state(GroupState { epoch: 7 });
    assert_ne!(s0, s1);
    assert_eq!(registry.resolve_state(s0).unwrap().epoch, 0);
    assert_eq!(registry.resolve_state(s1).unwrap().epoch, 7);
}

#[test]
fn resolution_does_not_consume() {
    let mut registry = SessionRegistry::new();
    let id = registry.allocate_transaction(PendingArtifact {
        key_package: vec![5, 6],
    });
    assert_eq!(
        registry.resolve_transaction(id).unwrap().key_package,
        vec![5, 6]
    );
    assert!(registry.resolve_transaction(id).is_some());
    assert!(registry.resolve_transaction(id + 1).is_none());
}

#[test]
fn consume_returns_the_artifact_exactly_once() {
    let mut registry = SessionRegistry::new();
    let id = registry.allocate_transaction(PendingArtifact {
        key_package: vec![9, 9, 9],
    });
    let artifact = registry.consume_transaction(id).unwrap();
    assert_eq!(artifact.key_package, vec![9, 9, 9]);
    assert!(registry.consume_transaction(id).is_none());
    assert!(!registry.contains_transaction(id));
}

#[test]
fn consuming_one_transaction_leaves_the_others() {
    let mut registry = SessionRegistry::new();
    let a = registry.allocate_transaction(PendingArtifact {
        key_package: vec![1],
    });
    let b = registry.allocate_transaction(PendingArtifact {
        key_package: vec![2],
    });
    let c = registry.allocate_transaction(PendingArtifact {
        key_package: vec![3],
    });
    assert!(registry.consume_transaction(b).is_some());
    assert_eq!(registry.consume_transaction(a).unwrap().key_package, vec![1]);
    assert_eq!(registry.consume_transaction(c).unwrap().key_package, vec![3]);
}

#[test]
fn replace_state_updates_exactly_one_entry() {
    let mut registry = SessionRegistry::new();
    let s0 = registry.allocate_state(GroupState { epoch: 0 });
    let s1 = registry.allocate_state(GroupState { epoch: 0 });
    assert!(registry.replace_state(s0, GroupState { epoch: 5 }));
    assert_eq!(registry.resolve_state(s0).unwrap().epoch, 5);
    assert_eq!(registry.resolve_state(s1).unwrap().epoch, 0);
    assert!(!registry.replace_state(1000, GroupState { epoch: 1 }));
}

#[test]
fn client_id_allocators_track_the_registry() {
    let mut client = MlsClientImpl::new();
    let t = client.new_transaction_id(PendingArtifact {
        key_package: vec![0xAB],
    });
    assert!(client.known_transaction_id(t));
    assert!(!client.known_transaction_id(t + 1));

    let s = client.new_state_id(GroupState { epoch: 0 });
    assert!(client.known_state_id(s));
    assert!(!client.known_state_id(s + 1));
    assert_eq!(client.state_epoch(s), Some(0));
}
