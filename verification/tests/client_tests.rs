use mls_mock_client::{ClientError, HandleRef, MlsClientImpl, PayloadKind};

#[test]
fn name_and_ciphersuites_are_constant() {
    let client = MlsClientImpl::new();
    assert_eq!(client.name(), "Mock-Rust");
    assert_eq!(client.supported_ciphersuites(), vec![0xA0A0u32, 0xA1A1]);
    assert_eq!(client.name(), "Mock-Rust");
    assert_eq!(client.supported_ciphersuites(), vec![0xA0A0u32, 0xA1A1]);
}

#[test]
fn create_key_package_returns_canonical_bytes_and_fresh_id() {
    let mut client = MlsClientImpl::new();
    let (first, kp) = client.create_key_package();
    assert_eq!(kp, b"keyPackage".to_vec());
    let (second, _) = client.create_key_package();
    assert_ne!(first, second);
    assert!(client.known_transaction_id(first));
    assert!(client.known_transaction_id(second));
    assert!(!client.known_transaction_id(second + 1));
}

#[test]
fn scenario_join_then_state_auth() {
    let mut client = MlsClientImpl::new();
    let (transaction_id, _key_package) = client.create_key_package();
    let state_id = client
        .join_group(transaction_id, b"welcome")
        .expect("matching welcome must be accepted");
    assert!(client.known_state_id(state_id));
    let secret = client.state_auth(state_id).unwrap();
    assert!(!secret.is_empty());
    assert_eq!(secret, b"stateAuthSecret".to_vec());
    assert_eq!(
        client.state_auth(999999),
        Err(ClientError::UnknownHandle(HandleRef::State(999999)))
    );
}

#[test]
fn transaction_id_is_consumed_by_exactly_one_join() {
    let mut client = MlsClientImpl::new();
    let (transaction_id, _) = client.create_key_package();
    assert!(client.join_group(transaction_id, b"welcome").is_ok());
    assert!(!client.known_transaction_id(transaction_id));
    assert_eq!(
        client.join_group(transaction_id, b"welcome"),
        Err(ClientError::UnknownHandle(HandleRef::Transaction(
            transaction_id
        )))
    );
}

#[test]
fn rejected_welcome_leaves_the_transaction_pending() {
    let mut client = MlsClientImpl::new();
    let (transaction_id, _) = client.create_key_package();
    assert_eq!(
        client.join_group(transaction_id, b"not a welcome"),
        Err(ClientError::MalformedPayload(PayloadKind::Welcome))
    );
    assert!(client.known_transaction_id(transaction_id));
    assert!(client.join_group(transaction_id, b"welcome").is_ok());
}

#[test]
fn join_with_unknown_transaction_fails() {
    let mut client = MlsClientImpl::new();
    assert_eq!(
        client.join_group(42, b"welcome"),
        Err(ClientError::UnknownHandle(HandleRef::Transaction(42)))
    );
}

#[test]
fn external_join_checks_the_public_group_state() {
    let mut client = MlsClientImpl::new();
    let (state_id, commit) = client
        .external_join(b"publicGroupState")
        .expect("canonical public group state must be accepted");
    assert_eq!(commit, b"commit".to_vec());
    assert!(client.known_state_id(state_id));
    assert_eq!(
        client.external_join(b"garbage"),
        Err(ClientError::MalformedPayload(PayloadKind::PublicGroupState))
    );
}

#[test]
fn state_ids_are_unique_across_allocating_calls() {
    let mut client = MlsClientImpl::new();
    let a = client.create_group();
    let b = client.create_group();
    let (c, _) = client.external_join(b"publicGroupState").unwrap();
    assert_ne!(a, b);
    assert_ne!(b, c);
    assert_ne!(a, c);
    assert!(client.known_state_id(a));
    assert!(client.known_state_id(b));
    assert!(client.known_state_id(c));
}

#[test]
fn unissued_state_ids_are_rejected_by_every_state_action() {
    let mut client = MlsClientImpl::new();
    let unknown = 7;
    let err = ClientError::UnknownHandle(HandleRef::State(unknown));
    assert_eq!(client.public_group_state(unknown), Err(err));
    assert_eq!(client.state_auth(unknown), Err(err));
    assert_eq!(client.export(unknown), Err(err));
    assert_eq!(client.protect(unknown, b"data"), Err(err));
    assert_eq!(client.unprotect(unknown, b"data"), Err(err));
    assert_eq!(client.store_psk(unknown, b"psk"), Err(err));
    assert_eq!(client.add_proposal(unknown, b"keyPackage"), Err(err));
    assert_eq!(client.update_proposal(unknown), Err(err));
    assert_eq!(client.remove_proposal(unknown), Err(err));
    assert_eq!(client.psk_proposal(unknown), Err(err));
    assert_eq!(client.re_init_proposal(unknown), Err(err));
    assert_eq!(client.app_ack_proposal(unknown), Err(err));
    assert_eq!(client.commit(unknown, &Vec::new()), Err(err));
    assert_eq!(client.handle_commit(unknown, b"commit"), Err(err));
    assert_eq!(client.handle_external_commit(unknown, b"commit"), Err(err));
}

#[test]
fn state_queries_return_canonical_artifacts() {
    let mut client = MlsClientImpl::new();
    let state_id = client.create_group();
    assert_eq!(
        client.public_group_state(state_id).unwrap(),
        b"publicGroupState".to_vec()
    );
    assert_eq!(
        client.state_auth(state_id).unwrap(),
        b"stateAuthSecret".to_vec()
    );
    assert_eq!(client.export(state_id).unwrap(), Vec::<u8>::new());
    assert_eq!(client.protect(state_id, b"msg").unwrap(), Vec::<u8>::new());
    assert_eq!(client.unprotect(state_id, b"msg").unwrap(), Vec::<u8>::new());
    assert_eq!(client.store_psk(state_id, b"psk"), Ok(()));
}

#[test]
fn scenario_add_proposal_requires_an_issued_key_package() {
    let mut client = MlsClientImpl::new();
    let state_id = client.create_group();
    assert_eq!(
        client.add_proposal(state_id, b"neverIssued"),
        Err(ClientError::MalformedPayload(PayloadKind::KeyPackage))
    );
    assert_eq!(
        client.add_proposal(state_id, b"keyPackage").unwrap(),
        b"addProposal".to_vec()
    );
}

#[test]
fn other_proposals_require_a_known_state() {
    let mut client = MlsClientImpl::new();
    let state_id = client.create_group();
    assert_eq!(client.update_proposal(state_id).unwrap(), Vec::<u8>::new());
    assert_eq!(client.remove_proposal(state_id).unwrap(), Vec::<u8>::new());
    assert_eq!(client.psk_proposal(state_id).unwrap(), Vec::<u8>::new());
    assert_eq!(client.re_init_proposal(state_id).unwrap(), Vec::<u8>::new());
    assert_eq!(client.app_ack_proposal(state_id).unwrap(), Vec::<u8>::new());
}

#[test]
fn commits_advance_the_epoch_one_at_a_time() {
    let mut client = MlsClientImpl::new();
    let state_id = client.create_group();
    assert_eq!(client.state_epoch(state_id), Some(0));

    let (commit, welcome) = client.commit(state_id, &Vec::new()).unwrap();
    assert_eq!(commit, b"commit".to_vec());
    assert_eq!(welcome, b"welcome".to_vec());
    assert_eq!(client.state_epoch(state_id), Some(1));

    client.commit(state_id, &Vec::new()).unwrap();
    assert_eq!(client.state_epoch(state_id), Some(2));
}

#[test]
fn handle_commit_keeps_the_state_id_stable() {
    let mut client = MlsClientImpl::new();
    let state_id = client.create_group();
    let echoed = client.handle_commit(state_id, b"commit").unwrap();
    assert_eq!(echoed, state_id);
    assert_eq!(client.state_epoch(state_id), Some(1));
    let echoed = client.handle_external_commit(state_id, b"commit").unwrap();
    assert_eq!(echoed, state_id);
    assert_eq!(client.state_epoch(state_id), Some(2));
}

#[test]
fn unrecognized_commit_bytes_leave_the_session_unchanged() {
    let mut client = MlsClientImpl::new();
    let state_id = client.create_group();
    assert_eq!(
        client.handle_commit(state_id, b"somethingElse"),
        Err(ClientError::MalformedPayload(PayloadKind::Commit))
    );
    assert_eq!(
        client.handle_external_commit(state_id, b""),
        Err(ClientError::MalformedPayload(PayloadKind::Commit))
    );
    assert_eq!(client.state_epoch(state_id), Some(0));
}

#[test]
fn commits_on_one_session_leave_others_untouched() {
    let mut client = MlsClientImpl::new();
    let first = client.create_group();
    let second = client.create_group();
    client.commit(first, &Vec::new()).unwrap();
    client.commit(first, &Vec::new()).unwrap();
    assert_eq!(client.state_epoch(first), Some(2));
    assert_eq!(client.state_epoch(second), Some(0));
}

#[test]
fn default_client_is_empty() {
    let client = MlsClientImpl::default();
    assert!(!client.known_state_id(0));
    assert!(!client.known_transaction_id(0));
}
