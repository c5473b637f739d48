use mls_mock_client::{ClientError, MlsClientImpl, PayloadKind, TestVectorType};

#[test]
fn kind_tags_decode_exactly() {
    assert_eq!(TestVectorType::try_from(0), Ok(TestVectorType::TreeMath));
    assert_eq!(TestVectorType::try_from(1), Ok(TestVectorType::Encryption));
    assert_eq!(TestVectorType::try_from(2), Ok(TestVectorType::KeySchedule));
    assert_eq!(TestVectorType::try_from(3), Ok(TestVectorType::Transcript));
    assert_eq!(TestVectorType::try_from(4), Ok(TestVectorType::Treekem));
    assert_eq!(TestVectorType::try_from(5), Ok(TestVectorType::Messages));
    assert_eq!(TestVectorType::try_from(6), Err(()));
    assert_eq!(TestVectorType::try_from(-1), Err(()));
    assert_eq!(TestVectorType::try_from(i32::MAX), Err(()));
}

#[test]
fn generation_is_deterministic() {
    let client = MlsClientImpl::new();
    for tag in 0..6 {
        let first = client.generate_test_vector(tag).unwrap();
        let second = client.generate_test_vector(tag).unwrap();
        assert_eq!(first, second);
    }
}

#[test]
fn generated_vector_has_exact_canonical_bytes() {
    let client = MlsClientImpl::new();
    let vector = client.generate_test_vector(0).unwrap();
    assert_eq!(vector, vec![0u8, 1, 2, 3]);
}

#[test]
fn generated_vectors_round_trip() {
    let client = MlsClientImpl::new();
    for tag in 0..6 {
        let vector = client.generate_test_vector(tag).unwrap();
        assert_eq!(client.verify_test_vector(tag, &vector), Ok(()));
    }
}

#[test]
fn verification_rejects_any_differing_bytes() {
    let client = MlsClientImpl::new();
    let vector = client.generate_test_vector(1).unwrap();

    let mut flipped = vector.clone();
    let last = flipped.len() - 1;
    flipped[last] ^= 0xFF;
    assert_eq!(
        client.verify_test_vector(1, &flipped),
        Err(ClientError::MalformedPayload(PayloadKind::TestVector))
    );

    let mut truncated = vector.clone();
    truncated.pop();
    assert_eq!(
        client.verify_test_vector(1, &truncated),
        Err(ClientError::MalformedPayload(PayloadKind::TestVector))
    );

    assert_eq!(
        client.verify_test_vector(1, &[]),
        Err(ClientError::MalformedPayload(PayloadKind::TestVector))
    );

    let mut extended = vector.clone();
    extended.push(0);
    assert_eq!(
        client.verify_test_vector(1, &extended),
        Err(ClientError::MalformedPayload(PayloadKind::TestVector))
    );
}

#[test]
fn unknown_kind_tag_is_a_request_shape_error() {
    let client = MlsClientImpl::new();
    assert_eq!(
        client.generate_test_vector(6),
        Err(ClientError::UnsupportedVectorKind(6))
    );
    assert_eq!(
        client.generate_test_vector(-7),
        Err(ClientError::UnsupportedVectorKind(-7))
    );
    assert_eq!(
        client.verify_test_vector(6, &[0, 1, 2, 3]),
        Err(ClientError::UnsupportedVectorKind(6))
    );
}

#[test]
fn scenario_encryption_vector_round_trip_and_flip() {
    let client = MlsClientImpl::new();
    let vector = client
        .generate_test_vector(TestVectorType::Encryption as i32)
        .unwrap();
    assert_eq!(
        client.verify_test_vector(TestVectorType::Encryption as i32, &vector),
        Ok(())
    );
    let mut flipped = vector.clone();
    let last = flipped.len() - 1;
    flipped[last] ^= 1;
    assert!(client
        .verify_test_vector(TestVectorType::Encryption as i32, &flipped)
        .is_err());
}
