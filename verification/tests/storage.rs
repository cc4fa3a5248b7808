use kms_service::errors::AppError;
use kms_service::keys::{EncryptedPrivateKey, KeyAlgorithm, KeyPairEntity, KeyPurpose, KeyStatus, ServiceId};
use kms_service::storage::{
    duplicate_key_error, is_duplicate_key_message, map_doc_to_entity, map_doc_to_entity_at,
    KeyDocument, RedisKey,
};
use kms_service::value_objects::ClientIp;

fn entity(status: KeyStatus) -> KeyPairEntity {
    KeyPairEntity {
        id: 0x0192_d4c0_0000_7000_8000_0000_0000_0001,
        service_id: ServiceId("billing".to_string()),
        algorithm: KeyAlgorithm::X25519,
        purpose: KeyPurpose::Encryption,
        public_key_pem: "pem".to_string(),
        encrypted_private_key: EncryptedPrivateKey {
            ciphertext: vec![1, 2, 3],
            nonce: vec![4; 12],
            master_key_version: 3,
        },
        version: 7,
        status,
        created_at: 1_700_000_000_000,
        expires_at: Some(1_800_000_000_000),
    }
}

#[test]
fn documents_name_their_fields_as_stored() {
    let doc = KeyDocument::from_entity(&entity(KeyStatus::Deprecated { valid_until: 42 }));
    assert_eq!(doc.id, "0192d4c0-0000-7000-8000-000000000001");
    assert_eq!(doc.algorithm, "X25519");
    assert_eq!(doc.purpose, "Encryption");
    assert_eq!(doc.status, "Deprecated");
    assert_eq!(doc.deprecated_valid_until, Some(42));
    assert_eq!(doc.version, 7);
    assert_eq!(doc.master_key_version, 3);
    assert_eq!(doc.nonce, vec![4; 12]);
}

#[test]
fn documents_read_back_as_the_same_key() {
    for status in [
        KeyStatus::Active,
        KeyStatus::Revoked,
        KeyStatus::Compromised,
        KeyStatus::Deprecated { valid_until: 99 },
    ] {
        let stored = entity(status);
        let back = map_doc_to_entity_at(KeyDocument::from_entity(&stored), 5).unwrap();
        assert_eq!(back.id, stored.id);
        assert_eq!(back.service_id.0, "billing");
        assert_eq!(back.algorithm, stored.algorithm);
        assert_eq!(back.purpose, stored.purpose);
        assert_eq!(back.status, stored.status);
        assert_eq!(back.version, 7);
        assert_eq!(back.encrypted_private_key.ciphertext, vec![1, 2, 3]);
        assert_eq!(back.created_at, stored.created_at);
        assert_eq!(back.expires_at, stored.expires_at);
    }
}

#[test]
fn expired_reads_back_as_revoked_and_open_deprecation_ends_now() {
    let back = map_doc_to_entity_at(KeyDocument::from_entity(&entity(KeyStatus::Expired)), 5).unwrap();
    assert_eq!(back.status, KeyStatus::Revoked);
    let mut doc = KeyDocument::from_entity(&entity(KeyStatus::Deprecated { valid_until: 1 }));
    doc.deprecated_valid_until = None;
    let back = map_doc_to_entity_at(doc, 321).unwrap();
    assert_eq!(back.status, KeyStatus::Deprecated { valid_until: 321 });
    let back = map_doc_to_entity(KeyDocument::from_entity(&entity(KeyStatus::Active))).unwrap();
    assert_eq!(back.status, KeyStatus::Active);
}

#[test]
fn corrupt_documents_are_internal_errors() {
    let mut doc = KeyDocument::from_entity(&entity(KeyStatus::Active));
    doc.algorithm = "RSA".to_string();
    match map_doc_to_entity_at(doc, 0) {
        Err(AppError::Internal(m)) => assert_eq!(m, "Unknown algorithm in database: RSA"),
        _ => panic!("expected an internal error"),
    }
    let mut doc = KeyDocument::from_entity(&entity(KeyStatus::Active));
    doc.purpose = "Fun".to_string();
    match map_doc_to_entity_at(doc, 0) {
        Err(AppError::Internal(m)) => assert_eq!(m, "Unknown purpose in database: Fun"),
        _ => panic!("expected an internal error"),
    }
    let mut doc = KeyDocument::from_entity(&entity(KeyStatus::Active));
    doc.id = "not-a-uuid".to_string();
    match map_doc_to_entity_at(doc, 0) {
        Err(AppError::Internal(m)) => assert!(m.starts_with("Invalid UUID in database: ")),
        _ => panic!("expected an internal error"),
    }
}

#[test]
fn duplicate_key_refusals_are_recognised() {
    assert!(is_duplicate_key_message("E11000 duplicate key error collection"));
    assert!(is_duplicate_key_message("write error code 11000"));
    assert!(is_duplicate_key_message("Duplicate Key violation"));
    assert!(!is_duplicate_key_message("connection reset"));
    match duplicate_key_error() {
        AppError::Conflict(m) => assert_eq!(m, "Duplicate active key exists"),
        _ => panic!("expected a conflict"),
    }
}

#[test]
fn rate_limit_keys_drop_leading_slashes() {
    let ip = ClientIp::new("10.0.0.1".to_string());
    assert_eq!(RedisKey::rate_limit("/api/v1/encrypt", &ip).as_str(), "rl:api/v1/encrypt:10.0.0.1");
    assert_eq!(RedisKey::rate_limit("//health", &ip).as_str(), "rl:health:10.0.0.1");
    assert_eq!(RedisKey::rate_limit("plain", &ip).as_str(), "rl:plain:10.0.0.1");
}
