use ed25519_dalek::{Signer, SigningKey};
use base64::Engine;
use kms_service::acl::{AccessRule, AclSettings, ControlAction, KeyAccessLevel, ServiceConfig, ServiceEntry};
use kms_service::audit::{AuditAction, AuditStatus};
use kms_service::config::{CryptoSettings, GracePeriodMinutes, KeyTtlDays, MasterKeyB64};
use kms_service::errors::AppError;
use kms_service::key_access::{
    GetPrivateKeyInput, GetPrivateKeyUseCase, GetPublicKeyInput, GetPublicKeyUseCase,
    GetSymmetricKeyInput, GetSymmetricKeyUseCase,
};
use kms_service::keys::{KeyAlgorithm, KeyPairEntity, KeyPurpose, KeyStatus, ServiceId};
use kms_service::kms::KmsCryptoService;
use kms_service::signing::{SignDataInput, SignDataUseCase, SigningKeyLookup};
use std::sync::Arc;

fn sid(s: &str) -> ServiceId {
    ServiceId(s.to_string())
}

fn rule(target: &str, algorithm: KeyAlgorithm, level: KeyAccessLevel) -> AccessRule {
    AccessRule { target_service: sid(target), algorithm, access_level: level }
}

fn entry(name: &str, rules: Vec<AccessRule>, actions: Option<Vec<ControlAction>>) -> ServiceEntry {
    ServiceEntry {
        name: name.to_string(),
        config: ServiceConfig {
            service_id: sid(name),
            secret: "s".to_string(),
            allowed_access: rules,
            allowed_actions: actions,
        },
    }
}

fn acl() -> AclSettings {
    AclSettings {
        services: vec![
            entry(
                "auth",
                vec![
                    rule("auth", KeyAlgorithm::Ed25519, KeyAccessLevel::PrivateKey),
                    rule("vault", KeyAlgorithm::AES256GCM, KeyAccessLevel::SymmetricKey),
                ],
                Some(vec![ControlAction::RotateOwnKeys]),
            ),
            entry("admin", vec![], Some(vec![ControlAction::RotateAllKeys, ControlAction::GenerateKeys])),
            entry("auth", vec![rule("other", KeyAlgorithm::X25519, KeyAccessLevel::PrivateKey)], None),
        ],
    }
}

pub fn kms() -> KmsCryptoService {
    let key = base64::engine::general_purpose::STANDARD.encode([3u8; 32]);
    KmsCryptoService::new(&CryptoSettings {
        master_keys: vec![(1, MasterKeyB64::parse(key).unwrap())],
        current_master_key_version: 1,
        default_key_ttl_days: KeyTtlDays(30),
        grace_period_minutes: GracePeriodMinutes(10),
    })
    .unwrap()
}

fn stored_key(kms: &KmsCryptoService, service: &str, algorithm: KeyAlgorithm, secret: &[u8]) -> KeyPairEntity {
    KeyPairEntity {
        id: 77,
        service_id: sid(service),
        algorithm,
        purpose: KeyPurpose::Signing,
        public_key_pem: String::new(),
        encrypted_private_key: kms.encrypt_private_key(secret).unwrap(),
        version: 4,
        status: KeyStatus::Active,
        created_at: 0,
        expires_at: None,
    }
}

#[test]
fn acl_grants_exactly_what_the_first_entry_lists() {
    let acl = acl();
    assert!(acl.is_allowed(&sid("auth"), &sid("auth"), KeyAlgorithm::Ed25519, &KeyAccessLevel::PrivateKey));
    assert!(!acl.is_allowed(&sid("auth"), &sid("auth"), KeyAlgorithm::Ed25519, &KeyAccessLevel::PublicKey));
    assert!(!acl.is_allowed(&sid("auth"), &sid("auth"), KeyAlgorithm::X25519, &KeyAccessLevel::PrivateKey));
    assert!(acl.is_allowed(&sid("auth"), &sid("vault"), KeyAlgorithm::AES256GCM, &KeyAccessLevel::SymmetricKey));
    // the later entry named "auth" is never consulted
    assert!(!acl.is_allowed(&sid("auth"), &sid("other"), KeyAlgorithm::X25519, &KeyAccessLevel::PrivateKey));
    assert!(!acl.is_allowed(&sid("nobody"), &sid("auth"), KeyAlgorithm::Ed25519, &KeyAccessLevel::PrivateKey));
}

#[test]
fn control_actions_follow_the_configuration() {
    let acl = acl();
    assert!(acl.has_control_action(&sid("auth"), &ControlAction::RotateOwnKeys));
    assert!(!acl.has_control_action(&sid("auth"), &ControlAction::RotateAllKeys));
    assert!(acl.has_control_action(&sid("admin"), &ControlAction::GenerateKeys));
    assert!(!acl.has_control_action(&sid("admin"), &ControlAction::RevokeKeys));
    assert!(!acl.has_control_action(&sid("ghost"), &ControlAction::GenerateKeys));
    assert_eq!(acl.find_service(&sid("admin")), Some(1));
}

#[test]
fn private_key_release_is_authorised_and_audited() {
    let kms = Arc::new(kms());
    let uc = GetPrivateKeyUseCase::new(kms.clone(), Arc::new(acl()));
    let denied = GetPrivateKeyInput { caller_service: sid("admin"), target_service: sid("auth"), algorithm: KeyAlgorithm::Ed25519 };
    let (ev, err) = uc.authorize(&denied).unwrap();
    assert!(matches!(err, AppError::Unauthorized));
    assert!(matches!(ev.status, AuditStatus::AccessDenied));
    assert_eq!(ev.action, AuditAction::GetPrivateKey);
    assert_eq!(ev.reason.as_deref(), Some("ACL Policy Violation"));

    let input = GetPrivateKeyInput { caller_service: sid("auth"), target_service: sid("auth"), algorithm: KeyAlgorithm::Ed25519 };
    assert!(uc.authorize(&input).is_none());
    let (ev, out) = uc.complete(&input, Some(stored_key(&kms, "auth", KeyAlgorithm::Ed25519, &[9u8; 32])));
    let out = out.unwrap();
    assert_eq!(out.private_key_bytes, vec![9u8; 32]);
    assert_eq!(out.version, 4);
    assert!(matches!(ev.unwrap().status, AuditStatus::Success));

    let (ev, out) = uc.complete(&input, None);
    match out {
        Err(AppError::NotFound(m)) => assert_eq!(m, "Key not found"),
        _ => panic!("expected not found"),
    }
    let ev = ev.unwrap();
    assert!(matches!(ev.status, AuditStatus::NotFound));
    assert_eq!(ev.reason.as_deref(), Some("Key does not exist"));
}

#[test]
fn symmetric_key_release_and_missing_key() {
    let kms = Arc::new(kms());
    let uc = GetSymmetricKeyUseCase::new(kms.clone(), Arc::new(acl()));
    let input = GetSymmetricKeyInput { caller_service: sid("auth"), target_service: sid("vault"), algorithm: KeyAlgorithm::AES256GCM };
    assert!(uc.authorize(&input).is_none());
    let (_, out) = uc.complete(&input, Some(stored_key(&kms, "vault", KeyAlgorithm::AES256GCM, &[4u8; 32])));
    assert_eq!(out.unwrap().key_bytes, vec![4u8; 32]);
    let (_, out) = uc.complete(&input, None);
    match out {
        Err(AppError::NotFound(m)) => assert_eq!(m, "Brak aktywnego klucza symetrycznego dla vault"),
        _ => panic!("expected not found"),
    }
    let wrong_level = GetSymmetricKeyInput { caller_service: sid("auth"), target_service: sid("auth"), algorithm: KeyAlgorithm::Ed25519 };
    let (ev, err) = uc.authorize(&wrong_level).unwrap();
    assert!(matches!(err, AppError::Unauthorized));
    assert_eq!(ev.reason.as_deref(), Some("ACL Policy Violation for Symmetric Key"));
}

#[test]
fn public_key_lookup_answers_the_found_key_or_not_found() {
    let kms = kms();
    let uc = GetPublicKeyUseCase::new();
    let input = GetPublicKeyInput { service_id: sid("auth"), algorithm: KeyAlgorithm::Ed25519 };
    let found = uc.complete(&input, Some(stored_key(&kms, "auth", KeyAlgorithm::Ed25519, &[1u8; 32]))).unwrap();
    assert_eq!(found.id, 77);
    match uc.complete(&input, None) {
        Err(AppError::NotFound(m)) => assert_eq!(
            m,
            "No active or valid deprecated public key found for service 'auth' with algorithm 'Ed25519'"
        ),
        _ => panic!("expected not found"),
    }
}

#[test]
fn signing_uses_the_stored_ed25519_key() {
    let kms = Arc::new(kms());
    let uc = SignDataUseCase::new(kms.clone(), Arc::new(acl()));
    let secret = [11u8; 32];
    let input = SignDataInput {
        caller_service: sid("auth"),
        target_service: sid("auth"),
        algorithm: KeyAlgorithm::Ed25519,
        payload: b"hello".to_vec(),
        key_version: None,
    };
    assert!(uc.authorize(&input).is_none());
    let (ev, out) = uc.complete(&input, Some(stored_key(&kms, "auth", KeyAlgorithm::Ed25519, &secret)));
    let out = out.unwrap();
    let expected = SigningKey::from_bytes(&secret).sign(b"hello").to_bytes().to_vec();
    assert_eq!(out.signature_bytes, expected);
    assert_eq!(out.signature_bytes.len(), 64);
    assert_eq!(out.key_version, 4);
    assert!(matches!(ev.status, AuditStatus::Success));

    let (ev, out) = uc.complete(&input, Some(stored_key(&kms, "auth", KeyAlgorithm::Ed25519, &[1u8; 16])));
    match out {
        Err(AppError::CryptoError(m)) => assert_eq!(m, "Invalid Ed25519 private key length"),
        _ => panic!("expected a crypto error"),
    }
    assert!(matches!(ev.status, AuditStatus::Failure));
}

#[test]
fn signing_refuses_other_algorithms_and_unlisted_callers() {
    let uc = SignDataUseCase::new(Arc::new(kms()), Arc::new(acl()));
    let mut input = SignDataInput {
        caller_service: sid("auth"),
        target_service: sid("auth"),
        algorithm: KeyAlgorithm::X25519,
        payload: vec![],
        key_version: Some(2),
    };
    let (ev, err) = uc.authorize(&input).unwrap();
    match err {
        AppError::ValidationError(m) => assert_eq!(m, "Signing endpoint supports only Ed25519 keys"),
        _ => panic!("expected a validation error"),
    }
    assert_eq!(ev.reason.as_deref(), Some("Only Ed25519 signing is supported"));
    input.algorithm = KeyAlgorithm::Ed25519;
    input.caller_service = sid("admin");
    let (_, err) = uc.authorize(&input).unwrap();
    assert!(matches!(err, AppError::Unauthorized));
}

#[test]
fn signing_uses_the_named_version_or_the_active_key() {
    let uc = SignDataUseCase::new(Arc::new(kms()), Arc::new(acl()));
    let mut input = SignDataInput {
        caller_service: sid("auth"),
        target_service: sid("auth"),
        algorithm: KeyAlgorithm::Ed25519,
        payload: vec![],
        key_version: Some(7),
    };
    assert!(matches!(uc.key_lookup(&input), SigningKeyLookup::Version(7)));
    input.key_version = None;
    assert!(matches!(uc.key_lookup(&input), SigningKeyLookup::Active));
}
