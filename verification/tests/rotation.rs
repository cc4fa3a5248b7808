use base64::Engine;
use kms_service::acl::{AccessRule, AclSettings, ControlAction, KeyAccessLevel, ServiceConfig, ServiceEntry};
use kms_service::audit::{AuditAction, AuditLog};
use kms_service::config::{CryptoSettings, GracePeriodMinutes, KeyTtlDays, MasterKeyB64};
use kms_service::errors::AppError;
use kms_service::keys::{KeyAlgorithm, KeyPairEntity, KeyPurpose, KeyStatus, RotationReason, ServiceId};
use kms_service::kms::KmsCryptoService;
use kms_service::rotation::{
    bootstrap_targets, check_rewrap_target, create_bootstrap_key, key_to_bootstrap, new_bootstrap_key, rewrap_batch, rewrap_step,
    RewrapKeysInput, RewrapStep, RotateKeyInput, RotateKeyUseCase, StatusChange,
};
use std::sync::Arc;

fn sid(s: &str) -> ServiceId {
    ServiceId(s.to_string())
}

fn kms_with(keys: Vec<(i32, u8)>, current: i32) -> KmsCryptoService {
    KmsCryptoService::new(&CryptoSettings {
        master_keys: keys
            .into_iter()
            .map(|(v, b)| {
                let text = base64::engine::general_purpose::STANDARD.encode([b; 32]);
                (v, MasterKeyB64::parse(text).unwrap())
            })
            .collect(),
        current_master_key_version: current,
        default_key_ttl_days: KeyTtlDays(30),
        grace_period_minutes: GracePeriodMinutes(15),
    })
    .unwrap()
}

fn acl() -> AclSettings {
    let entry = |name: &str, rules: Vec<AccessRule>, actions: Option<Vec<ControlAction>>| ServiceEntry {
        name: name.to_string(),
        config: ServiceConfig {
            service_id: sid(name),
            secret: String::new(),
            allowed_access: rules,
            allowed_actions: actions,
        },
    };
    AclSettings {
        services: vec![
            entry(
                "billing",
                vec![
                    AccessRule { target_service: sid("billing"), algorithm: KeyAlgorithm::Ed25519, access_level: KeyAccessLevel::PrivateKey },
                    AccessRule { target_service: sid("vault"), algorithm: KeyAlgorithm::AES256GCM, access_level: KeyAccessLevel::SymmetricKey },
                ],
                Some(vec![ControlAction::RotateOwnKeys]),
            ),
            entry(
                "ops",
                vec![AccessRule { target_service: sid("billing"), algorithm: KeyAlgorithm::HmacSha256, access_level: KeyAccessLevel::SymmetricKey }],
                Some(vec![ControlAction::RotateAllKeys]),
            ),
            entry("guest", vec![], None),
        ],
    }
}

fn key(kms: &KmsCryptoService, id: u128, secret: &[u8], version: u32) -> KeyPairEntity {
    KeyPairEntity {
        id,
        service_id: sid("billing"),
        algorithm: KeyAlgorithm::Ed25519,
        purpose: KeyPurpose::Signing,
        public_key_pem: String::new(),
        encrypted_private_key: kms.encrypt_private_key(secret).unwrap(),
        version,
        status: KeyStatus::Active,
        created_at: 5,
        expires_at: None,
    }
}

fn input(service: &str, caller: &str, reason: RotationReason) -> RotateKeyInput {
    RotateKeyInput {
        service_id: sid(service),
        algorithm: KeyAlgorithm::Ed25519,
        caller_service: sid(caller),
        reason,
        actor_id: "alice".to_string(),
    }
}

#[test]
fn rotation_needs_the_matching_control_action() {
    let uc = RotateKeyUseCase::new(Arc::new(kms_with(vec![(1, 1)], 1)), GracePeriodMinutes(15), Arc::new(acl()));
    assert!(uc.authorize(&input("billing", "billing", RotationReason::Manual)).is_ok());
    assert!(matches!(uc.authorize(&input("ops", "billing", RotationReason::Manual)), Err(AppError::Unauthorized)));
    assert!(uc.authorize(&input("billing", "ops", RotationReason::Manual)).is_ok());
    assert!(matches!(uc.authorize(&input("guest", "guest", RotationReason::Manual)), Err(AppError::Unauthorized)));
    assert!(matches!(uc.authorize(&input("billing", "stranger", RotationReason::Manual)), Err(AppError::Unauthorized)));
}

#[test]
fn scheduled_rotation_deprecates_after_the_grace_period() {
    let kms = Arc::new(kms_with(vec![(1, 1)], 1));
    let uc = RotateKeyUseCase::new(kms.clone(), GracePeriodMinutes(15), Arc::new(acl()));
    let old = key(&kms, 10, &[1u8; 32], 3);
    match uc.plan_status_change(&input("billing", "billing", RotationReason::Scheduled), &Some(old), 1_000) {
        Ok(StatusChange::Deprecate { key_id, valid_until }) => {
            assert_eq!(key_id, 10);
            assert_eq!(valid_until, 1_000 + 15 * 60_000);
        }
        _ => panic!("expected a deprecation"),
    }
    let old = key(&kms, 11, &[1u8; 32], 3);
    match uc.plan_status_change(&input("billing", "billing", RotationReason::Compromised), &Some(old), 0) {
        Ok(StatusChange::MarkCompromised { key_id }) => assert_eq!(key_id, 11),
        _ => panic!("expected the key to be marked compromised"),
    }
    match uc.plan_status_change(&input("billing", "billing", RotationReason::Manual), &None, 0) {
        Err(AppError::NotFound(m)) => assert_eq!(
            m,
            "Cannot rotate key: No active key exists for service 'billing' with algorithm 'Ed25519'"
        ),
        _ => panic!("expected not found"),
    }
    match uc.deprecation_outcome(false) {
        Err(AppError::Conflict(m)) => assert_eq!(m, "Failed to deprecate key: concurrent modification"),
        _ => panic!("expected a conflict"),
    }
    assert!(uc.deprecation_outcome(true).is_ok());
}

#[test]
fn rotated_key_is_the_next_version_and_opens() {
    let kms = Arc::new(kms_with(vec![(1, 1)], 1));
    let uc = RotateKeyUseCase::new(kms.clone(), GracePeriodMinutes(15), Arc::new(acl()));
    let old = key(&kms, 10, &[1u8; 32], 3);
    let req = input("billing", "billing", RotationReason::Manual);
    let new = uc.build_rotated_key(&req, &old, 99, 1234).unwrap();
    assert_eq!(new.id, 99);
    assert_eq!(new.version, 4);
    assert_eq!(new.status, KeyStatus::Active);
    assert_eq!(new.purpose, KeyPurpose::Signing);
    assert_eq!(new.created_at, 1234);
    assert!(new.expires_at.is_none());
    assert!(new.public_key_pem.starts_with("-----BEGIN PUBLIC KEY-----"));
    assert_eq!(kms.decrypt_private_key(&new.encrypted_private_key).unwrap().len(), 32);

    let ev = uc.rotation_event(&req);
    assert_eq!(ev.action, AuditAction::KeyRotated);
    assert_eq!(ev.reason.as_deref(), Some("Manual; actor=alice"));
}

#[test]
fn bootstrap_visits_every_rule_in_order() {
    let targets = bootstrap_targets(&acl());
    let names: Vec<(String, KeyAlgorithm)> = targets.into_iter().map(|(s, a)| (s.0, a)).collect();
    assert_eq!(
        names,
        vec![
            ("billing".to_string(), KeyAlgorithm::Ed25519),
            ("vault".to_string(), KeyAlgorithm::AES256GCM),
            ("billing".to_string(), KeyAlgorithm::HmacSha256),
        ]
    );
    let kms = kms_with(vec![(1, 1)], 1);
    let k = new_bootstrap_key(&kms, &sid("billing"), KeyAlgorithm::HmacSha256, 5, 6).unwrap();
    assert_eq!(k.purpose, KeyPurpose::Authentication);
    assert_eq!(k.version, 1);
    assert!(k.public_key_pem.is_empty());
    let k = new_bootstrap_key(&kms, &sid("x"), KeyAlgorithm::X25519, 5, 6).unwrap();
    assert_eq!(k.purpose, KeyPurpose::Encryption);
}

#[test]
fn rewrap_moves_keys_to_the_current_master_key() {
    let old = kms_with(vec![(1, 1)], 1);
    let keys = vec![key(&old, 1, b"first", 1), key(&old, 2, b"second", 1)];
    let kms = kms_with(vec![(1, 1), (2, 2)], 2);

    match check_rewrap_target(&kms, &RewrapKeysInput { target_master_version: 1, batch_size: 10 }) {
        Err(AppError::ValidationError(m)) => {
            assert_eq!(m, "Target master key version 1 does not match KMS active version 2")
        }
        _ => panic!("expected a validation error"),
    }
    assert_eq!(check_rewrap_target(&kms, &RewrapKeysInput { target_master_version: 2, batch_size: 10 }).unwrap(), 2);

    let updates = rewrap_batch(&kms, &keys).unwrap();
    assert_eq!(updates.len(), 2);
    assert_eq!(updates[0].0, 1);
    assert_eq!(updates[1].2, 2);
    assert_eq!(updates[1].1.master_key_version, 2);
    assert_eq!(kms.decrypt_private_key(&updates[0].1).unwrap(), b"first".to_vec());
    assert_eq!(kms.decrypt_private_key(&updates[1].1).unwrap(), b"second".to_vec());

    match rewrap_step(&kms, 7, &keys).unwrap() {
        RewrapStep::Store { updates, total } => {
            assert_eq!(total, 9);
            assert_eq!(updates.len(), 2);
        }
        _ => panic!("expected a batch to store"),
    }
    match rewrap_step(&kms, 9, &Vec::new()).unwrap() {
        RewrapStep::Finished { total } => assert_eq!(total, 9),
        _ => panic!("expected the end"),
    }
}

#[test]
fn rewrap_stops_at_a_key_it_cannot_open() {
    let stranger = kms_with(vec![(5, 9)], 5);
    let kms = kms_with(vec![(1, 1)], 1);
    let keys = vec![key(&kms, 1, b"ok", 1), key(&stranger, 2, b"lost", 1)];
    match rewrap_batch(&kms, &keys) {
        Err(AppError::CryptoError(m)) => assert_eq!(m, "Master key version 5 not found in KMS store"),
        _ => panic!("expected a crypto error"),
    }
}

#[test]
fn keys_and_records_made_now_get_fresh_ids() {
    let kms = Arc::new(kms_with(vec![(1, 1)], 1));
    let a = create_bootstrap_key(&kms, &sid("billing"), KeyAlgorithm::Ed25519).unwrap();
    let b = create_bootstrap_key(&kms, &sid("billing"), KeyAlgorithm::Ed25519).unwrap();
    assert_ne!(a.id, b.id);
    assert_eq!(a.version, 1);
    assert!(a.created_at > 1_600_000_000_000);

    let uc = RotateKeyUseCase::new(kms.clone(), GracePeriodMinutes(15), Arc::new(acl()));
    let next = uc.rotated_key(&input("billing", "billing", RotationReason::Scheduled), &a).unwrap();
    assert_eq!(next.version, 2);
    assert_ne!(next.id, a.id);

    let log = AuditLog::from_event(uc.rotation_event(&input("billing", "billing", RotationReason::Compromised)));
    assert_eq!(log.action, AuditAction::KeyRotated);
    assert_eq!(log.reason.as_deref(), Some("Compromised; actor=alice"));
    assert!(log.timestamp > 1_600_000_000_000);
}

#[test]
fn bootstrap_creates_only_missing_keys() {
    let kms = kms_with(vec![(1, 1)], 1);
    let present = Some(key(&kms, 3, &[1u8; 32], 1));
    assert!(key_to_bootstrap(&kms, &sid("billing"), KeyAlgorithm::Ed25519, &present).unwrap().is_none());
    let made = key_to_bootstrap(&kms, &sid("vault"), KeyAlgorithm::AES256GCM, &None).unwrap().unwrap();
    assert_eq!(made.service_id.0, "vault");
    assert_eq!(made.purpose, KeyPurpose::Encryption);
    assert_eq!(made.status, KeyStatus::Active);
    assert_eq!(kms.decrypt_private_key(&made.encrypted_private_key).unwrap().len(), 32);
}

#[test]
fn large_grace_periods_only_matter_when_deprecating() {
    let kms = Arc::new(kms_with(vec![(1, 1)], 1));
    let uc = RotateKeyUseCase::new(kms.clone(), GracePeriodMinutes(i64::MAX), Arc::new(acl()));
    let old = key(&kms, 12, &[1u8; 32], 2);
    match uc.plan_status_change(&input("billing", "billing", RotationReason::Compromised), &Some(old), i64::MAX) {
        Ok(StatusChange::MarkCompromised { key_id }) => assert_eq!(key_id, 12),
        _ => panic!("expected the key to be marked compromised"),
    }
    assert!(matches!(
        uc.plan_status_change(&input("billing", "billing", RotationReason::Scheduled), &None, i64::MAX),
        Err(AppError::NotFound(_))
    ));
}
