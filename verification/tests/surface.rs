use kms_service::errors::AppError;
use kms_service::http::{
    health_report, lock_status, unlock_failure, DecryptRequest, EncryptResponse, GetPrivateKeyRequest,
    GetSymmetricKeyRequest, KeyPairResponse, PrivateKeyResponse, RedisProbe, RewrapKeysRequest,
    RotateKeyRequest, SignDataRequest, SignDataResponse, SymmetricKeyResponse,
};
use kms_service::key_access::{GetPrivateKeyOutput, GetSymmetricKeyOutput};
use kms_service::keys::{EncryptedPrivateKey, KeyAlgorithm, KeyPairEntity, KeyPurpose, KeyStatus, RotationReason, ServiceId};
use kms_service::signing::SignDataOutput;
use kms_service::value_objects::ApiRoute;

fn sid(s: &str) -> ServiceId {
    ServiceId(s.to_string())
}

#[test]
fn health_is_ok_only_with_database_and_cache() {
    let (code, body) = health_report(true, RedisProbe::Answered, true);
    assert_eq!(code, 200);
    assert_eq!((body.status, body.database, body.redis, body.kms), ("ok", "ok", "ok", "ready"));

    let (code, body) = health_report(true, RedisProbe::NotConnected { enabled: false }, false);
    assert_eq!(code, 200);
    assert_eq!((body.status, body.redis, body.kms), ("ok", "disabled", "locked"));

    let (code, body) = health_report(true, RedisProbe::NotConnected { enabled: true }, true);
    assert_eq!(code, 503);
    assert_eq!((body.status, body.redis), ("degraded", "error"));

    let (code, body) = health_report(false, RedisProbe::Answered, true);
    assert_eq!(code, 503);
    assert_eq!((body.status, body.database), ("degraded", "error"));

    let (code, body) = health_report(true, RedisProbe::Failed, true);
    assert_eq!((code, body.redis), (503, "error"));
}

#[test]
fn lock_state_labels() {
    assert_eq!(lock_status(true), "READY");
    assert_eq!(lock_status(false), "LOCKED");
}

#[test]
fn sign_requests_decode_their_payload() {
    let req = SignDataRequest {
        target_service: "auth".to_string(),
        algorithm: KeyAlgorithm::Ed25519,
        payload_b64: "aGVsbG8=".to_string(),
        key_version: Some(3),
    };
    let input = req.into_input(sid("caller")).unwrap();
    assert_eq!(input.payload, b"hello".to_vec());
    assert_eq!(input.caller_service.0, "caller");
    assert_eq!(input.target_service.0, "auth");
    assert_eq!(input.key_version, Some(3));

    let bad = SignDataRequest {
        target_service: "auth".to_string(),
        algorithm: KeyAlgorithm::Ed25519,
        payload_b64: "!!".to_string(),
        key_version: None,
    };
    match bad.into_input(sid("caller")) {
        Err(AppError::ValidationError(m)) => assert!(m.starts_with("Invalid payload_b64: ")),
        _ => panic!("expected a validation error"),
    }
}

#[test]
fn signatures_are_sent_as_base64() {
    let resp = SignDataResponse::from_output(SignDataOutput {
        service_id: sid("auth"),
        algorithm: KeyAlgorithm::Ed25519,
        key_version: 2,
        signature_bytes: b"hello".to_vec(),
    });
    assert_eq!(resp.signature_b64, "aGVsbG8=");
    assert_eq!(resp.key_version, 2);
}

#[test]
fn key_views_show_uuid_and_rfc3339_time() {
    let entity = KeyPairEntity {
        id: 1,
        service_id: sid("auth"),
        algorithm: KeyAlgorithm::Ed25519,
        purpose: KeyPurpose::Signing,
        public_key_pem: "PEM".to_string(),
        encrypted_private_key: EncryptedPrivateKey { ciphertext: vec![], nonce: vec![], master_key_version: 1 },
        version: 3,
        status: KeyStatus::Active,
        created_at: 0,
        expires_at: None,
    };
    let resp = KeyPairResponse::from_entity(entity).unwrap();
    assert_eq!(resp.id, "00000000-0000-0000-0000-000000000001");
    assert_eq!(resp.created_at, "1970-01-01T00:00:00+00:00");
    assert_eq!(resp.service_id, "auth");
    assert_eq!(resp.version, 3);

    let far = KeyPairEntity {
        id: 2,
        service_id: sid("auth"),
        algorithm: KeyAlgorithm::Ed25519,
        purpose: KeyPurpose::Signing,
        public_key_pem: String::new(),
        encrypted_private_key: EncryptedPrivateKey { ciphertext: vec![], nonce: vec![], master_key_version: 1 },
        version: 1,
        status: KeyStatus::Active,
        created_at: i64::MAX,
        expires_at: None,
    };
    match KeyPairResponse::from_entity(far) {
        Err(AppError::Internal(m)) => assert_eq!(m, "Key creation time is outside the supported date range"),
        _ => panic!("expected an internal error"),
    }
}

#[test]
fn requests_become_inputs_and_outputs_become_responses() {
    let rot = RotateKeyRequest {
        service_id: "auth".to_string(),
        algorithm: KeyAlgorithm::X25519,
        reason: RotationReason::Compromised,
        actor_id: "bob".to_string(),
    }
    .into_input(sid("admin"));
    assert_eq!((rot.service_id.0.as_str(), rot.caller_service.0.as_str(), rot.actor_id.as_str()), ("auth", "admin", "bob"));
    assert_eq!(rot.reason, RotationReason::Compromised);

    let p = GetPrivateKeyRequest { service_id: "t".to_string(), algorithm: KeyAlgorithm::Ed25519 }.into_input(sid("c"));
    assert_eq!((p.caller_service.0.as_str(), p.target_service.0.as_str()), ("c", "t"));
    let s = GetSymmetricKeyRequest { service_id: "t".to_string(), algorithm: KeyAlgorithm::AES256GCM }.into_input(sid("c"));
    assert_eq!(s.algorithm, KeyAlgorithm::AES256GCM);

    let pk = PrivateKeyResponse::from_output(GetPrivateKeyOutput {
        service_id: sid("t"),
        algorithm: KeyAlgorithm::Ed25519,
        version: 9,
        private_key_bytes: vec![1, 2],
    });
    assert_eq!((pk.service_id.as_str(), pk.version, pk.private_key_bytes.clone()), ("t", 9, vec![1, 2]));
    let sk = SymmetricKeyResponse::from_output(GetSymmetricKeyOutput {
        service_id: sid("t"),
        algorithm: KeyAlgorithm::HmacSha256,
        version: 1,
        key_bytes: vec![3],
    });
    assert_eq!(sk.key_bytes, vec![3]);

    let sealed = DecryptRequest { ciphertext: vec![1], nonce: vec![2], master_key_version: 5 }.into_sealed();
    assert_eq!((sealed.ciphertext, sealed.nonce, sealed.master_key_version), (vec![1], vec![2], 5));
    let enc = EncryptResponse::from_sealed(EncryptedPrivateKey { ciphertext: vec![7], nonce: vec![8], master_key_version: 6 });
    assert_eq!((enc.ciphertext, enc.nonce, enc.master_key_version), (vec![7], vec![8], 6));

    let rw = RewrapKeysRequest { target_version: 4, batch_size: 50 }.to_input();
    assert_eq!((rw.target_master_version, rw.batch_size), (4, 50));
}

#[test]
fn failed_unlock_is_a_runtime_error() {
    match unlock_failure("Need at least 3 shares, got 1") {
        AppError::RuntimeError(m) => assert_eq!(m, "Failed to recover storage key: Need at least 3 shares, got 1"),
        _ => panic!("expected a runtime error"),
    }
}

#[test]
fn errors_have_codes_statuses_and_messages() {
    let cases: Vec<(AppError, &str, u16, &str, Option<&str>)> = vec![
        (AppError::Unauthorized, "AUTH_FAILED", 401, "Autoryzacja nie powiodła się", None),
        (AppError::NotFound("k".into()), "RESOURCE_NOT_FOUND", 404, "Nie znaleziono zasobu: k", Some("k")),
        (AppError::ValidationError("v".into()), "VALIDATION_ERROR", 400, "Błędne dane wejściowe: v", Some("v")),
        (AppError::CryptoError("c".into()), "CRYPTO_FAILURE", 422, "Błąd kryptograficzny: c", Some("c")),
        (AppError::DatabaseError("d".into()), "DATABASE_ERROR", 500, "Błąd bazy danych", None),
        (AppError::RedisError("r".into()), "CACHE_ERROR", 500, "Błąd usługi Redis", None),
        (AppError::TimeoutError, "TIMEOUT_ERROR", 408, "Błąd timeout", None),
        (AppError::ConfigError("x".into()), "CONFIG_INVALID", 500, "Błąd konfiguracji: x", Some("x")),
        (AppError::SerializationError("s".into()), "SERIALIZATION_FAILED", 400, "Błąd serializacji/deserializacji: s", None),
        (AppError::RuntimeError("u".into()), "RUNTIME_ERROR", 500, "Błąd środowiska wykonawczego: u", Some("u")),
        (AppError::ExternalServiceError("e".into()), "EXTERNAL_SERVICE_UNAVAILABLE", 502, "Błąd zewnętrznej usługi (HTTP): e", Some("e")),
        (AppError::Internal("i".into()), "INTERNAL_SERVER_ERROR", 500, "Wystąpił nieoczekiwany błąd serwera: i", Some("i")),
        (AppError::Conflict("f".into()), "CONFLICT", 409, "Konflikt zasobu: f", None),
    ];
    for (err, code, status, message, details) in cases {
        let resp = err.to_response();
        assert_eq!(resp.code, code);
        assert_eq!(resp.status, status);
        assert_eq!(resp.message, message);
        assert_eq!(resp.details.as_deref(), details);
        assert_eq!(err.duplicate().message(), message);
    }
}

#[test]
fn route_and_enum_names() {
    assert_eq!(ApiRoute::SignData.as_str(), "keys.sign");
    assert_eq!(ApiRoute::KmsRewrap.as_str(), "admin.kms.rewrap");
    assert_eq!(ApiRoute::HealthCheck.as_str(), "system.health");
    assert_eq!(KeyAlgorithm::HmacSha256.name(), "HmacSha256");
    assert_eq!(KeyPurpose::Authentication.name(), "Authentication");
    assert_eq!(KeyStatus::Deprecated { valid_until: 3 }.name(), "Deprecated");
    assert_eq!(RotationReason::Scheduled.name(), "Scheduled");
    assert_eq!(KeyAlgorithm::AES256GCM.default_purpose(), KeyPurpose::Encryption);
    assert!(KeyStatus::Deprecated { valid_until: 10 }.usable_at(9));
    assert!(!KeyStatus::Deprecated { valid_until: 10 }.usable_at(10));
    assert!(!KeyStatus::Revoked.usable_at(0));
}
