use aes_gcm::aead::{Aead, KeyInit};
use argon2::{Algorithm, Argon2, Params, Version};
use base64::Engine;
use kms_service::config::{CryptoSettings, GracePeriodMinutes, KeyTtlDays, MasterKeyB64};
use kms_service::errors::AppError;
use kms_service::kms::KmsCryptoService;
use kms_service::vault::{
    AesCryptoService, DecryptDataUseCase, EncryptDataUseCase, EncryptedCV, EncryptedPayload,
    EncryptedSecret, UnlockCvUseCase, UnlockSecretUseCase, VaultCryptoSettings,
};
use std::sync::Arc;

fn service(p: u32) -> AesCryptoService {
    AesCryptoService::new(VaultCryptoSettings {
        secret_key: "pepper".to_string(),
        argon2_m_cost: 64,
        argon2_t_cost: 1,
        argon2_p_cost: p,
    })
}

fn kms() -> KmsCryptoService {
    let key = base64::engine::general_purpose::STANDARD.encode([6u8; 32]);
    KmsCryptoService::new(&CryptoSettings {
        master_keys: vec![(1, MasterKeyB64::parse(key).unwrap())],
        current_master_key_version: 1,
        default_key_ttl_days: KeyTtlDays(30),
        grace_period_minutes: GracePeriodMinutes(10),
    })
    .unwrap()
}

#[test]
fn payloads_decrypt_with_the_same_password() {
    let svc = service(1);
    let payload = svc.encrypt(b"curriculum vitae", "hunter2").unwrap();
    assert_eq!(payload.salt.len(), 16);
    assert_eq!(payload.nonce.len(), 12);
    assert_eq!(svc.decrypt(&payload, "hunter2").unwrap(), b"curriculum vitae".to_vec());
    match svc.decrypt(&payload, "wrong") {
        Err(AppError::CryptoError(m)) => assert_eq!(m, "Decryption failed: check password or data integrity"),
        _ => panic!("expected a crypto error"),
    }
}

#[test]
fn key_is_argon2id_over_password_and_pepper() {
    let svc = service(1);
    let salt = vec![3u8; 16];
    let nonce = vec![4u8; 12];
    let payload = svc.encrypt_with(b"data", "pw", salt.clone(), nonce.clone()).unwrap();
    let mut key = [0u8; 32];
    Argon2::new(Algorithm::Argon2id, Version::V0x13, Params::new(64, 1, 1, Some(32)).unwrap())
        .hash_password_into(b"pwpepper", &salt, &mut key)
        .unwrap();
    let expected = aes_gcm::Aes256Gcm::new_from_slice(&key)
        .unwrap()
        .encrypt(aes_gcm::Nonce::from_slice(&nonce), &b"data"[..])
        .unwrap();
    assert_eq!(payload.ciphertext, expected);
}

#[test]
fn malformed_payloads_and_settings_are_refused() {
    let svc = service(1);
    let short_salt = EncryptedPayload { ciphertext: vec![0; 20], salt: vec![0; 8], nonce: vec![0; 12] };
    match svc.decrypt(&short_salt, "pw") {
        Err(AppError::CryptoError(m)) => assert_eq!(m, "Invalid salt length: expected 16 bytes, got 8"),
        _ => panic!("expected a crypto error"),
    }
    let short_nonce = EncryptedPayload { ciphertext: vec![0; 20], salt: vec![0; 16], nonce: vec![0; 3] };
    match svc.decrypt(&short_nonce, "pw") {
        Err(AppError::CryptoError(m)) => assert_eq!(m, "Invalid nonce length: expected 12 bytes, got 3"),
        _ => panic!("expected a crypto error"),
    }
    match service(0x0100_0000).encrypt(b"x", "pw") {
        Err(AppError::CryptoError(m)) => assert!(m.starts_with("Argon2 params invalid: ")),
        _ => panic!("expected a crypto error"),
    }
    match service(0).encrypt(b"x", "pw") {
        Err(AppError::CryptoError(m)) => assert!(m.starts_with("Argon2 params invalid: ")),
        _ => panic!("expected a crypto error"),
    }
}

#[test]
fn cvs_unlock_with_their_access_key() {
    let svc = Arc::new(service(1));
    let payload = svc.encrypt(br#"{"name":"A","experience":[],"contact":"a@b"}"#, "key").unwrap();
    let uc = UnlockCvUseCase::new(svc.clone());
    let cv = EncryptedCV { id: "cv1".to_string(), data: payload.ciphertext, salt: payload.salt, nonce: payload.nonce };
    let bytes = uc.unlock("cv1", Some(cv), "key").unwrap();
    assert!(bytes.starts_with(b"{\"name\""));
    match uc.unlock("cv9", None, "key") {
        Err(AppError::NotFound(m)) => assert_eq!(m, "CV cv9 not found"),
        _ => panic!("expected not found"),
    }
}

#[test]
fn sealed_data_and_secrets_open_with_the_master_key() {
    let kms = Arc::new(kms());
    let sealed = EncryptDataUseCase::new(kms.clone()).execute(b"payload").unwrap();
    assert_eq!(DecryptDataUseCase::new(kms.clone()).execute(&sealed).unwrap(), b"payload".to_vec());
    let uc = UnlockSecretUseCase::new(kms.clone());
    let secret = EncryptedSecret {
        id: "s1".to_string(),
        data: sealed.ciphertext.clone(),
        nonce: sealed.nonce.clone(),
        master_key_version: 1,
    };
    assert_eq!(uc.unlock("s1", Some(secret)).unwrap(), b"payload".to_vec());
    match uc.unlock("s2", None) {
        Err(AppError::NotFound(m)) => assert_eq!(m, "Secret s2 not found"),
        _ => panic!("expected not found"),
    }
}
