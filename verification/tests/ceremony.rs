use aes_gcm::aead::{Aead, KeyInit};
use aes_gcm::{Aes256Gcm, Nonce};
use kms_service::ceremony::{
    compute_share_sha256, decode_hex_exact, recover_storage_key_from_ceremony, recover_storage_key_from_shares,
    validate_share_record, CeremonyManifest, SecureStorageKey, ShareFileRead, ShareFileRecord,
};
use kms_service::errors::AppError;

const MASTER_KEY: [u8; 32] = [42u8; 32];
const STORAGE_KEY: [u8; 32] = [7u8; 32];
const NONCE: [u8; 12] = [1u8; 12];

fn make_shares() -> Vec<String> {
    ssss::gen_shares(
        &ssss::SsssConfig::builder().num_shares(5).threshold(3).build(),
        &MASTER_KEY,
    )
    .unwrap()
}

fn make_manifest() -> CeremonyManifest {
    let cipher = Aes256Gcm::new_from_slice(&MASTER_KEY).unwrap();
    let ciphertext = cipher.encrypt(Nonce::from_slice(&NONCE), &STORAGE_KEY[..]).unwrap();
    CeremonyManifest {
        id: 1,
        version: 1,
        created_at: 0,
        threshold: 3,
        total_shares: 5,
        share_files: vec![
            "share_1.json".to_string(),
            "share_2.json".to_string(),
            "share_3.json".to_string(),
        ],
        encrypted_storage_key_nonce: hex::encode(NONCE),
        encrypted_storage_key_ciphertext: hex::encode(ciphertext),
    }
}

fn record(index: u8, share_hex: &str) -> ShareFileRecord {
    ShareFileRecord {
        index,
        threshold: 3,
        total_shares: 5,
        share_hex: share_hex.to_string(),
        share_sha256: compute_share_sha256(share_hex),
        created_at: 0,
    }
}

#[test]
fn ceremony_bootstrap_reconstructs_storage_key_from_manifest_and_shares() {
    let shares = make_shares();
    let reads: Vec<ShareFileRead> = shares
        .iter()
        .take(3)
        .enumerate()
        .map(|(idx, share_hex)| ShareFileRead::Read(record(idx as u8 + 1, share_hex)))
        .collect();
    let manifest = make_manifest();
    let restored = recover_storage_key_from_ceremony(&manifest, &reads).unwrap();
    assert_eq!(restored.as_bytes(), &STORAGE_KEY);
}

#[test]
fn shares_given_directly_recover_the_storage_key() {
    let shares = make_shares();
    let manifest = make_manifest();
    let chosen = vec![shares[4].clone(), shares[1].clone(), shares[2].clone(), shares[0].clone()];
    let restored = recover_storage_key_from_shares(&manifest, &chosen).unwrap();
    assert_eq!(restored.as_bytes(), &STORAGE_KEY);
}

#[test]
fn too_few_shares_is_a_validation_error() {
    let shares = make_shares();
    let manifest = make_manifest();
    match recover_storage_key_from_shares(&manifest, &shares[..2].to_vec()) {
        Err(AppError::ValidationError(m)) => assert_eq!(m, "Need at least 3 shares, got 2"),
        _ => panic!("expected a validation error"),
    }
}

#[test]
fn wrong_storage_ciphertext_is_a_crypto_error() {
    let shares = make_shares();
    let mut manifest = make_manifest();
    manifest.encrypted_storage_key_ciphertext = hex::encode([0u8; 48]);
    match recover_storage_key_from_shares(&manifest, &shares) {
        Err(AppError::CryptoError(m)) => {
            assert_eq!(m, "Failed to decrypt storage key with recovered master key")
        }
        _ => panic!("expected a crypto error"),
    }
}

#[test]
fn short_nonce_is_refused_with_its_length() {
    let shares = make_shares();
    let mut manifest = make_manifest();
    manifest.encrypted_storage_key_nonce = "0102".to_string();
    match recover_storage_key_from_shares(&manifest, &shares) {
        Err(AppError::CryptoError(m)) => assert_eq!(
            m,
            "Invalid length for encrypted_storage_key_nonce: expected 12 bytes, got 2"
        ),
        _ => panic!("expected a crypto error"),
    }
}

#[test]
fn decode_hex_exact_reports_bad_hex() {
    match decode_hex_exact("zz", "field", 1) {
        Err(AppError::CryptoError(m)) => assert!(m.starts_with("Invalid hex for field: ")),
        _ => panic!("expected a crypto error"),
    }
    assert_eq!(decode_hex_exact("0aFF", "field", 2).unwrap(), vec![10u8, 255u8]);
}

#[test]
fn share_digest_is_lowercase_sha256_hex() {
    assert_eq!(
        compute_share_sha256("abc"),
        "ba7816bf8f01cfea414140de5dae2223b00361a396177a9cb410ff61f20015ad"
    );
}

#[test]
fn share_records_are_checked_against_the_manifest() {
    let manifest = make_manifest();
    assert!(validate_share_record(&record(1, "00ff"), &manifest).is_ok());

    match validate_share_record(&record(0, "00ff"), &manifest) {
        Err(AppError::ValidationError(m)) => {
            assert_eq!(m, "Share index 0 is outside the valid range 1..5")
        }
        _ => panic!("expected a validation error"),
    }
    let mut wrong_threshold = record(2, "00ff");
    wrong_threshold.threshold = 2;
    match validate_share_record(&wrong_threshold, &manifest) {
        Err(AppError::ValidationError(m)) => {
            assert_eq!(m, "Share threshold mismatch: record 2 != manifest 3")
        }
        _ => panic!("expected a validation error"),
    }
    let mut wrong_total = record(2, "00ff");
    wrong_total.total_shares = 7;
    match validate_share_record(&wrong_total, &manifest) {
        Err(AppError::ValidationError(m)) => {
            assert_eq!(m, "Total share mismatch: record 7 != manifest 5")
        }
        _ => panic!("expected a validation error"),
    }
    let mut tampered = record(4, "00ff");
    tampered.share_sha256 = compute_share_sha256("00fe");
    match validate_share_record(&tampered, &manifest) {
        Err(AppError::ValidationError(m)) => {
            assert_eq!(m, "Share SHA-256 mismatch for share index 4")
        }
        _ => panic!("expected a validation error"),
    }
}

#[test]
fn first_bad_share_file_decides_the_error() {
    let shares = make_shares();
    let manifest = make_manifest();
    let reads = vec![
        ShareFileRead::Read(record(1, &shares[0])),
        ShareFileRead::Missing { path: "shares/share_2.json".to_string() },
        ShareFileRead::Failed(AppError::SerializationError("bad json".to_string())),
    ];
    match recover_storage_key_from_ceremony(&manifest, &reads) {
        Err(AppError::NotFound(m)) => {
            assert_eq!(m, "Share file shares/share_2.json referenced by manifest is missing")
        }
        _ => panic!("expected a missing share file"),
    }
    let reads = vec![
        ShareFileRead::Failed(AppError::SerializationError("bad json".to_string())),
        ShareFileRead::Read(record(0, &shares[1])),
    ];
    match recover_storage_key_from_ceremony(&manifest, &reads) {
        Err(AppError::SerializationError(m)) => assert_eq!(m, "bad json"),
        _ => panic!("expected the read error"),
    }
}

#[test]
fn storage_key_keeps_its_bytes_until_erased() {
    let mut key = SecureStorageKey::from_bytes([9u8; 32]);
    assert_eq!(key.as_bytes(), &[9u8; 32]);
    let copy = key.clone();
    key.erase();
    assert_eq!(key.as_bytes(), &[0u8; 32]);
    assert_eq!(copy.as_bytes(), &[9u8; 32]);
}

#[test]
fn shares_that_cannot_be_joined_are_a_crypto_error() {
    let manifest = make_manifest();
    let junk = vec!["not-a-share".to_string(), "x:y:z".to_string(), "".to_string()];
    match recover_storage_key_from_shares(&manifest, &junk) {
        Err(AppError::CryptoError(m)) => assert!(m.starts_with("Failed to reconstruct master key from shares: ")),
        _ => panic!("expected a crypto error"),
    }
}
