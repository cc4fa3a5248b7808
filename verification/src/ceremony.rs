//! Unlocking the key store after a key ceremony: share records are checked
//! against the ceremony manifest, the master key is recovered from a
//! threshold of Shamir shares, and the storage key it sealed is opened.
use crate::errors::{AppError, AppResult};
use crate::primitives::{
    aes256gcm_open, hex_decode, sha256, spec_aes256gcm_open, spec_hex_decode,
    spec_hex_error_text, spec_sha256, spec_ssss_unlock, share_texts, ssss_unlock, wipe, wipe_array,
};
use crate::text::{
    concat2, concat3, concat4, lower_hex, owned, spec_decimal, spec_lower_hex, u64_to_decimal,
};
use vstd::prelude::*;
use vstd::utf8::encode_utf8;

verus! {

/// The manifest written by a key ceremony: how many shares exist and are
/// needed, where the share files are, and the storage key sealed under the
/// master key (nonce and ciphertext, both hex). `id` is the ceremony's UUID
/// as a number; `created_at` is in milliseconds since the Unix epoch.
pub struct CeremonyManifest {
    pub id: u128,
    pub version: u32,
    pub created_at: i64,
    pub threshold: u8,
    pub total_shares: u8,
    pub share_files: Vec<String>,
    pub encrypted_storage_key_nonce: String,
    pub encrypted_storage_key_ciphertext: String,
}

/// One custodian's share file: the share (hex), its SHA-256 and the ceremony
/// parameters it was made with.
pub struct ShareFileRecord {
    pub index: u8,
    pub threshold: u8,
    pub total_shares: u8,
    pub share_hex: String,
    pub share_sha256: String,
    pub created_at: i64,
}

/// The 32-byte key that protects the stored keys while the service is unlocked.
#[derive(Clone)]
pub struct SecureStorageKey([u8; 32]);

impl SecureStorageKey {
    /// The key with these bytes.
    pub fn from_bytes(bytes: [u8; 32]) -> (r: SecureStorageKey)
        ensures
            r.spec_bytes() == bytes@,
    {
        SecureStorageKey(bytes)
    }

    /// The key's bytes.
    pub fn as_bytes(&self) -> (r: &[u8; 32])
        ensures
            r@ == self.spec_bytes(),
    {
        &self.0
    }

    /// Overwrites the key with zeros, so that no copy of it stays in memory
    /// once it is dropped.
    pub fn erase(&mut self)
        ensures
            final(self).spec_bytes() == Seq::new(32, |i: int| 0u8),
    {
        wipe_array(&mut self.0);
    }

    /// The key's bytes, by value.
    pub closed spec fn spec_bytes(&self) -> Seq<u8> {
        self.0@
    }
}

/// The lowercase hex SHA-256 of the bytes of a share's text.
pub open spec fn spec_share_digest(share_hex: Seq<char>) -> Seq<char> {
    spec_lower_hex(spec_sha256(encode_utf8(share_hex)))
}

/// The SHA-256 of a share's text (its UTF-8 bytes), in lowercase hex.
pub fn compute_share_sha256(share_hex: &str) -> (r: String)
    ensures
        r@ == spec_share_digest(share_hex@),
{
    let digest = sha256(share_hex.as_bytes());
    lower_hex(digest.as_slice())
}

/// Why a share record does not belong to the manifest's ceremony, if it does not.
pub open spec fn spec_share_problem(record: ShareFileRecord, manifest: CeremonyManifest) -> Option<Seq<char>> {
    if record.index == 0 || record.index > manifest.total_shares {
        Some(
            "Share index "@ + spec_decimal(record.index as nat) + " is outside the valid range 1.."@
                + spec_decimal(manifest.total_shares as nat),
        )
    } else if record.threshold != manifest.threshold {
        Some(
            "Share threshold mismatch: record "@ + spec_decimal(record.threshold as nat)
                + " != manifest "@ + spec_decimal(manifest.threshold as nat),
        )
    } else if record.total_shares != manifest.total_shares {
        Some(
            "Total share mismatch: record "@ + spec_decimal(record.total_shares as nat)
                + " != manifest "@ + spec_decimal(manifest.total_shares as nat),
        )
    } else if spec_share_digest(record.share_hex@) != record.share_sha256@ {
        Some("Share SHA-256 mismatch for share index "@ + spec_decimal(record.index as nat))
    } else {
        None
    }
}

/// Accepts a share record that belongs to the manifest's ceremony and whose
/// digest matches its share; otherwise a validation error saying why.
pub fn validate_share_record(record: &ShareFileRecord, manifest: &CeremonyManifest) -> (r: AppResult<()>)
    ensures
        match spec_share_problem(*record, *manifest) {
            None => r is Ok,
            Some(m) => r matches Err(AppError::ValidationError(msg)) && msg@ == m,
        },
{
    if record.index == 0 || record.index > manifest.total_shares {
        let i = u64_to_decimal(record.index as u64);
        let t = u64_to_decimal(manifest.total_shares as u64);
        let msg = concat4("Share index ", i.as_str(), " is outside the valid range 1..", t.as_str());
        return Err(AppError::ValidationError(msg));
    }
    if record.threshold != manifest.threshold {
        let a = u64_to_decimal(record.threshold as u64);
        let b = u64_to_decimal(manifest.threshold as u64);
        let msg = concat4("Share threshold mismatch: record ", a.as_str(), " != manifest ", b.as_str());
        return Err(AppError::ValidationError(msg));
    }
    if record.total_shares != manifest.total_shares {
        let a = u64_to_decimal(record.total_shares as u64);
        let b = u64_to_decimal(manifest.total_shares as u64);
        let msg = concat4("Total share mismatch: record ", a.as_str(), " != manifest ", b.as_str());
        return Err(AppError::ValidationError(msg));
    }
    let computed = compute_share_sha256(record.share_hex.as_str());
    if computed != record.share_sha256 {
        let i = u64_to_decimal(record.index as u64);
        let msg = concat2("Share SHA-256 mismatch for share index ", i.as_str());
        return Err(AppError::ValidationError(msg));
    }
    Ok(())
}

/// Decoding the hex field `field` into exactly `n` bytes: the bytes, or the message.
pub open spec fn spec_decode_hex_exact(value: Seq<char>, field: Seq<char>, n: nat) -> Result<Seq<u8>, Seq<char>> {
    match spec_hex_decode(encode_utf8(value)) {
        None => Err("Invalid hex for "@ + field + ": "@ + spec_hex_error_text(encode_utf8(value))),
        Some(bytes) => if bytes.len() != n {
            Err(
                "Invalid length for "@ + field + ": expected "@ + spec_decimal(n) + " bytes, got "@
                    + spec_decimal(bytes.len()),
            )
        } else {
            Ok(bytes)
        },
    }
}

/// Decodes the hex field `field` and insists on exactly `n` bytes.
pub fn decode_hex_exact(hex_value: &str, field: &str, n: usize) -> (r: AppResult<Vec<u8>>)
    ensures
        match spec_decode_hex_exact(hex_value@, field@, n as nat) {
            Ok(bytes) => r matches Ok(v) && v@ == bytes,
            Err(m) => r matches Err(AppError::CryptoError(msg)) && msg@ == m,
        },
{
    let bytes = match hex_decode(hex_value) {
        Err(e) => {
            let msg = concat4("Invalid hex for ", field, ": ", e.as_str());
            return Err(AppError::CryptoError(msg));
        },
        Ok(b) => b,
    };
    if bytes.len() != n {
        let expected = u64_to_decimal(n as u64);
        let got = u64_to_decimal(bytes.len() as u64);
        let head = concat4("Invalid length for ", field, ": expected ", expected.as_str());
        let msg = concat3(head.as_str(), " bytes, got ", got.as_str());
        return Err(AppError::CryptoError(msg));
    }
    Ok(bytes)
}

/// How recovering the storage key ends.
pub enum RecoveryOutcome {
    /// The recovered storage key.
    Key(Seq<u8>),
    /// Not enough shares (a validation error).
    Invalid(Seq<char>),
    /// A cryptographic failure.
    Crypto(Seq<char>),
    /// The shares could not be joined: a cryptographic failure whose message
    /// starts with `spec_shares_rejected_prefix` (the rest is the crate's text).
    SharesRejected,
}

/// How the message of shares that cannot be joined begins.
pub open spec fn spec_shares_rejected_prefix() -> Seq<char> {
    "Failed to reconstruct master key from shares: "@
}

/// Recovering the storage key from the manifest's sealed key and `shares`:
/// the first `threshold` shares give the master key, which must be 32 bytes;
/// it opens the sealed storage key, which must be 32 bytes too.
pub open spec fn spec_recover(
    threshold: u8,
    nonce_hex: Seq<char>,
    ciphertext_hex: Seq<char>,
    shares: Seq<Seq<char>>,
) -> RecoveryOutcome {
    if shares.len() < threshold {
        RecoveryOutcome::Invalid(
            "Need at least "@ + spec_decimal(threshold as nat) + " shares, got "@ + spec_decimal(
                shares.len(),
            ),
        )
    } else {
        match spec_ssss_unlock(shares.subrange(0, threshold as int)) {
            None => RecoveryOutcome::SharesRejected,
            Some(master) => if master.len() != 32 {
                RecoveryOutcome::Crypto(
                    "Recovered master key has invalid length: expected 32 bytes, got "@
                        + spec_decimal(master.len()),
                )
            } else {
                match spec_decode_hex_exact(nonce_hex, "encrypted_storage_key_nonce"@, 12) {
                    Err(m) => RecoveryOutcome::Crypto(m),
                    Ok(nonce) => match spec_hex_decode(encode_utf8(ciphertext_hex)) {
                        None => RecoveryOutcome::Crypto(
                            "Invalid ciphertext hex: "@ + spec_hex_error_text(
                                encode_utf8(ciphertext_hex),
                            ),
                        ),
                        Some(ct) => match spec_aes256gcm_open(master, nonce, ct) {
                            None => RecoveryOutcome::Crypto(
                                "Failed to decrypt storage key with recovered master key"@,
                            ),
                            Some(raw) => if raw.len() != 32 {
                                RecoveryOutcome::Crypto("Recovered storage key is not 32 bytes long"@)
                            } else {
                                RecoveryOutcome::Key(raw)
                            },
                        },
                    },
                }
            },
        }
    }
}

/// Copies 32 bytes into an array.
fn to_key_array(bytes: &Vec<u8>) -> (r: [u8; 32])
    requires
        bytes@.len() == 32,
    ensures
        r@ == bytes@,
{
    let mut out = [0u8; 32];
    let mut i: usize = 0;
    while i < 32
        invariant
            bytes@.len() == 32,
            i <= 32,
            out@.len() == 32,
            forall|j: int| 0 <= j < i ==> out@[j] == bytes@[j],
        decreases 32 - i,
    {
        out[i] = bytes[i];
        i = i + 1;
    }
    out
}

/// Recovers the storage key from the manifest and `shares` (the first
/// `threshold` of them are used). The master key and the raw storage key are
/// wiped on the failure paths after recovery.
pub fn recover_storage_key_from_shares(manifest: &CeremonyManifest, shares: &Vec<String>) -> (r: AppResult<
    SecureStorageKey,
>)
    ensures
        match spec_recover(
            manifest.threshold,
            manifest.encrypted_storage_key_nonce@,
            manifest.encrypted_storage_key_ciphertext@,
            share_texts(shares@),
        ) {
            RecoveryOutcome::Key(k) => r matches Ok(key) && key.spec_bytes() == k,
            RecoveryOutcome::Invalid(m) => r matches Err(AppError::ValidationError(msg)) && msg@ == m,
            RecoveryOutcome::Crypto(m) => r matches Err(AppError::CryptoError(msg)) && msg@ == m,
            RecoveryOutcome::SharesRejected => r matches Err(AppError::CryptoError(msg))
                && spec_shares_rejected_prefix().is_prefix_of(msg@),
        },
{
    let threshold = manifest.threshold as usize;
    if shares.len() < threshold {
        let t = u64_to_decimal(manifest.threshold as u64);
        let n = u64_to_decimal(shares.len() as u64);
        let msg = concat4("Need at least ", t.as_str(), " shares, got ", n.as_str());
        return Err(AppError::ValidationError(msg));
    }
    let mut selected: Vec<String> = Vec::new();
    let mut i: usize = 0;
    while i < threshold
        invariant
            threshold <= shares@.len(),
            i <= threshold,
            share_texts(selected@) == share_texts(shares@).subrange(0, i as int),
        decreases threshold - i,
    {
        let ghost before = selected@;
        selected.push(shares[i].clone());
        assert(share_texts(selected@) =~= share_texts(shares@).subrange(0, i + 1)) by {
            assert(share_texts(selected@) =~= share_texts(before).push(shares@[i as int]@));
        }
        i = i + 1;
    }
    let mut master = match ssss_unlock(selected.as_slice()) {
        Err(e) => {
            let msg = concat2("Failed to reconstruct master key from shares: ", e.as_str());
            assert(spec_shares_rejected_prefix().is_prefix_of(msg@)) by {
                assert(msg@.subrange(0, spec_shares_rejected_prefix().len() as int)
                    =~= spec_shares_rejected_prefix());
            }
            return Err(AppError::CryptoError(msg));
        },
        Ok(m) => m,
    };
    if master.len() != 32 {
        let got = u64_to_decimal(master.len() as u64);
        let msg = concat2(
            "Recovered master key has invalid length: expected 32 bytes, got ",
            got.as_str(),
        );
        return Err(AppError::CryptoError(msg));
    }
    let nonce = match decode_hex_exact(
        manifest.encrypted_storage_key_nonce.as_str(),
        "encrypted_storage_key_nonce",
        12,
    ) {
        Err(e) => {
            wipe(&mut master);
            return Err(e);
        },
        Ok(n) => n,
    };
    let ciphertext = match hex_decode(manifest.encrypted_storage_key_ciphertext.as_str()) {
        Err(e) => {
            wipe(&mut master);
            return Err(AppError::CryptoError(concat2("Invalid ciphertext hex: ", e.as_str())));
        },
        Ok(c) => c,
    };
    let mut raw = match aes256gcm_open(master.as_slice(), nonce.as_slice(), ciphertext.as_slice()) {
        None => {
            wipe(&mut master);
            return Err(
                AppError::CryptoError(owned("Failed to decrypt storage key with recovered master key")),
            );
        },
        Some(p) => p,
    };
    if raw.len() != 32 {
        wipe(&mut raw);
        wipe(&mut master);
        return Err(AppError::CryptoError(owned("Recovered storage key is not 32 bytes long")));
    }
    let bytes = to_key_array(&raw);
    wipe(&mut raw);
    wipe(&mut master);
    Ok(SecureStorageKey::from_bytes(bytes))
}

/// What reading one share file named by the manifest gave.
pub enum ShareFileRead {
    /// The file does not exist at `path`.
    Missing { path: String },
    /// The file could not be read or parsed; the error says why.
    Failed(AppError),
    /// The record the file holds.
    Read(ShareFileRecord),
}

/// Whether a read share file is usable: it was read and belongs to the ceremony.
pub open spec fn spec_share_usable(read: ShareFileRead, manifest: CeremonyManifest) -> bool {
    match read {
        ShareFileRead::Read(record) => spec_share_problem(record, manifest) is None,
        _ => false,
    }
}

/// The index of the first share file, from `start` on, that is not usable.
pub open spec fn spec_first_unusable_from(
    reads: Seq<ShareFileRead>,
    manifest: CeremonyManifest,
    start: int,
) -> Option<int>
    decreases reads.len() - start,
{
    if start < 0 || start >= reads.len() {
        None
    } else if !spec_share_usable(reads[start], manifest) {
        Some(start)
    } else {
        spec_first_unusable_from(reads, manifest, start + 1)
    }
}

/// The index of the first share file that is not usable, if any.
pub open spec fn spec_first_unusable(reads: Seq<ShareFileRead>, manifest: CeremonyManifest) -> Option<int> {
    spec_first_unusable_from(reads, manifest, 0)
}

/// The share texts of read share files, in order.
pub open spec fn spec_read_share_texts(reads: Seq<ShareFileRead>) -> Seq<Seq<char>> {
    reads.map_values(|read: ShareFileRead| match read {
        ShareFileRead::Read(record) => record.share_hex@,
        _ => Seq::<char>::empty(),
    })
}

proof fn lemma_first_unusable_from_skip(
    reads: Seq<ShareFileRead>,
    manifest: CeremonyManifest,
    start: int,
    i: int,
)
    requires
        0 <= start <= i <= reads.len(),
        forall|j: int| start <= j < i ==> spec_share_usable(#[trigger] reads[j], manifest),
    ensures
        spec_first_unusable_from(reads, manifest, start) == spec_first_unusable_from(reads, manifest, i),
    decreases i - start,
{
    if start < i {
        lemma_first_unusable_from_skip(reads, manifest, start + 1, i);
    }
}

/// Recovers the storage key from the manifest and what reading its share
/// files gave, in the manifest's order: the first file that is missing,
/// unreadable or not of this ceremony ends it with the matching error;
/// otherwise the shares they hold recover the key as in
/// [`recover_storage_key_from_shares`].
pub fn recover_storage_key_from_ceremony(manifest: &CeremonyManifest, reads: &Vec<ShareFileRead>) -> (r: AppResult<
    SecureStorageKey,
>)
    ensures
        match spec_first_unusable(reads@, *manifest) {
            Some(i) => match reads@[i] {
                ShareFileRead::Missing { path } => r matches Err(AppError::NotFound(m)) && m@
                    == "Share file "@ + path@ + " referenced by manifest is missing"@,
                ShareFileRead::Failed(e) => r matches Err(err) && err == e,
                ShareFileRead::Read(record) => r matches Err(AppError::ValidationError(m))
                    && spec_share_problem(record, *manifest) == Some(m@),
            },
            None => match spec_recover(
                manifest.threshold,
                manifest.encrypted_storage_key_nonce@,
                manifest.encrypted_storage_key_ciphertext@,
                spec_read_share_texts(reads@),
            ) {
                RecoveryOutcome::Key(k) => r matches Ok(key) && key.spec_bytes() == k,
                RecoveryOutcome::Invalid(m) => r matches Err(AppError::ValidationError(msg)) && msg@
                    == m,
                RecoveryOutcome::Crypto(m) => r matches Err(AppError::CryptoError(msg)) && msg@ == m,
                RecoveryOutcome::SharesRejected => r matches Err(AppError::CryptoError(msg))
                    && spec_shares_rejected_prefix().is_prefix_of(msg@),
            },
        },
{
    let mut selected: Vec<String> = Vec::new();
    let mut i: usize = 0;
    while i < reads.len()
        invariant
            i <= reads@.len(),
            forall|j: int| 0 <= j < i ==> spec_share_usable(#[trigger] reads@[j], *manifest),
            share_texts(selected@) == spec_read_share_texts(reads@).subrange(0, i as int),
        decreases reads.len() - i,
    {
        proof {
            lemma_first_unusable_from_skip(reads@, *manifest, 0, i as int);
        }
        match &reads[i] {
            ShareFileRead::Missing { path } => {
                let msg = concat3("Share file ", path.as_str(), " referenced by manifest is missing");
                return Err(AppError::NotFound(msg));
            },
            ShareFileRead::Failed(e) => {
                return Err(e.duplicate());
            },
            ShareFileRead::Read(record) => {
                match validate_share_record(record, manifest) {
                    Err(e) => {
                        return Err(e);
                    },
                    Ok(()) => {},
                }
                let ghost before = selected@;
                selected.push(record.share_hex.clone());
                assert(share_texts(selected@) =~= spec_read_share_texts(reads@).subrange(
                    0,
                    i + 1,
                )) by {
                    assert(share_texts(selected@) =~= share_texts(before).push(record.share_hex@));
                }
            },
        }
        i = i + 1;
    }
    proof {
        lemma_first_unusable_from_skip(reads@, *manifest, 0, i as int);
        assert(spec_read_share_texts(reads@).subrange(0, i as int) =~= spec_read_share_texts(reads@));
    }
    recover_storage_key_from_shares(manifest, &selected)
}

/// Law: a share record made for the manifest's ceremony, with the digest
/// computed by [`compute_share_sha256`], is accepted.
pub proof fn law_computed_digest_accepted(record: ShareFileRecord, manifest: CeremonyManifest)
    requires
        1 <= record.index <= manifest.total_shares,
        record.threshold == manifest.threshold,
        record.total_shares == manifest.total_shares,
        record.share_sha256@ == spec_share_digest(record.share_hex@),
    ensures
        spec_share_problem(record, manifest) is None,
{
}

} // verus!
