//! Envelope encryption of stored private keys under versioned master keys,
//! and generation of fresh key material.
use crate::config::CryptoSettings;
use crate::errors::{AppError, AppResult};
use crate::keys::{EncryptedPrivateKey, KeyAlgorithm, RawKeyPair, SealedKeyView};
use crate::primitives::{
    aes256gcm_open, aes256gcm_seal, base64_decode, ed25519_generate_secret,
    ed25519_public_key_pem, os_random_bytes, pem_encode, spec_aes256gcm_open,
    spec_aes256gcm_seal, spec_base64_decode, spec_ed25519_public_pem, spec_pem_encode,
    spec_x25519_public, x25519_generate_secret, x25519_public_key, AES_GCM_MAX_PLAINTEXT,
};
use crate::text::{
    concat2, concat3, concat4, i64_to_decimal, owned, spec_decimal, spec_signed_decimal,
    u64_to_decimal,
};
use vstd::prelude::*;
use vstd::utf8::encode_utf8;

verus! {

/// Length of the AES-GCM nonce of a sealed key, in bytes.
pub const NONCE_LEN: usize = 12;

/// The key of master-key version `v` in `keys`: the last entry with that
/// version, as a map filled in order would hold it.
pub open spec fn spec_lookup_key(keys: Seq<(i32, Seq<u8>)>, v: i32) -> Option<Seq<u8>>
    decreases keys.len(),
{
    if keys.len() == 0 {
        None
    } else if keys.last().0 == v {
        Some(keys.last().1)
    } else {
        spec_lookup_key(keys.drop_last(), v)
    }
}

/// Whether no two master keys share a version, as in a configuration map
/// keyed by version.
pub open spec fn spec_versions_distinct(keys: Seq<(i32, Seq<u8>)>) -> bool {
    forall|i: int, j: int|
        0 <= i < keys.len() && 0 <= j < keys.len() && i != j ==> (#[trigger] keys[i]).0 != (#[trigger] keys[j]).0
}

/// Law: when versions are distinct, the key found for a version is the one
/// configured under it, wherever it stands in the list.
pub proof fn law_lookup_by_version(keys: Seq<(i32, Seq<u8>)>, i: int)
    requires
        spec_versions_distinct(keys),
        0 <= i < keys.len(),
    ensures
        spec_lookup_key(keys, keys[i].0) == Some(keys[i].1),
    decreases keys.len(),
{
    if i < keys.len() - 1 {
        let rest = keys.drop_last();
        assert(keys.last() == keys[keys.len() - 1]);
        assert(keys.last().0 != keys[i].0);
        assert forall|a: int, b: int|
            0 <= a < rest.len() && 0 <= b < rest.len() && a != b implies (#[trigger] rest[a]).0 != (
            #[trigger] rest[b]).0 by {
            assert(rest[a] == keys[a] && rest[b] == keys[b]);
        }
        law_lookup_by_version(rest, i);
        assert(rest[i] == keys[i]);
    } else {
        assert(keys.last() == keys[i]);
    }
}

/// How opening a sealed key ends.
pub enum OpenOutcome {
    Plain(Seq<u8>),
    BadNonceLength(nat),
    UnknownVersion(i32),
    Rejected,
}

/// Opening the sealed key `e` with the master keys `keys`.
pub open spec fn spec_open_envelope(keys: Seq<(i32, Seq<u8>)>, e: SealedKeyView) -> OpenOutcome {
    if e.nonce.len() != NONCE_LEN {
        OpenOutcome::BadNonceLength(e.nonce.len())
    } else {
        match spec_lookup_key(keys, e.master_key_version) {
            None => OpenOutcome::UnknownVersion(e.master_key_version),
            Some(k) => match spec_aes256gcm_open(k, e.nonce, e.ciphertext) {
                Some(p) => OpenOutcome::Plain(p),
                None => OpenOutcome::Rejected,
            },
        }
    }
}

/// The message of an unknown master-key version.
pub open spec fn spec_unknown_version_text(v: i32) -> Seq<char> {
    "Master key version "@ + spec_signed_decimal(v as int) + " not found in KMS store"@
}

/// The message of each failed opening.
pub open spec fn spec_open_error_text(o: OpenOutcome) -> Seq<char> {
    match o {
        OpenOutcome::Plain(_) => Seq::empty(),
        OpenOutcome::BadNonceLength(n) => "Invalid nonce length: expected 12 bytes, got "@
            + spec_decimal(n),
        OpenOutcome::UnknownVersion(v) => spec_unknown_version_text(v),
        OpenOutcome::Rejected => "Envelope decryption failed: invalid key version, tampered data or wrong secret"@,
    }
}

/// Decoding the configured master keys in order: the keys, or the message of
/// the first one that is refused.
pub open spec fn spec_load_master_keys(entries: Seq<(i32, Seq<char>)>) -> Result<Seq<(i32, Seq<u8>)>, Seq<char>>
    decreases entries.len(),
{
    if entries.len() == 0 {
        Ok(Seq::empty())
    } else {
        match spec_load_master_keys(entries.drop_last()) {
            Err(m) => Err(m),
            Ok(prev) => {
                let (v, text) = entries.last();
                match spec_base64_decode(encode_utf8(text)) {
                    Err(e) => Err(
                        "Invalid Master Key Base64 for version "@ + spec_signed_decimal(v as int)
                            + ": "@ + e,
                    ),
                    Ok(bytes) => if bytes.len() != 32 {
                        Err(
                            "Master key for version "@ + spec_signed_decimal(v as int)
                                + " must be exactly 32 bytes"@,
                        )
                    } else {
                        Ok(prev.push((v, bytes)))
                    },
                }
            },
        }
    }
}

/// The configured master keys as (version, Base64 text) pairs.
pub open spec fn spec_master_key_texts(settings: CryptoSettings) -> Seq<(i32, Seq<char>)> {
    settings.master_keys@.map_values(|e: (i32, crate::config::MasterKeyB64)| (e.0, e.1.0@))
}

/// The service holding the master keys. Every held key is 32 bytes and the
/// current version is among them.
pub struct KmsCryptoService {
    current_version: i32,
    master_keys: Vec<(i32, Vec<u8>)>,
}

/// The master keys of a key vector, by value.
pub open spec fn spec_keyring_of(keys: Seq<(i32, Vec<u8>)>) -> Seq<(i32, Seq<u8>)> {
    keys.map_values(|e: (i32, Vec<u8>)| (e.0, e.1@))
}

/// Whether every key in `keys` is 32 bytes long.
pub open spec fn spec_all_keys_32(keys: Seq<(i32, Seq<u8>)>) -> bool {
    forall|i: int| 0 <= i < keys.len() ==> (#[trigger] keys[i]).1.len() == 32
}

proof fn lemma_lookup_len(keys: Seq<(i32, Seq<u8>)>, v: i32)
    requires
        spec_all_keys_32(keys),
    ensures
        spec_lookup_key(keys, v) matches Some(k) ==> k.len() == 32,
    decreases keys.len(),
{
    if keys.len() > 0 && keys.last().0 != v {
        lemma_lookup_len(keys.drop_last(), v);
    }
}

impl KmsCryptoService {
    #[verifier::type_invariant]
    spec fn inv(self) -> bool {
        &&& spec_all_keys_32(spec_keyring_of(self.master_keys@))
        &&& spec_lookup_key(spec_keyring_of(self.master_keys@), self.current_version) is Some
    }

    /// The version new keys are sealed under.
    pub closed spec fn spec_current_version(&self) -> i32 {
        self.current_version
    }

    /// The master keys, in configuration order.
    pub closed spec fn spec_keyring(&self) -> Seq<(i32, Seq<u8>)> {
        spec_keyring_of(self.master_keys@)
    }

    /// Opening the sealed key `e` with this service's master keys.
    pub open spec fn spec_open(&self, e: SealedKeyView) -> OpenOutcome {
        spec_open_envelope(self.spec_keyring(), e)
    }

    /// What a successful sealing of `pk` gives: a key sealed under the current
    /// master key, with a 12-byte nonce, that opens to `pk` again.
    pub open spec fn spec_sealed(&self, pk: Seq<u8>, e: SealedKeyView) -> bool {
        &&& e.master_key_version == self.spec_current_version()
        &&& e.nonce.len() == NONCE_LEN
        &&& spec_lookup_key(self.spec_keyring(), self.spec_current_version()) matches Some(k)
            && e.ciphertext == spec_aes256gcm_seal(k, e.nonce, pk)
        &&& self.spec_open(e) == OpenOutcome::Plain(pk)
    }

    /// Loads the configured master keys in order. Refuses a key that is not
    /// Base64 or not 32 bytes, and a current version without a key.
    pub fn new(settings: &CryptoSettings) -> (r: AppResult<KmsCryptoService>)
        ensures
            match spec_load_master_keys(spec_master_key_texts(*settings)) {
                Err(m) => r matches Err(AppError::CryptoError(msg)) && msg@ == m,
                Ok(keys) => match spec_lookup_key(keys, settings.current_master_key_version) {
                    None => r matches Err(AppError::CryptoError(msg)) && msg@
                        == "Current master key version "@ + spec_signed_decimal(
                        settings.current_master_key_version as int,
                    ) + " is missing from configured master keys"@,
                    Some(_) => r matches Ok(s) && s.spec_keyring() == keys
                        && s.spec_current_version() == settings.current_master_key_version,
                },
            },
    {
        let ghost texts = spec_master_key_texts(*settings);
        let n = settings.master_keys.len();
        let mut master_keys: Vec<(i32, Vec<u8>)> = Vec::new();
        let mut i: usize = 0;
        assert(spec_keyring_of(master_keys@) =~= Seq::<(i32, Seq<u8>)>::empty());
        while i < n
            invariant
                n == settings.master_keys@.len(),
                texts == spec_master_key_texts(*settings),
                i <= n,
                spec_load_master_keys(texts.subrange(0, i as int)) == Ok::<
                    Seq<(i32, Seq<u8>)>,
                    Seq<char>,
                >(spec_keyring_of(master_keys@)),
                spec_all_keys_32(spec_keyring_of(master_keys@)),
            decreases n - i,
        {
            let version = settings.master_keys[i].0;
            let text = settings.master_keys[i].1.as_str();
            proof {
                let pre = texts.subrange(0, i + 1);
                assert(pre.drop_last() =~= texts.subrange(0, i as int));
            }
            let decoded = match base64_decode(text) {
                Err(e) => {
                    let v = i64_to_decimal(version as i64);
                    let msg = concat4("Invalid Master Key Base64 for version ", v.as_str(), ": ", e.as_str());
                    proof {
                        lemma_load_prefix_err(texts, i as int);
                    }
                    return Err(AppError::CryptoError(msg));
                },
                Ok(d) => d,
            };
            if decoded.len() != 32 {
                let v = i64_to_decimal(version as i64);
                let msg = concat3("Master key for version ", v.as_str(), " must be exactly 32 bytes");
                proof {
                    lemma_load_prefix_err(texts, i as int);
                }
                return Err(AppError::CryptoError(msg));
            }
            let ghost before = master_keys@;
            master_keys.push((version, decoded));
            proof {
                assert(spec_keyring_of(master_keys@) =~= spec_keyring_of(before).push((version, decoded@)));
            }
            i = i + 1;
        }
        assert(texts.subrange(0, n as int) =~= texts);
        if key_index(&master_keys, settings.current_master_key_version).is_none() {
            let v = i64_to_decimal(settings.current_master_key_version as i64);
            let msg = concat3("Current master key version ", v.as_str(), " is missing from configured master keys");
            return Err(AppError::CryptoError(msg));
        }
        Ok(KmsCryptoService { current_version: settings.current_master_key_version, master_keys })
    }

    /// The version new keys are sealed under.
    pub fn current_master_key_version(&self) -> (r: i32)
        ensures
            r == self.spec_current_version(),
    {
        self.current_version
    }

    /// Seals `private_key` under the current master key with the given nonce.
    /// Succeeds exactly when the key is at most `P_MAX` bytes.
    pub fn encrypt_with_nonce(&self, private_key: &[u8], nonce: Vec<u8>) -> (r: AppResult<EncryptedPrivateKey>)
        requires
            nonce@.len() == NONCE_LEN,
        ensures
            r is Ok <==> private_key@.len() <= AES_GCM_MAX_PLAINTEXT,
            r matches Ok(e) ==> e.nonce@ == nonce@ && self.spec_sealed(private_key@, e@),
            r matches Err(e) ==> e matches AppError::CryptoError(m) && m@
                == "Envelope encryption failed: "@ + "aead::Error"@,
    {
        proof {
            use_type_invariant(self);
            lemma_lookup_len(self.spec_keyring(), self.current_version);
        }
        let idx = match key_index(&self.master_keys, self.current_version) {
            Some(i) => i,
            None => {
                return Err(AppError::CryptoError(owned("unreachable")));
            },
        };
        let key = &self.master_keys[idx].1;
        match aes256gcm_seal(key.as_slice(), nonce.as_slice(), private_key) {
            Err(e) => Err(AppError::CryptoError(concat2("Envelope encryption failed: ", e.as_str()))),
            Ok(ciphertext) => {
                let sealed = EncryptedPrivateKey {
                    ciphertext,
                    nonce,
                    master_key_version: self.current_version,
                };
                Ok(sealed)
            },
        }
    }

    /// Seals `private_key` under the current master key with a fresh random nonce.
    pub fn encrypt_private_key(&self, private_key: &[u8]) -> (r: AppResult<EncryptedPrivateKey>)
        ensures
            r matches Ok(e) ==> self.spec_sealed(private_key@, e@),
            r matches Err(e) ==> e matches AppError::CryptoError(m) && ("RNG error: "@.is_prefix_of(m@)
                || (private_key@.len() > AES_GCM_MAX_PLAINTEXT && m@
                == "Envelope encryption failed: "@ + "aead::Error"@)),
    {
        let nonce = match os_random_bytes(NONCE_LEN) {
            Err(e) => {
                let msg = concat2("RNG error: ", e.as_str());
                return Err(AppError::CryptoError(msg));
            },
            Ok(n) => n,
        };
        self.encrypt_with_nonce(private_key, nonce)
    }

    /// Opens a sealed key with the master key of its version.
    pub fn decrypt_private_key(&self, encrypted: &EncryptedPrivateKey) -> (r: AppResult<Vec<u8>>)
        ensures
            match self.spec_open(encrypted@) {
                OpenOutcome::Plain(p) => r matches Ok(v) && v@ == p,
                o => r matches Err(AppError::CryptoError(m)) && m@ == spec_open_error_text(o),
            },
    {
        proof {
            use_type_invariant(self);
        }
        if encrypted.nonce.len() != NONCE_LEN {
            let got = u64_to_decimal(encrypted.nonce.len() as u64);
            return Err(
                AppError::CryptoError(
                    concat2("Invalid nonce length: expected 12 bytes, got ", got.as_str()),
                ),
            );
        }
        let idx = match key_index(&self.master_keys, encrypted.master_key_version) {
            Some(i) => i,
            None => {
                let v = i64_to_decimal(encrypted.master_key_version as i64);
                return Err(
                    AppError::CryptoError(
                        concat3("Master key version ", v.as_str(), " not found in KMS store"),
                    ),
                );
            },
        };
        proof {
            lemma_lookup_len(self.spec_keyring(), encrypted.master_key_version);
        }
        let key = &self.master_keys[idx].1;
        match aes256gcm_open(key.as_slice(), encrypted.nonce.as_slice(), encrypted.ciphertext.as_slice()) {
            Some(p) => Ok(p),
            None => Err(
                AppError::CryptoError(
                    owned(
                        "Envelope decryption failed: invalid key version, tampered data or wrong secret",
                    ),
                ),
            ),
        }
    }

    /// The key pair of `algorithm` with the 32-byte secret `secret`: the PEM
    /// of the Ed25519 or X25519 public key, or an empty public part for the
    /// symmetric algorithms.
    pub fn material_from_secret(&self, algorithm: KeyAlgorithm, secret: Vec<u8>) -> (r: AppResult<RawKeyPair>)
        requires
            secret@.len() == 32,
        ensures
            match algorithm {
                KeyAlgorithm::Ed25519 => match spec_ed25519_public_pem(secret@) {
                    Ok(pem) => r matches Ok(kp) && kp.private_key_bytes@ == secret@
                        && kp.public_key_pem@ == pem,
                    Err(t) => r matches Err(AppError::CryptoError(m)) && m@
                        == "Failed to encode Ed25519 public key to PEM: "@ + t,
                },
                KeyAlgorithm::X25519 => r matches Ok(kp) && kp.private_key_bytes@ == secret@
                    && kp.public_key_pem@ == spec_pem_encode(
                    "X25519 PUBLIC KEY"@,
                    spec_x25519_public(secret@),
                ),
                _ => r matches Ok(kp) && kp.private_key_bytes@ == secret@ && kp.public_key_pem@.len()
                    == 0,
            },
    {
        match algorithm {
            KeyAlgorithm::Ed25519 => match ed25519_public_key_pem(secret.as_slice()) {
                Err(e) => {
                    let msg = concat2("Failed to encode Ed25519 public key to PEM: ", e.as_str());
                    Err(AppError::CryptoError(msg))
                },
                Ok(pem) => Ok(RawKeyPair { public_key_pem: pem, private_key_bytes: secret }),
            },
            KeyAlgorithm::X25519 => {
                let public = x25519_public_key(secret.as_slice());
                let pem = pem_encode("X25519 PUBLIC KEY", public.as_slice());
                Ok(RawKeyPair { public_key_pem: pem, private_key_bytes: secret })
            },
            _ => Ok(RawKeyPair { public_key_pem: String::new(), private_key_bytes: secret }),
        }
    }

    /// A new Ed25519 key pair: a fresh 32-byte secret and the PEM of its public key.
    pub fn generate_ed25519_keypair(&self) -> (r: AppResult<RawKeyPair>)
        ensures
            match r {
                Ok(kp) => kp.private_key_bytes@.len() == 32 && spec_ed25519_public_pem(
                    kp.private_key_bytes@,
                ) == Ok::<Seq<char>, Seq<char>>(kp.public_key_pem@),
                Err(e) => exists|s: Seq<u8>, t: Seq<char>|
                    s.len() == 32 && spec_ed25519_public_pem(s) == Err::<Seq<char>, Seq<char>>(t)
                        && (e matches AppError::CryptoError(m) && m@
                        == "Failed to encode Ed25519 public key to PEM: "@ + t),
            },
    {
        let secret = ed25519_generate_secret();
        self.material_from_secret(KeyAlgorithm::Ed25519, secret)
    }

    /// A new X25519 key pair: a fresh 32-byte secret and the PEM (label
    /// `X25519 PUBLIC KEY`) of its public key.
    pub fn generate_x25519_keypair(&self) -> (r: AppResult<RawKeyPair>)
        ensures
            r matches Ok(kp) && kp.private_key_bytes@.len() == 32 && kp.public_key_pem@
                == spec_pem_encode("X25519 PUBLIC KEY"@, spec_x25519_public(kp.private_key_bytes@)),
    {
        let secret = x25519_generate_secret();
        self.material_from_secret(KeyAlgorithm::X25519, secret)
    }

    /// A new 32-byte symmetric key from the operating system's RNG, with an empty public part.
    pub fn generate_symmetric_key(&self) -> (r: AppResult<RawKeyPair>)
        ensures
            match r {
                Ok(kp) => kp.private_key_bytes@.len() == 32 && kp.public_key_pem@.len() == 0,
                Err(e) => e matches AppError::CryptoError(m) && "RNG error: "@.is_prefix_of(m@),
            },
    {
        match os_random_bytes(32) {
            Err(e) => {
                let msg = concat2("RNG error: ", e.as_str());
                Err(AppError::CryptoError(msg))
            },
            Ok(key) => Ok(RawKeyPair { public_key_pem: String::new(), private_key_bytes: key }),
        }
    }

    /// New key material for `algorithm`: an Ed25519 or X25519 pair, or a
    /// 32-byte secret for the symmetric algorithms.
    pub fn generate_key_material(&self, algorithm: KeyAlgorithm) -> (r: AppResult<RawKeyPair>)
        ensures
            r matches Ok(kp) ==> spec_fresh_key(algorithm, kp.private_key_bytes@, kp.public_key_pem@),
            r matches Err(e) ==> (e matches AppError::CryptoError(m) && spec_generation_error(
                algorithm,
                m@,
            )),
            algorithm == KeyAlgorithm::X25519 ==> r is Ok,
            algorithm == KeyAlgorithm::AES256GCM || algorithm == KeyAlgorithm::HmacSha256 ==> (
            r matches Err(e) ==> (e matches AppError::CryptoError(m) && "RNG error: "@.is_prefix_of(
                m@,
            ))),
            algorithm == KeyAlgorithm::Ed25519 ==> (r matches Err(e) ==> exists|s: Seq<u8>, t: Seq<char>|
                s.len() == 32 && spec_ed25519_public_pem(s) == Err::<Seq<char>, Seq<char>>(t) && (
                e matches AppError::CryptoError(m) && m@ == "Failed to encode Ed25519 public key to PEM: "@
                    + t)),
    {
        match algorithm {
            KeyAlgorithm::Ed25519 => self.generate_ed25519_keypair(),
            KeyAlgorithm::X25519 => self.generate_x25519_keypair(),
            KeyAlgorithm::AES256GCM => self.generate_symmetric_key(),
            KeyAlgorithm::HmacSha256 => self.generate_symmetric_key(),
        }
    }
}

/// Whether `m` is how the PEM encoder refuses the public key of some 32-byte
/// Ed25519 secret.
pub open spec fn spec_pem_refusal(m: Seq<char>) -> bool {
    exists|s: Seq<u8>|
        s.len() == 32 && match #[trigger] spec_ed25519_public_pem(s) {
            Err(t) => m == "Failed to encode Ed25519 public key to PEM: "@ + t,
            Ok(_) => false,
        }
}

/// Whether `m` is the message of a failure to make and seal new key material
/// for `algorithm`: the random source failed, or (for Ed25519 only) the
/// public key could not be written as PEM.
pub open spec fn spec_generation_error(algorithm: KeyAlgorithm, m: Seq<char>) -> bool {
    ||| "RNG error: "@.is_prefix_of(m)
    ||| (algorithm == KeyAlgorithm::Ed25519 && spec_pem_refusal(m))
}

/// What fresh key material for `algorithm` looks like: a 32-byte secret `sk`,
/// with the matching public-key PEM `pem` for the asymmetric algorithms and an
/// empty one for the symmetric ones.
pub open spec fn spec_fresh_key(algorithm: KeyAlgorithm, sk: Seq<u8>, pem: Seq<char>) -> bool {
    &&& sk.len() == 32
    &&& match algorithm {
        KeyAlgorithm::Ed25519 => spec_ed25519_public_pem(sk) == Ok::<Seq<char>, Seq<char>>(pem),
        KeyAlgorithm::X25519 => pem == spec_pem_encode("X25519 PUBLIC KEY"@, spec_x25519_public(sk)),
        _ => pem.len() == 0,
    }
}

/// The index of the key of version `v`: the last entry with that version.
fn key_index(keys: &Vec<(i32, Vec<u8>)>, v: i32) -> (r: Option<usize>)
    ensures
        match r {
            None => spec_lookup_key(spec_keyring_of(keys@), v) is None,
            Some(i) => i < keys@.len() && spec_lookup_key(spec_keyring_of(keys@), v) == Some(
                keys@[i as int].1@,
            ),
        },
{
    let ghost ring = spec_keyring_of(keys@);
    let mut i: usize = keys.len();
    assert(ring.subrange(0, i as int) =~= ring);
    while i > 0
        invariant
            i <= keys@.len(),
            ring == spec_keyring_of(keys@),
            spec_lookup_key(ring, v) == spec_lookup_key(ring.subrange(0, i as int), v),
        decreases i,
    {
        let ghost pre = ring.subrange(0, i as int);
        assert(pre.drop_last() =~= ring.subrange(0, i - 1));
        if keys[i - 1].0 == v {
            return Some(i - 1);
        }
        i = i - 1;
    }
    None
}

proof fn lemma_load_prefix_err(texts: Seq<(i32, Seq<char>)>, i: int)
    requires
        0 <= i < texts.len(),
        spec_load_master_keys(texts.subrange(0, i + 1)) is Err,
    ensures
        spec_load_master_keys(texts) == spec_load_master_keys(texts.subrange(0, i + 1)),
    decreases texts.len() - i,
{
    if i + 1 < texts.len() {
        let pre = texts.subrange(0, i + 2);
        assert(pre.drop_last() =~= texts.subrange(0, i + 1));
        lemma_load_prefix_err(texts, i + 1);
    } else {
        assert(texts.subrange(0, i + 1) =~= texts);
    }
}

/// Law: a key sealed by [`KmsCryptoService::encrypt_private_key`] opens again
/// to the same private key, under the master key it was sealed with.
pub proof fn law_envelope_roundtrip(service: &KmsCryptoService, pk: Seq<u8>, sealed: SealedKeyView)
    requires
        service.spec_sealed(pk, sealed),
    ensures
        service.spec_open(sealed) == OpenOutcome::Plain(pk),
        sealed.master_key_version == service.spec_current_version(),
{
}

/// Law: a sealed key stays readable when the master keys change, as long as
/// the master key of its version stays the same: a key sealed by `before`
/// opens under `after` to the same private key.
pub proof fn law_sealed_key_survives_keyring_change(
    before: &KmsCryptoService,
    after: &KmsCryptoService,
    pk: Seq<u8>,
    sealed: SealedKeyView,
)
    requires
        before.spec_sealed(pk, sealed),
        spec_lookup_key(after.spec_keyring(), sealed.master_key_version) == spec_lookup_key(
            before.spec_keyring(),
            sealed.master_key_version,
        ),
    ensures
        after.spec_open(sealed) == OpenOutcome::Plain(pk),
{
}

} // verus!
