//! Password-protected payloads (AES-256-GCM under an Argon2id key derived
//! from the password and a server-side pepper), unlocking stored CVs and
//! secrets, and envelope encryption of caller data.
use crate::errors::{AppError, AppResult};
use crate::keys::EncryptedPrivateKey;
use crate::kms::{spec_open_error_text, KmsCryptoService, OpenOutcome};
use crate::primitives::{
    aes256gcm_open, aes256gcm_seal, argon2id_derive_32, os_random_bytes, spec_aes256gcm_open,
    spec_aes256gcm_seal, spec_argon2_inputs_valid, spec_argon2_params_valid, spec_argon2id,
    Argon2Failure, AES_GCM_MAX_PLAINTEXT,
};
use crate::text::{concat2, concat3, owned, spec_decimal, u64_to_decimal};
use std::sync::Arc;
use vstd::prelude::*;
use vstd::utf8::encode_utf8;

verus! {

/// Length of the salt of a password-protected payload, in bytes.
pub const SALT_LEN: usize = 16;

/// Length of the nonce of a password-protected payload, in bytes.
pub const PAYLOAD_NONCE_LEN: usize = 12;

/// Largest Argon2 parallelism a service can be made with (2^29 - 1): Argon2's
/// cost check multiplies the lanes by 8 in 32 bits, which overflows from 2^29
/// lanes on. Argon2 itself accepts at most 2^24 - 1 lanes and reports larger
/// counts as its own error.
pub const MAX_ARGON2_LANES: u32 = 0x1FFFFFFF;

/// The pepper and the Argon2id costs of password-protected payloads.
pub struct VaultCryptoSettings {
    pub secret_key: String,
    pub argon2_m_cost: u32,
    pub argon2_t_cost: u32,
    pub argon2_p_cost: u32,
}

/// A password-protected payload: ciphertext with tag, salt and nonce.
pub struct EncryptedPayload {
    pub ciphertext: Vec<u8>,
    pub salt: Vec<u8>,
    pub nonce: Vec<u8>,
}

/// Encrypts and decrypts payloads under keys derived from passwords.
pub struct AesCryptoService {
    settings: VaultCryptoSettings,
}

/// How deriving the key for a password and salt ends.
pub enum Derivation {
    Key(Seq<u8>),
    /// The costs were refused by Argon2.
    ParamsRejected,
    /// The salt or password was refused by Argon2.
    InputsRejected,
}

/// Deriving the key for `password` and `salt`: Argon2id over the password
/// followed by the pepper.
pub open spec fn spec_derive(
    pepper: Seq<char>,
    m: u32,
    t: u32,
    p: u32,
    password: Seq<char>,
    salt: Seq<u8>,
) -> Derivation {
    let pwd = encode_utf8(password + pepper);
    if !spec_argon2_params_valid(m, t, p) {
        Derivation::ParamsRejected
    } else if !spec_argon2_inputs_valid(pwd, salt) {
        Derivation::InputsRejected
    } else {
        Derivation::Key(spec_argon2id(pwd, salt, m, t, p))
    }
}

/// Whether `msg` is the message of a failed derivation `d`.
pub open spec fn spec_derive_error(d: Derivation, msg: Seq<char>) -> bool {
    match d {
        Derivation::Key(_) => false,
        Derivation::ParamsRejected => "Argon2 params invalid: "@.is_prefix_of(msg),
        Derivation::InputsRejected => "Argon2 derivation failed: "@.is_prefix_of(msg),
    }
}

/// How decrypting a payload ends: the plaintext, or the message of the failure.
pub enum PayloadOpening {
    Plain(Seq<u8>),
    Failed,
}

proof fn lemma_prefix_of_concat(a: Seq<char>, b: Seq<char>)
    ensures
        a.is_prefix_of(a + b),
{
}

impl AesCryptoService {
    #[verifier::type_invariant]
    spec fn inv(self) -> bool {
        self.settings.argon2_p_cost <= MAX_ARGON2_LANES
    }

    pub fn new(settings: VaultCryptoSettings) -> (r: AesCryptoService)
        requires
            settings.argon2_p_cost <= MAX_ARGON2_LANES,
        ensures
            r.spec_pepper() == settings.secret_key@,
            r.spec_costs() == (settings.argon2_m_cost, settings.argon2_t_cost, settings.argon2_p_cost),
    {
        AesCryptoService { settings }
    }

    /// The server-side pepper.
    pub closed spec fn spec_pepper(&self) -> Seq<char> {
        self.settings.secret_key@
    }

    /// The Argon2id memory, time and parallelism costs.
    pub closed spec fn spec_costs(&self) -> (u32, u32, u32) {
        (self.settings.argon2_m_cost, self.settings.argon2_t_cost, self.settings.argon2_p_cost)
    }

    /// Deriving the key for `password` and `salt` with these settings.
    pub open spec fn spec_key_for(&self, password: Seq<char>, salt: Seq<u8>) -> Derivation {
        spec_derive(
            self.spec_pepper(),
            self.spec_costs().0,
            self.spec_costs().1,
            self.spec_costs().2,
            password,
            salt,
        )
    }

    /// The 32-byte key for `password` and `salt`.
    fn derive_key(&self, password: &str, salt: &[u8]) -> (r: AppResult<Vec<u8>>)
        ensures
            match self.spec_key_for(password@, salt@) {
                Derivation::Key(k) => r matches Ok(v) && v@ == k && k.len() == 32,
                d => r matches Err(AppError::CryptoError(m)) && spec_derive_error(d, m@),
            },
    {
        proof {
            use_type_invariant(self);
        }
        let peppered = concat2(password, self.settings.secret_key.as_str());
        match argon2id_derive_32(
            peppered.as_str().as_bytes(),
            salt,
            self.settings.argon2_m_cost,
            self.settings.argon2_t_cost,
            self.settings.argon2_p_cost,
        ) {
            Ok(k) => Ok(k),
            Err(Argon2Failure::Params(e)) => {
                let msg = concat2("Argon2 params invalid: ", e.as_str());
                proof {
                    lemma_prefix_of_concat("Argon2 params invalid: "@, e@);
                }
                Err(AppError::CryptoError(msg))
            },
            Err(Argon2Failure::Hash(e)) => {
                let msg = concat2("Argon2 derivation failed: ", e.as_str());
                proof {
                    lemma_prefix_of_concat("Argon2 derivation failed: "@, e@);
                }
                Err(AppError::CryptoError(msg))
            },
        }
    }

    /// What a successful encryption of `data` under `password` gives: a payload
    /// whose salt and password derive a key that sealed `data` under its nonce,
    /// and that opens to `data` again.
    pub open spec fn spec_encrypted(&self, data: Seq<u8>, password: Seq<char>, p: EncryptedPayload) -> bool {
        &&& p.salt@.len() == SALT_LEN
        &&& p.nonce@.len() == PAYLOAD_NONCE_LEN
        &&& self.spec_key_for(password, p.salt@) matches Derivation::Key(k) && p.ciphertext@
            == spec_aes256gcm_seal(k, p.nonce@, data) && spec_aes256gcm_open(k, p.nonce@, p.ciphertext@)
            == Some(data)
    }

    /// Encrypts `data` under `password` with the given salt and nonce.
    pub fn encrypt_with(&self, data: &[u8], password: &str, salt: Vec<u8>, nonce: Vec<u8>) -> (r: AppResult<
        EncryptedPayload,
    >)
        requires
            salt@.len() == SALT_LEN,
            nonce@.len() == PAYLOAD_NONCE_LEN,
        ensures
            match self.spec_key_for(password@, salt@) {
                Derivation::Key(k) => if data@.len() <= AES_GCM_MAX_PLAINTEXT {
                    r matches Ok(p) && p.salt@ == salt@ && p.nonce@ == nonce@ && self.spec_encrypted(
                        data@,
                        password@,
                        p,
                    )
                } else {
                    r matches Err(AppError::CryptoError(m)) && m@ == "Encryption failed: "@
                        + "aead::Error"@
                },
                d => r matches Err(AppError::CryptoError(m)) && spec_derive_error(d, m@),
            },
    {
        let key = self.derive_key(password, salt.as_slice())?;
        match aes256gcm_seal(key.as_slice(), nonce.as_slice(), data) {
            Err(e) => Err(AppError::CryptoError(concat2("Encryption failed: ", e.as_str()))),
            Ok(ciphertext) => Ok(EncryptedPayload { ciphertext, salt, nonce }),
        }
    }

    /// Encrypts `data` under `password` with a fresh random salt and nonce.
    pub fn encrypt(&self, data: &[u8], password: &str) -> (r: AppResult<EncryptedPayload>)
        ensures
            r matches Ok(p) ==> self.spec_encrypted(data@, password@, p),
            r matches Err(e) ==> e is CryptoError,
    {
        let salt = match os_random_bytes(SALT_LEN) {
            Err(e) => return Err(AppError::CryptoError(concat2("RNG error: ", e.as_str()))),
            Ok(s) => s,
        };
        let nonce = match os_random_bytes(PAYLOAD_NONCE_LEN) {
            Err(e) => return Err(AppError::CryptoError(concat2("RNG error: ", e.as_str()))),
            Ok(n) => n,
        };
        self.encrypt_with(data, password, salt, nonce)
    }

    /// Decrypting `payload` with `password`.
    pub open spec fn spec_decrypt(&self, payload: EncryptedPayload, password: Seq<char>) -> PayloadOpening {
        if payload.salt@.len() != SALT_LEN || payload.nonce@.len() != PAYLOAD_NONCE_LEN {
            PayloadOpening::Failed
        } else {
            match self.spec_key_for(password, payload.salt@) {
                Derivation::Key(k) => match spec_aes256gcm_open(k, payload.nonce@, payload.ciphertext@) {
                    Some(p) => PayloadOpening::Plain(p),
                    None => PayloadOpening::Failed,
                },
                _ => PayloadOpening::Failed,
            }
        }
    }

    /// Decrypts a payload with `password`: checks the salt and nonce lengths,
    /// derives the key and opens the ciphertext.
    pub fn decrypt(&self, payload: &EncryptedPayload, password: &str) -> (r: AppResult<Vec<u8>>)
        ensures
            match self.spec_decrypt(*payload, password@) {
                PayloadOpening::Plain(p) => r matches Ok(v) && v@ == p,
                PayloadOpening::Failed => r matches Err(e) && e is CryptoError,
            },
            payload.salt@.len() != SALT_LEN ==> (r matches Err(AppError::CryptoError(m)) && m@
                == "Invalid salt length: expected 16 bytes, got "@ + spec_decimal(payload.salt@.len())),
            payload.salt@.len() == SALT_LEN && payload.nonce@.len() != PAYLOAD_NONCE_LEN ==> (r matches Err(
                AppError::CryptoError(m),
            ) && m@ == "Invalid nonce length: expected 12 bytes, got "@ + spec_decimal(
                payload.nonce@.len(),
            )),
            payload.salt@.len() == SALT_LEN && payload.nonce@.len() == PAYLOAD_NONCE_LEN ==> match self.spec_key_for(
                password@,
                payload.salt@,
            ) {
                Derivation::Key(k) => spec_aes256gcm_open(k, payload.nonce@, payload.ciphertext@) is None
                    ==> (r matches Err(AppError::CryptoError(m)) && m@
                    == "Decryption failed: check password or data integrity"@),
                d => r matches Err(AppError::CryptoError(m)) && spec_derive_error(d, m@),
            },
    {
        if payload.salt.len() != SALT_LEN {
            let got = u64_to_decimal(payload.salt.len() as u64);
            return Err(
                AppError::CryptoError(concat2("Invalid salt length: expected 16 bytes, got ", got.as_str())),
            );
        }
        if payload.nonce.len() != PAYLOAD_NONCE_LEN {
            let got = u64_to_decimal(payload.nonce.len() as u64);
            return Err(
                AppError::CryptoError(concat2("Invalid nonce length: expected 12 bytes, got ", got.as_str())),
            );
        }
        let key = self.derive_key(password, payload.salt.as_slice())?;
        match aes256gcm_open(key.as_slice(), payload.nonce.as_slice(), payload.ciphertext.as_slice()) {
            Some(p) => Ok(p),
            None => Err(
                AppError::CryptoError(owned("Decryption failed: check password or data integrity")),
            ),
        }
    }
}

/// Law: a payload encrypted under a password decrypts, with the same password
/// and settings, to the data that was encrypted.
pub proof fn law_password_roundtrip(
    service: &AesCryptoService,
    data: Seq<u8>,
    password: Seq<char>,
    payload: EncryptedPayload,
)
    requires
        service.spec_encrypted(data, password, payload),
    ensures
        service.spec_decrypt(payload, password) == PayloadOpening::Plain(data),
{
}

/// A stored CV, encrypted under its owner's access key.
pub struct EncryptedCV {
    pub id: String,
    pub data: Vec<u8>,
    pub salt: Vec<u8>,
    pub nonce: Vec<u8>,
}

/// A decrypted CV: what the stored bytes hold once read as JSON.
pub struct DecryptedCV {
    pub name: String,
    pub experience: Vec<String>,
    pub contact: String,
}

/// Body of a request to unlock a stored CV: the CV's record id (24 hex
/// digits) and the owner's access key.
pub struct UnlockRequest {
    pub cv_id: String,
    pub access_key: String,
}

/// Unlocks stored CVs with the access key their owner holds.
pub struct UnlockCvUseCase {
    pub crypto: Arc<AesCryptoService>,
}

impl UnlockCvUseCase {
    pub fn new(crypto: Arc<AesCryptoService>) -> (r: Self)
        ensures
            r.crypto == crypto,
    {
        UnlockCvUseCase { crypto }
    }

    /// Given the CV stored under `id` (if any), its decrypted bytes under `key`.
    pub fn unlock(&self, id: &str, found: Option<EncryptedCV>, key: &str) -> (r: AppResult<Vec<u8>>)
        ensures
            match found {
                None => r matches Err(AppError::NotFound(m)) && m@ == "CV "@ + id@ + " not found"@,
                Some(cv) => match self.crypto.spec_decrypt(
                    EncryptedPayload { ciphertext: cv.data, salt: cv.salt, nonce: cv.nonce },
                    key@,
                ) {
                    PayloadOpening::Plain(p) => r matches Ok(v) && v@ == p,
                    PayloadOpening::Failed => r matches Err(e) && e is CryptoError,
                },
            },
    {
        match found {
            None => Err(AppError::NotFound(concat3("CV ", id, " not found"))),
            Some(cv) => {
                let payload = EncryptedPayload { ciphertext: cv.data, salt: cv.salt, nonce: cv.nonce };
                self.crypto.decrypt(&payload, key)
            },
        }
    }
}

/// A stored secret, sealed under a master key.
pub struct EncryptedSecret {
    pub id: String,
    pub data: Vec<u8>,
    pub nonce: Vec<u8>,
    pub master_key_version: i32,
}

/// Unlocks stored secrets with the master keys.
pub struct UnlockSecretUseCase {
    pub crypto: Arc<KmsCryptoService>,
}

impl UnlockSecretUseCase {
    pub fn new(crypto: Arc<KmsCryptoService>) -> (r: Self)
        ensures
            r.crypto == crypto,
    {
        UnlockSecretUseCase { crypto }
    }

    /// Given the secret stored under `id` (if any), its decrypted bytes.
    pub fn unlock(&self, id: &str, found: Option<EncryptedSecret>) -> (r: AppResult<Vec<u8>>)
        ensures
            match found {
                None => r matches Err(AppError::NotFound(m)) && m@ == "Secret "@ + id@ + " not found"@,
                Some(s) => match self.crypto.spec_open(
                    crate::keys::SealedKeyView {
                        ciphertext: s.data@,
                        nonce: s.nonce@,
                        master_key_version: s.master_key_version,
                    },
                ) {
                    OpenOutcome::Plain(p) => r matches Ok(v) && v@ == p,
                    o => r matches Err(AppError::CryptoError(m)) && m@ == spec_open_error_text(o),
                },
            },
    {
        match found {
            None => Err(AppError::NotFound(concat3("Secret ", id, " not found"))),
            Some(s) => {
                let sealed = EncryptedPrivateKey {
                    ciphertext: s.data,
                    nonce: s.nonce,
                    master_key_version: s.master_key_version,
                };
                self.crypto.decrypt_private_key(&sealed)
            },
        }
    }
}

/// Seals caller data under the current master key.
pub struct EncryptDataUseCase {
    pub crypto: Arc<KmsCryptoService>,
}

impl EncryptDataUseCase {
    pub fn new(crypto: Arc<KmsCryptoService>) -> (r: Self)
        ensures
            r.crypto == crypto,
    {
        EncryptDataUseCase { crypto }
    }

    /// Seals `plaintext` under the current master key.
    pub fn execute(&self, plaintext: &[u8]) -> (r: AppResult<EncryptedPrivateKey>)
        ensures
            r matches Ok(e) ==> self.crypto.spec_sealed(plaintext@, e@),
            r matches Err(e) ==> e is CryptoError,
    {
        self.crypto.encrypt_private_key(plaintext)
    }
}

/// Opens data sealed under a master key.
pub struct DecryptDataUseCase {
    pub crypto: Arc<KmsCryptoService>,
}

impl DecryptDataUseCase {
    pub fn new(crypto: Arc<KmsCryptoService>) -> (r: Self)
        ensures
            r.crypto == crypto,
    {
        DecryptDataUseCase { crypto }
    }

    /// Opens `sealed` with the master key of its version.
    pub fn execute(&self, sealed: &EncryptedPrivateKey) -> (r: AppResult<Vec<u8>>)
        ensures
            match self.crypto.spec_open(sealed@) {
                OpenOutcome::Plain(p) => r matches Ok(v) && v@ == p,
                o => r matches Err(AppError::CryptoError(m)) && m@ == spec_open_error_text(o),
            },
    {
        self.crypto.decrypt_private_key(sealed)
    }
}

} // verus!
