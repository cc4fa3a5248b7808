//! How stored keys are laid out in the document store, how documents are read
//! back, how a duplicate-key refusal is recognised, and how cache keys are named.
use crate::errors::{AppError, AppResult};
use crate::ids::{now_millis, spec_uuid_parse, spec_uuid_text, uuid_parse, uuid_text};
use crate::keys::{
    spec_algorithm_name, spec_purpose_name, spec_status_name, EncryptedPrivateKey, KeyAlgorithm,
    KeyPairEntity, KeyPairView, KeyPurpose, KeyStatus, SealedKeyView, ServiceId,
};
use crate::text::{
    concat2, concat4, contains_str, has_substring, owned, spec_lowercase, str_eq,
    strip_leading_char, to_lowercase, trim_start_char,
};
use crate::value_objects::ClientIp;
use vstd::prelude::*;

verus! {

/// A stored key as the document store holds it: names for the enumerations,
/// the UUID as text, times in milliseconds since the Unix epoch, the version
/// as a signed 32-bit number.
pub struct KeyDocument {
    pub id: String,
    pub service_id: String,
    pub algorithm: String,
    pub purpose: String,
    pub public_key_pem: String,
    pub encrypted_private_key: Vec<u8>,
    pub nonce: Vec<u8>,
    pub version: i32,
    pub master_key_version: i32,
    pub status: String,
    pub deprecated_valid_until: Option<i64>,
    pub created_at: i64,
    pub expires_at: Option<i64>,
}

/// The deadline a status carries, if it is a deprecation.
pub open spec fn spec_deadline_of(s: KeyStatus) -> Option<i64> {
    match s {
        KeyStatus::Deprecated { valid_until } => Some(valid_until),
        _ => None,
    }
}

/// Whether `d` is the document of the key `e`.
pub open spec fn spec_document_of(e: KeyPairEntity, d: KeyDocument) -> bool {
    &&& d.id@ == spec_uuid_text(e.id)
    &&& spec_uuid_parse(d.id@) == Ok::<u128, Seq<char>>(e.id)
    &&& d.service_id@ == e.service_id@
    &&& d.algorithm@ == spec_algorithm_name(e.algorithm)
    &&& d.purpose@ == spec_purpose_name(e.purpose)
    &&& d.public_key_pem@ == e.public_key_pem@
    &&& d.encrypted_private_key@ == e.encrypted_private_key.ciphertext@
    &&& d.nonce@ == e.encrypted_private_key.nonce@
    &&& d.version == e.version as i32
    &&& d.master_key_version == e.encrypted_private_key.master_key_version
    &&& d.status@ == spec_status_name(e.status)
    &&& d.deprecated_valid_until == spec_deadline_of(e.status)
    &&& d.created_at == e.created_at
    &&& d.expires_at == e.expires_at
}

/// The algorithm a stored name stands for.
pub open spec fn spec_parse_algorithm(s: Seq<char>) -> Option<KeyAlgorithm> {
    if s == "Ed25519"@ {
        Some(KeyAlgorithm::Ed25519)
    } else if s == "X25519"@ {
        Some(KeyAlgorithm::X25519)
    } else if s == "AES256GCM"@ {
        Some(KeyAlgorithm::AES256GCM)
    } else if s == "HmacSha256"@ {
        Some(KeyAlgorithm::HmacSha256)
    } else {
        None
    }
}

/// The purpose a stored name stands for.
pub open spec fn spec_parse_purpose(s: Seq<char>) -> Option<KeyPurpose> {
    if s == "Signing"@ {
        Some(KeyPurpose::Signing)
    } else if s == "Encryption"@ {
        Some(KeyPurpose::Encryption)
    } else if s == "Authentication"@ {
        Some(KeyPurpose::Authentication)
    } else {
        None
    }
}

/// The status a stored name stands for. A deprecation without a deadline
/// ends at `now`; unknown names (`Expired` among them) read as revoked.
pub open spec fn spec_parse_status(s: Seq<char>, deadline: Option<i64>, now: i64) -> KeyStatus {
    if s == "Active"@ {
        KeyStatus::Active
    } else if s == "Revoked"@ {
        KeyStatus::Revoked
    } else if s == "Compromised"@ {
        KeyStatus::Compromised
    } else if s == "Deprecated"@ {
        match deadline {
            Some(v) => KeyStatus::Deprecated { valid_until: v },
            None => KeyStatus::Deprecated { valid_until: now },
        }
    } else {
        KeyStatus::Revoked
    }
}

/// Reading the document `d` back at time `now`: the key, or the message of an
/// internal error (bad UUID, unknown algorithm, unknown purpose, in that order).
pub open spec fn spec_entity_from(d: KeyDocument, now: i64) -> Result<KeyPairView, Seq<char>> {
    match spec_uuid_parse(d.id@) {
        Err(e) => Err("Invalid UUID in database: "@ + e),
        Ok(id) => match spec_parse_algorithm(d.algorithm@) {
            None => Err("Unknown algorithm in database: "@ + d.algorithm@),
            Some(algorithm) => match spec_parse_purpose(d.purpose@) {
                None => Err("Unknown purpose in database: "@ + d.purpose@),
                Some(purpose) => Ok(
                    KeyPairView {
                        id,
                        service_id: d.service_id@,
                        algorithm,
                        purpose,
                        public_key_pem: d.public_key_pem@,
                        encrypted_private_key: SealedKeyView {
                            ciphertext: d.encrypted_private_key@,
                            nonce: d.nonce@,
                            master_key_version: d.master_key_version,
                        },
                        version: d.version as u32,
                        status: spec_parse_status(d.status@, d.deprecated_valid_until, now),
                        created_at: d.created_at,
                        expires_at: d.expires_at,
                    },
                ),
            },
        },
    }
}

impl KeyDocument {
    /// The document of a key.
    pub fn from_entity(key: &KeyPairEntity) -> (r: KeyDocument)
        ensures
            spec_document_of(*key, r),
    {
        let ciphertext = key.encrypted_private_key.ciphertext.clone();
        let nonce = key.encrypted_private_key.nonce.clone();
        let deadline = match key.status {
            KeyStatus::Deprecated { valid_until } => Some(valid_until),
            _ => None,
        };
        KeyDocument {
            id: uuid_text(key.id),
            service_id: key.service_id.0.clone(),
            algorithm: owned(key.algorithm.name()),
            purpose: owned(key.purpose.name()),
            public_key_pem: key.public_key_pem.clone(),
            encrypted_private_key: ciphertext,
            nonce,
            version: key.version as i32,
            master_key_version: key.encrypted_private_key.master_key_version,
            status: owned(key.status.name()),
            deprecated_valid_until: deadline,
            created_at: key.created_at,
            expires_at: key.expires_at,
        }
    }
}

fn parse_algorithm(s: &str) -> (r: Option<KeyAlgorithm>)
    ensures
        r == spec_parse_algorithm(s@),
{
    if str_eq(s, "Ed25519") {
        Some(KeyAlgorithm::Ed25519)
    } else if str_eq(s, "X25519") {
        Some(KeyAlgorithm::X25519)
    } else if str_eq(s, "AES256GCM") {
        Some(KeyAlgorithm::AES256GCM)
    } else if str_eq(s, "HmacSha256") {
        Some(KeyAlgorithm::HmacSha256)
    } else {
        None
    }
}

fn parse_purpose(s: &str) -> (r: Option<KeyPurpose>)
    ensures
        r == spec_parse_purpose(s@),
{
    if str_eq(s, "Signing") {
        Some(KeyPurpose::Signing)
    } else if str_eq(s, "Encryption") {
        Some(KeyPurpose::Encryption)
    } else if str_eq(s, "Authentication") {
        Some(KeyPurpose::Authentication)
    } else {
        None
    }
}

fn parse_status(s: &str, deadline: Option<i64>, now: i64) -> (r: KeyStatus)
    ensures
        r == spec_parse_status(s@, deadline, now),
{
    if str_eq(s, "Active") {
        KeyStatus::Active
    } else if str_eq(s, "Revoked") {
        KeyStatus::Revoked
    } else if str_eq(s, "Compromised") {
        KeyStatus::Compromised
    } else if str_eq(s, "Deprecated") {
        match deadline {
            Some(v) => KeyStatus::Deprecated { valid_until: v },
            None => KeyStatus::Deprecated { valid_until: now },
        }
    } else {
        KeyStatus::Revoked
    }
}

/// Reads a document back as a key, at time `now`.
pub fn map_doc_to_entity_at(doc: KeyDocument, now: i64) -> (r: AppResult<KeyPairEntity>)
    ensures
        match spec_entity_from(doc, now) {
            Ok(v) => r matches Ok(e) && e@ == v,
            Err(m) => r matches Err(AppError::Internal(msg)) && msg@ == m,
        },
{
    let id = match uuid_parse(doc.id.as_str()) {
        Err(e) => return Err(AppError::Internal(concat2("Invalid UUID in database: ", e.as_str()))),
        Ok(u) => u,
    };
    let algorithm = match parse_algorithm(doc.algorithm.as_str()) {
        None => return Err(
            AppError::Internal(concat2("Unknown algorithm in database: ", doc.algorithm.as_str())),
        ),
        Some(a) => a,
    };
    let purpose = match parse_purpose(doc.purpose.as_str()) {
        None => return Err(
            AppError::Internal(concat2("Unknown purpose in database: ", doc.purpose.as_str())),
        ),
        Some(p) => p,
    };
    let status = parse_status(doc.status.as_str(), doc.deprecated_valid_until, now);
    Ok(
        KeyPairEntity {
            id,
            service_id: ServiceId::new(doc.service_id),
            algorithm,
            purpose,
            public_key_pem: doc.public_key_pem,
            encrypted_private_key: EncryptedPrivateKey {
                ciphertext: doc.encrypted_private_key,
                nonce: doc.nonce,
                master_key_version: doc.master_key_version,
            },
            version: doc.version as u32,
            status,
            created_at: doc.created_at,
            expires_at: doc.expires_at,
        },
    )
}

/// Reads a document back as a key; a deprecation without a deadline ends now.
pub fn map_doc_to_entity(doc: KeyDocument) -> (r: AppResult<KeyPairEntity>)
    ensures
        exists|now: i64|
            match #[trigger] spec_entity_from(doc, now) {
                Ok(v) => r matches Ok(e) && e@ == v,
                Err(m) => r matches Err(AppError::Internal(msg)) && msg@ == m,
            },
{
    let now = now_millis();
    map_doc_to_entity_at(doc, now)
}

proof fn lemma_version_roundtrip(v: u32)
    ensures
        (v as i32) as u32 == v,
{
    assert((v as i32) as u32 == v) by (bit_vector);
}

/// Law: reading back the document of a key gives the key, at any time, for
/// every status but `Expired` (which the store reads back as `Revoked`).
pub proof fn law_document_roundtrip(key: KeyPairEntity, doc: KeyDocument, now: i64)
    requires
        spec_document_of(key, doc),
        key.status != KeyStatus::Expired,
    ensures
        spec_entity_from(doc, now) == Ok::<KeyPairView, Seq<char>>(key@),
{
    lemma_names_distinct();
    lemma_version_roundtrip(key.version);
}

proof fn lemma_names_distinct()
    ensures
        "Ed25519"@ != "X25519"@,
        "Ed25519"@ != "AES256GCM"@,
        "Ed25519"@ != "HmacSha256"@,
        "X25519"@ != "AES256GCM"@,
        "X25519"@ != "HmacSha256"@,
        "AES256GCM"@ != "HmacSha256"@,
        "Signing"@ != "Encryption"@,
        "Signing"@ != "Authentication"@,
        "Encryption"@ != "Authentication"@,
        "Active"@ != "Revoked"@,
        "Active"@ != "Compromised"@,
        "Active"@ != "Deprecated"@,
        "Revoked"@ != "Compromised"@,
        "Revoked"@ != "Deprecated"@,
        "Compromised"@ != "Deprecated"@,
{
    reveal_strlit("Ed25519");
    reveal_strlit("X25519");
    reveal_strlit("AES256GCM");
    reveal_strlit("HmacSha256");
    reveal_strlit("Signing");
    reveal_strlit("Encryption");
    reveal_strlit("Authentication");
    reveal_strlit("Active");
    reveal_strlit("Revoked");
    reveal_strlit("Compromised");
    reveal_strlit("Deprecated");
    assert("X25519"@.len() != "HmacSha256"@.len());
    assert("AES256GCM"@.len() != "HmacSha256"@.len());
    assert("Encryption"@.len() != "Authentication"@.len());
    assert("Revoked"@.len() != "Deprecated"@.len());
    assert("Compromised"@[0] != "Deprecated"@[0]);
}

/// Whether a store error message reports a duplicate key (code 11000).
pub open spec fn spec_is_duplicate_key_message(msg: Seq<char>) -> bool {
    ||| has_substring(msg, "E11000"@)
    ||| has_substring(msg, "11000"@)
    ||| has_substring(spec_lowercase(msg), "duplicate key"@)
}

/// Whether the store refused an insert because the key already exists: the
/// message mentions code 11000 or, ignoring case, "duplicate key".
pub fn is_duplicate_key_message(msg: &str) -> (r: bool)
    ensures
        r == spec_is_duplicate_key_message(msg@),
{
    if contains_str(msg, "E11000") || contains_str(msg, "11000") {
        return true;
    }
    let lower = to_lowercase(msg);
    contains_str(lower.as_str(), "duplicate key")
}

/// The error for an insert refused as a duplicate.
pub fn duplicate_key_error() -> (r: AppError)
    ensures
        r matches AppError::Conflict(m) && m@ == "Duplicate active key exists"@,
{
    AppError::Conflict(owned("Duplicate active key exists"))
}

/// A key in the cache.
pub struct RedisKey(String);

impl View for RedisKey {
    type V = Seq<char>;

    closed spec fn view(&self) -> Seq<char> {
        self.0@
    }
}

/// The rate-limit key of a path and client: `rl:{path without leading '/'}:{ip}`.
pub open spec fn spec_rate_limit_key(path: Seq<char>, ip: Seq<char>) -> Seq<char> {
    "rl:"@ + strip_leading_char(path, '/') + ":"@ + ip
}

impl RedisKey {
    /// The rate-limit key for requests from `ip` to `path`.
    pub fn rate_limit(path: &str, ip: &ClientIp) -> (r: RedisKey)
        ensures
            r@ == spec_rate_limit_key(path@, ip@),
    {
        let clean = trim_start_char(path, '/');
        RedisKey(concat4("rl:", clean.as_str(), ":", ip.as_str()))
    }

    pub fn as_str(&self) -> (r: &str)
        ensures
            r@ == self@,
    {
        self.0.as_str()
    }
}

} // verus!
