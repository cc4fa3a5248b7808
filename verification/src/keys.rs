//! The key custody model: services, algorithms, key statuses and stored keys.
use crate::text::owned;
use vstd::prelude::*;

verus! {

/// The identity of a service (a tenant of the key store).
pub struct ServiceId(pub String);

impl View for ServiceId {
    type V = Seq<char>;

    open spec fn view(&self) -> Seq<char> {
        self.0@
    }
}

impl ServiceId {
    /// A service id holding `name`.
    pub fn new(name: String) -> (r: ServiceId)
        ensures
            r@ == name@,
    {
        ServiceId(name)
    }

    /// A service id holding the characters of `name`.
    pub fn from_str(name: &str) -> (r: ServiceId)
        ensures
            r@ == name@,
    {
        ServiceId(owned(name))
    }

    /// The service name.
    pub fn as_str(&self) -> (r: &str)
        ensures
            r@ == self@,
    {
        self.0.as_str()
    }

    /// Whether both ids name the same service.
    pub fn same(&self, other: &ServiceId) -> (r: bool)
        ensures
            r == (self@ == other@),
    {
        self.0 == other.0
    }

    /// A copy of this id.
    pub fn duplicate(&self) -> (r: ServiceId)
        ensures
            r@ == self@,
    {
        ServiceId(self.0.clone())
    }
}

/// The algorithm a key is used with.
#[derive(Debug, Clone, Copy, PartialEq, Eq, Structural)]
pub enum KeyAlgorithm {
    Ed25519,
    X25519,
    AES256GCM,
    HmacSha256,
}

/// What a key is used for.
#[derive(Debug, Clone, Copy, PartialEq, Eq, Structural)]
pub enum KeyPurpose {
    Signing,
    Encryption,
    Authentication,
}

/// The life-cycle state of a stored key. Times are milliseconds since the Unix epoch.
#[derive(Debug, Clone, Copy, PartialEq, Eq, Structural)]
pub enum KeyStatus {
    Active,
    Deprecated { valid_until: i64 },
    Revoked,
    Expired,
    Compromised,
}

/// Why a key is rotated.
#[derive(Debug, Clone, Copy, PartialEq, Eq, Structural)]
pub enum RotationReason {
    Scheduled,
    Compromised,
    Manual,
}

/// The name of each algorithm, as stored and as shown in messages.
pub open spec fn spec_algorithm_name(a: KeyAlgorithm) -> Seq<char> {
    match a {
        KeyAlgorithm::Ed25519 => "Ed25519"@,
        KeyAlgorithm::X25519 => "X25519"@,
        KeyAlgorithm::AES256GCM => "AES256GCM"@,
        KeyAlgorithm::HmacSha256 => "HmacSha256"@,
    }
}

/// The name of each purpose, as stored.
pub open spec fn spec_purpose_name(p: KeyPurpose) -> Seq<char> {
    match p {
        KeyPurpose::Signing => "Signing"@,
        KeyPurpose::Encryption => "Encryption"@,
        KeyPurpose::Authentication => "Authentication"@,
    }
}

/// The name of each status, as stored.
pub open spec fn spec_status_name(s: KeyStatus) -> Seq<char> {
    match s {
        KeyStatus::Active => "Active"@,
        KeyStatus::Deprecated { .. } => "Deprecated"@,
        KeyStatus::Revoked => "Revoked"@,
        KeyStatus::Expired => "Expired"@,
        KeyStatus::Compromised => "Compromised"@,
    }
}

/// The name of each rotation reason, as written in audit records.
pub open spec fn spec_reason_name(r: RotationReason) -> Seq<char> {
    match r {
        RotationReason::Scheduled => "Scheduled"@,
        RotationReason::Compromised => "Compromised"@,
        RotationReason::Manual => "Manual"@,
    }
}

/// The purpose a freshly generated key of each algorithm is given.
pub open spec fn spec_default_purpose(a: KeyAlgorithm) -> KeyPurpose {
    match a {
        KeyAlgorithm::Ed25519 => KeyPurpose::Signing,
        KeyAlgorithm::X25519 => KeyPurpose::Encryption,
        KeyAlgorithm::AES256GCM => KeyPurpose::Encryption,
        KeyAlgorithm::HmacSha256 => KeyPurpose::Authentication,
    }
}

impl KeyAlgorithm {
    /// The algorithm's name.
    pub fn name(&self) -> (r: &'static str)
        ensures
            r@ == spec_algorithm_name(*self),
    {
        match self {
            KeyAlgorithm::Ed25519 => "Ed25519",
            KeyAlgorithm::X25519 => "X25519",
            KeyAlgorithm::AES256GCM => "AES256GCM",
            KeyAlgorithm::HmacSha256 => "HmacSha256",
        }
    }

    /// The purpose a freshly generated key of this algorithm is given.
    pub fn default_purpose(&self) -> (r: KeyPurpose)
        ensures
            r == spec_default_purpose(*self),
            *self == KeyAlgorithm::Ed25519 ==> r == KeyPurpose::Signing,
            *self == KeyAlgorithm::X25519 ==> r == KeyPurpose::Encryption,
            *self == KeyAlgorithm::AES256GCM ==> r == KeyPurpose::Encryption,
            *self == KeyAlgorithm::HmacSha256 ==> r == KeyPurpose::Authentication,
    {
        match self {
            KeyAlgorithm::Ed25519 => KeyPurpose::Signing,
            KeyAlgorithm::X25519 => KeyPurpose::Encryption,
            KeyAlgorithm::AES256GCM => KeyPurpose::Encryption,
            KeyAlgorithm::HmacSha256 => KeyPurpose::Authentication,
        }
    }
}

impl KeyPurpose {
    /// The purpose's name.
    pub fn name(&self) -> (r: &'static str)
        ensures
            r@ == spec_purpose_name(*self),
    {
        match self {
            KeyPurpose::Signing => "Signing",
            KeyPurpose::Encryption => "Encryption",
            KeyPurpose::Authentication => "Authentication",
        }
    }
}

impl KeyStatus {
    /// The status name, without the deprecation deadline.
    pub fn name(&self) -> (r: &'static str)
        ensures
            r@ == spec_status_name(*self),
    {
        match self {
            KeyStatus::Active => "Active",
            KeyStatus::Deprecated { .. } => "Deprecated",
            KeyStatus::Revoked => "Revoked",
            KeyStatus::Expired => "Expired",
            KeyStatus::Compromised => "Compromised",
        }
    }
}

impl RotationReason {
    /// The reason's name.
    pub fn name(&self) -> (r: &'static str)
        ensures
            r@ == spec_reason_name(*self),
    {
        match self {
            RotationReason::Scheduled => "Scheduled",
            RotationReason::Compromised => "Compromised",
            RotationReason::Manual => "Manual",
        }
    }
}

/// A private key sealed under a master key: ciphertext with tag, nonce, and
/// the version of the master key that sealed it.
pub struct EncryptedPrivateKey {
    pub ciphertext: Vec<u8>,
    pub nonce: Vec<u8>,
    pub master_key_version: i32,
}

/// The value of an [`EncryptedPrivateKey`].
pub struct SealedKeyView {
    pub ciphertext: Seq<u8>,
    pub nonce: Seq<u8>,
    pub master_key_version: i32,
}

impl View for EncryptedPrivateKey {
    type V = SealedKeyView;

    open spec fn view(&self) -> SealedKeyView {
        SealedKeyView {
            ciphertext: self.ciphertext@,
            nonce: self.nonce@,
            master_key_version: self.master_key_version,
        }
    }
}

impl EncryptedPrivateKey {
    /// A copy of this sealed key.
    pub fn duplicate(&self) -> (r: EncryptedPrivateKey)
        ensures
            r@ == self@,
    {
        let ciphertext = self.ciphertext.clone();
        let nonce = self.nonce.clone();
        EncryptedPrivateKey { ciphertext, nonce, master_key_version: self.master_key_version }
    }
}

/// Freshly generated key material: the public half as PEM (empty for
/// symmetric keys) and the raw private or secret key.
pub struct RawKeyPair {
    pub public_key_pem: String,
    pub private_key_bytes: Vec<u8>,
}

/// A stored key. Times are milliseconds since the Unix epoch; `id` is the
/// 128-bit value of the key's UUID.
pub struct KeyPairEntity {
    pub id: u128,
    pub service_id: ServiceId,
    pub algorithm: KeyAlgorithm,
    pub purpose: KeyPurpose,
    pub public_key_pem: String,
    pub encrypted_private_key: EncryptedPrivateKey,
    pub version: u32,
    pub status: KeyStatus,
    pub created_at: i64,
    pub expires_at: Option<i64>,
}

/// The value of a [`KeyPairEntity`].
pub struct KeyPairView {
    pub id: u128,
    pub service_id: Seq<char>,
    pub algorithm: KeyAlgorithm,
    pub purpose: KeyPurpose,
    pub public_key_pem: Seq<char>,
    pub encrypted_private_key: SealedKeyView,
    pub version: u32,
    pub status: KeyStatus,
    pub created_at: i64,
    pub expires_at: Option<i64>,
}

impl View for KeyPairEntity {
    type V = KeyPairView;

    open spec fn view(&self) -> KeyPairView {
        KeyPairView {
            id: self.id,
            service_id: self.service_id@,
            algorithm: self.algorithm,
            purpose: self.purpose,
            public_key_pem: self.public_key_pem@,
            encrypted_private_key: self.encrypted_private_key@,
            version: self.version,
            status: self.status,
            created_at: self.created_at,
            expires_at: self.expires_at,
        }
    }
}

impl KeyPairEntity {
    /// A copy of this key.
    pub fn duplicate(&self) -> (r: KeyPairEntity)
        ensures
            r@ == self@,
    {
        KeyPairEntity {
            id: self.id,
            service_id: self.service_id.duplicate(),
            algorithm: self.algorithm,
            purpose: self.purpose,
            public_key_pem: self.public_key_pem.clone(),
            encrypted_private_key: self.encrypted_private_key.duplicate(),
            version: self.version,
            status: self.status,
            created_at: self.created_at,
            expires_at: self.expires_at,
        }
    }
}

/// Whether a key may still be handed out as a public key at time `now`:
/// it is active, or deprecated with a deadline after `now`.
pub open spec fn spec_usable_at(status: KeyStatus, now: i64) -> bool {
    match status {
        KeyStatus::Active => true,
        KeyStatus::Deprecated { valid_until } => valid_until > now,
        _ => false,
    }
}

impl KeyStatus {
    /// Whether a key in this status may be handed out as a public key at `now`.
    pub fn usable_at(&self, now: i64) -> (r: bool)
        ensures
            r == spec_usable_at(*self, now),
            *self is Active ==> r,
            *self matches KeyStatus::Deprecated { valid_until } ==> (r <==> valid_until > now),
            (*self is Revoked || *self is Expired || *self is Compromised) ==> !r,
    {
        match self {
            KeyStatus::Active => true,
            KeyStatus::Deprecated { valid_until } => *valid_until > now,
            _ => false,
        }
    }
}

/// Each algorithm's keys are made for what the algorithm does: an Ed25519 key
/// signs, an HMAC-SHA256 key authenticates, and an X25519 or AES-256-GCM key
/// encrypts; no other algorithm gets a signing or an authentication key.
pub proof fn law_default_purpose_follows_algorithm(a: KeyAlgorithm)
    ensures
        (spec_default_purpose(a) == KeyPurpose::Signing) <==> (a == KeyAlgorithm::Ed25519),
        (spec_default_purpose(a) == KeyPurpose::Authentication) <==> (a == KeyAlgorithm::HmacSha256),
        (spec_default_purpose(a) == KeyPurpose::Encryption) <==> (a == KeyAlgorithm::X25519 || a
            == KeyAlgorithm::AES256GCM),
{
}

/// A revoked, expired or compromised key is never handed out as a public key,
/// at any time.
pub proof fn law_retired_key_never_usable(status: KeyStatus, now: i64)
    requires
        status is Revoked || status is Expired || status is Compromised,
    ensures
        !spec_usable_at(status, now),
{
}

/// A key is handed out at `now` exactly when it is active, or deprecated with
/// a deadline after `now`.
pub proof fn law_usable_exactly_when_live(status: KeyStatus, now: i64)
    ensures
        spec_usable_at(status, now) <==> (status is Active || (status is Deprecated
            && status->valid_until > now)),
{
}

/// Time only takes usability away: a key usable at `later` was usable at
/// every earlier time, and an active key is usable at every time.
pub proof fn law_usability_only_ends(status: KeyStatus, earlier: i64, later: i64)
    requires
        earlier <= later,
    ensures
        spec_usable_at(status, later) ==> spec_usable_at(status, earlier),
        status is Active ==> spec_usable_at(status, earlier) && spec_usable_at(status, later),
{
}

} // verus!
