//! The HTTP surface as plain values: request bodies turned into use-case
//! inputs, use-case outputs turned into response bodies, and the health and
//! lock-state reports.
use crate::errors::{AppError, AppResult};
use crate::ids::{rfc3339_from_millis, spec_rfc3339, spec_uuid_text, uuid_text};
use crate::key_access::{
    GetPrivateKeyInput, GetPrivateKeyOutput, GetSymmetricKeyInput, GetSymmetricKeyOutput,
};
use crate::keys::{
    EncryptedPrivateKey, KeyAlgorithm, KeyPairEntity, KeyPurpose, KeyStatus, RotationReason,
    SealedKeyView, ServiceId,
};
use crate::primitives::{base64_decode, base64_encode, spec_base64_decode, spec_base64_encode};
use crate::rotation::{RewrapKeysInput, RotateKeyInput};
use crate::signing::{SignDataInput, SignDataOutput};
use crate::text::{concat2, owned};
use vstd::prelude::*;
use vstd::utf8::encode_utf8;

verus! {

/// Body of an encryption request.
pub struct EncryptRequest {
    pub plaintext: Vec<u8>,
}

/// Body of an encryption answer: the envelope the data was sealed in.
pub struct EncryptResponse {
    pub ciphertext: Vec<u8>,
    pub nonce: Vec<u8>,
    pub master_key_version: i32,
}

impl EncryptResponse {
    /// The answer carrying `sealed`.
    pub fn from_sealed(sealed: EncryptedPrivateKey) -> (r: EncryptResponse)
        ensures
            r.ciphertext@ == sealed.ciphertext@,
            r.nonce@ == sealed.nonce@,
            r.master_key_version == sealed.master_key_version,
    {
        EncryptResponse {
            ciphertext: sealed.ciphertext,
            nonce: sealed.nonce,
            master_key_version: sealed.master_key_version,
        }
    }
}

/// Body of a decryption request: an envelope made by the service.
pub struct DecryptRequest {
    pub ciphertext: Vec<u8>,
    pub nonce: Vec<u8>,
    pub master_key_version: i32,
}

impl DecryptRequest {
    /// The envelope this request carries.
    pub fn into_sealed(self) -> (r: EncryptedPrivateKey)
        ensures
            r@ == (SealedKeyView {
                ciphertext: self.ciphertext@,
                nonce: self.nonce@,
                master_key_version: self.master_key_version,
            }),
    {
        EncryptedPrivateKey {
            ciphertext: self.ciphertext,
            nonce: self.nonce,
            master_key_version: self.master_key_version,
        }
    }
}

/// Body of a decryption answer.
pub struct DecryptResponse {
    pub plaintext: Vec<u8>,
}

/// Body of a signing request: the payload travels as standard Base64.
pub struct SignDataRequest {
    pub target_service: String,
    pub algorithm: KeyAlgorithm,
    pub payload_b64: String,
    pub key_version: Option<u32>,
}

/// Body of a signing answer: the signature as standard Base64.
pub struct SignDataResponse {
    pub signature_b64: String,
    pub key_version: u32,
    pub algorithm: KeyAlgorithm,
}

impl SignDataRequest {
    /// The signing input for `caller_service`, given what decoding the
    /// payload's Base64 gave: a decoding error is a validation error.
    pub fn input_from_decoded(
        self,
        caller_service: ServiceId,
        decoded: Result<Vec<u8>, String>,
    ) -> (r: AppResult<SignDataInput>)
        ensures
            match decoded {
                Ok(bytes) => r matches Ok(input) && input.caller_service@ == caller_service@
                    && input.target_service@ == self.target_service@ && input.algorithm
                    == self.algorithm && input.payload@ == bytes@ && input.key_version
                    == self.key_version,
                Err(e) => r matches Err(AppError::ValidationError(m)) && m@ == "Invalid payload_b64: "@
                    + e@,
            },
    {
        match decoded {
            Ok(bytes) => Ok(
                SignDataInput {
                    caller_service,
                    target_service: ServiceId(self.target_service),
                    algorithm: self.algorithm,
                    payload: bytes,
                    key_version: self.key_version,
                },
            ),
            Err(e) => Err(AppError::ValidationError(concat2("Invalid payload_b64: ", e.as_str()))),
        }
    }

    /// The signing input for `caller_service`: the payload is the standard
    /// Base64 decoding of `payload_b64`.
    pub fn into_input(self, caller_service: ServiceId) -> (r: AppResult<SignDataInput>)
        ensures
            match spec_base64_decode(encode_utf8(self.payload_b64@)) {
                Ok(bytes) => r matches Ok(input) && input.caller_service@ == caller_service@
                    && input.target_service@ == self.target_service@ && input.algorithm
                    == self.algorithm && input.payload@ == bytes && input.key_version
                    == self.key_version,
                Err(e) => r matches Err(AppError::ValidationError(m)) && m@ == "Invalid payload_b64: "@
                    + e,
            },
    {
        let decoded = base64_decode(self.payload_b64.as_str());
        self.input_from_decoded(caller_service, decoded)
    }
}

impl SignDataResponse {
    /// The answer for `output`: its signature in standard Base64.
    pub fn from_output(output: SignDataOutput) -> (r: SignDataResponse)
        ensures
            r.signature_b64@ == spec_base64_encode(output.signature_bytes@),
            r.key_version == output.key_version,
            r.algorithm == output.algorithm,
    {
        SignDataResponse {
            signature_b64: base64_encode(output.signature_bytes.as_slice()),
            key_version: output.key_version,
            algorithm: output.algorithm,
        }
    }
}

/// Body of a request to create a key.
pub struct GenerateKeyRequest {
    pub service_id: String,
    pub algorithm: KeyAlgorithm,
    pub purpose: KeyPurpose,
}

/// A key as shown to clients: no private material, the id as UUID text and
/// the creation time in RFC 3339.
pub struct KeyPairResponse {
    pub id: String,
    pub service_id: String,
    pub algorithm: KeyAlgorithm,
    pub purpose: KeyPurpose,
    pub public_key_pem: String,
    pub version: u32,
    pub status: KeyStatus,
    pub created_at: String,
}

impl KeyPairResponse {
    /// The view of `entity`, given the RFC 3339 text of its creation time
    /// (`None` when the time cannot be written as a date).
    pub fn from_entity_with(entity: KeyPairEntity, created_at: Option<String>) -> (r: AppResult<
        KeyPairResponse,
    >)
        ensures
            match created_at {
                Some(t) => r matches Ok(resp) && resp.id@ == spec_uuid_text(entity.id)
                    && resp.service_id@ == entity.service_id@ && resp.algorithm == entity.algorithm
                    && resp.purpose == entity.purpose && resp.public_key_pem@
                    == entity.public_key_pem@ && resp.version == entity.version && resp.status
                    == entity.status && resp.created_at@ == t@,
                None => r matches Err(AppError::Internal(m)) && m@
                    == "Key creation time is outside the supported date range"@,
            },
    {
        match created_at {
            None => Err(
                AppError::Internal(owned("Key creation time is outside the supported date range")),
            ),
            Some(t) => Ok(
                KeyPairResponse {
                    id: uuid_text(entity.id),
                    service_id: entity.service_id.0,
                    algorithm: entity.algorithm,
                    purpose: entity.purpose,
                    public_key_pem: entity.public_key_pem,
                    version: entity.version,
                    status: entity.status,
                    created_at: t,
                },
            ),
        }
    }

    /// The view of `entity`, its creation time in RFC 3339.
    pub fn from_entity(entity: KeyPairEntity) -> (r: AppResult<KeyPairResponse>)
        ensures
            match spec_rfc3339(entity.created_at) {
                Some(t) => r matches Ok(resp) && resp.id@ == spec_uuid_text(entity.id)
                    && resp.service_id@ == entity.service_id@ && resp.algorithm == entity.algorithm
                    && resp.purpose == entity.purpose && resp.public_key_pem@
                    == entity.public_key_pem@ && resp.version == entity.version && resp.status
                    == entity.status && resp.created_at@ == t,
                None => r matches Err(AppError::Internal(m)) && m@
                    == "Key creation time is outside the supported date range"@,
            },
    {
        let created_at = rfc3339_from_millis(entity.created_at);
        KeyPairResponse::from_entity_with(entity, created_at)
    }
}

/// Body of a rotation request.
pub struct RotateKeyRequest {
    pub service_id: String,
    pub algorithm: KeyAlgorithm,
    pub reason: RotationReason,
    pub actor_id: String,
}

impl RotateKeyRequest {
    /// The rotation input for `caller_service`.
    pub fn into_input(self, caller_service: ServiceId) -> (r: RotateKeyInput)
        ensures
            r.service_id@ == self.service_id@,
            r.algorithm == self.algorithm,
            r.caller_service@ == caller_service@,
            r.reason == self.reason,
            r.actor_id@ == self.actor_id@,
    {
        RotateKeyInput {
            service_id: ServiceId(self.service_id),
            algorithm: self.algorithm,
            caller_service,
            reason: self.reason,
            actor_id: self.actor_id,
        }
    }
}

/// Body of a request for a private key.
pub struct GetPrivateKeyRequest {
    pub service_id: String,
    pub algorithm: KeyAlgorithm,
}

impl GetPrivateKeyRequest {
    /// The private-key input for `caller_service`.
    pub fn into_input(self, caller_service: ServiceId) -> (r: GetPrivateKeyInput)
        ensures
            r.caller_service@ == caller_service@,
            r.target_service@ == self.service_id@,
            r.algorithm == self.algorithm,
    {
        GetPrivateKeyInput {
            caller_service,
            target_service: ServiceId(self.service_id),
            algorithm: self.algorithm,
        }
    }
}

/// A released private key as sent to the caller.
pub struct PrivateKeyResponse {
    pub service_id: String,
    pub algorithm: KeyAlgorithm,
    pub version: u32,
    pub private_key_bytes: Vec<u8>,
}

impl PrivateKeyResponse {
    /// The answer carrying `output`.
    pub fn from_output(output: GetPrivateKeyOutput) -> (r: PrivateKeyResponse)
        ensures
            r.service_id@ == output.service_id@,
            r.algorithm == output.algorithm,
            r.version == output.version,
            r.private_key_bytes@ == output.private_key_bytes@,
    {
        PrivateKeyResponse {
            service_id: output.service_id.0,
            algorithm: output.algorithm,
            version: output.version,
            private_key_bytes: output.private_key_bytes,
        }
    }
}

/// Body of a request for a symmetric key.
pub struct GetSymmetricKeyRequest {
    pub service_id: String,
    pub algorithm: KeyAlgorithm,
}

impl GetSymmetricKeyRequest {
    /// The symmetric-key input for `caller_service`.
    pub fn into_input(self, caller_service: ServiceId) -> (r: GetSymmetricKeyInput)
        ensures
            r.caller_service@ == caller_service@,
            r.target_service@ == self.service_id@,
            r.algorithm == self.algorithm,
    {
        GetSymmetricKeyInput {
            caller_service,
            target_service: ServiceId(self.service_id),
            algorithm: self.algorithm,
        }
    }
}

/// A released symmetric key as sent to the caller.
pub struct SymmetricKeyResponse {
    pub service_id: String,
    pub algorithm: KeyAlgorithm,
    pub version: u32,
    pub key_bytes: Vec<u8>,
}

impl SymmetricKeyResponse {
    /// The answer carrying `output`.
    pub fn from_output(output: GetSymmetricKeyOutput) -> (r: SymmetricKeyResponse)
        ensures
            r.service_id@ == output.service_id@,
            r.algorithm == output.algorithm,
            r.version == output.version,
            r.key_bytes@ == output.key_bytes@,
    {
        SymmetricKeyResponse {
            service_id: output.service_id.0,
            algorithm: output.algorithm,
            version: output.version,
            key_bytes: output.key_bytes,
        }
    }
}

/// Body of a request to unlock the key store with custodians' shares.
pub struct UnlockRequest {
    pub shares: Vec<String>,
}

/// The error an unlock request is answered with when the storage key could
/// not be recovered, `reason` saying why.
pub fn unlock_failure(reason: &str) -> (r: AppError)
    ensures
        r matches AppError::RuntimeError(m) && m@ == "Failed to recover storage key: "@ + reason@,
{
    AppError::RuntimeError(concat2("Failed to recover storage key: ", reason))
}

/// Body of a request to re-seal stored keys under a master key.
pub struct RewrapKeysRequest {
    pub target_version: i32,
    pub batch_size: usize,
}

impl RewrapKeysRequest {
    /// The re-seal input this request asks for.
    pub fn to_input(&self) -> (r: RewrapKeysInput)
        ensures
            r.target_master_version == self.target_version,
            r.batch_size == self.batch_size,
    {
        RewrapKeysInput { target_master_version: self.target_version, batch_size: self.batch_size }
    }
}

/// What probing the cache gave.
pub enum RedisProbe {
    /// A client is connected and answered the ping in time.
    Answered,
    /// A client is connected but the ping failed or timed out.
    Failed,
    /// No client is connected; `enabled` says whether the cache is configured on.
    NotConnected { enabled: bool },
}

/// The health report body.
pub struct HealthResponse {
    pub status: &'static str,
    pub database: &'static str,
    pub redis: &'static str,
    pub kms: &'static str,
}

/// The cache's state in the health report.
pub open spec fn spec_redis_label(probe: RedisProbe) -> Seq<char> {
    match probe {
        RedisProbe::Answered => "ok"@,
        RedisProbe::Failed => "error"@,
        RedisProbe::NotConnected { enabled } => if enabled {
            "error"@
        } else {
            "disabled"@
        },
    }
}

/// Whether the service counts as healthy: the database answered, and the
/// cache answered or is switched off.
pub open spec fn spec_healthy(database_ok: bool, probe: RedisProbe) -> bool {
    database_ok && (probe is Answered || probe == (RedisProbe::NotConnected { enabled: false }))
}

/// The health report for the probes' results and the lock state: 200 when
/// healthy, 503 otherwise.
pub fn health_report(database_ok: bool, redis: RedisProbe, unlocked: bool) -> (r: (u16, HealthResponse))
    ensures
        r.0 == (if spec_healthy(database_ok, redis) {
            200u16
        } else {
            503u16
        }),
        r.1.status@ == (if spec_healthy(database_ok, redis) {
            "ok"@
        } else {
            "degraded"@
        }),
        r.1.database@ == (if database_ok {
            "ok"@
        } else {
            "error"@
        }),
        r.1.redis@ == spec_redis_label(redis),
        r.1.kms@ == (if unlocked {
            "ready"@
        } else {
            "locked"@
        }),
{
    let redis_ok: bool;
    let redis_status: &'static str = match redis {
        RedisProbe::Answered => {
            redis_ok = true;
            "ok"
        },
        RedisProbe::Failed => {
            redis_ok = false;
            "error"
        },
        RedisProbe::NotConnected { enabled } => if enabled {
            redis_ok = false;
            "error"
        } else {
            redis_ok = true;
            "disabled"
        },
    };
    let database: &'static str = if database_ok {
        "ok"
    } else {
        "error"
    };
    let kms: &'static str = if unlocked {
        "ready"
    } else {
        "locked"
    };
    let healthy = database_ok && redis_ok;
    let code: u16 = if healthy {
        200
    } else {
        503
    };
    let status: &'static str = if healthy {
        "ok"
    } else {
        "degraded"
    };
    (code, HealthResponse { status, database, redis: redis_status, kms })
}

/// The key store's lock state as reported: `READY` when unlocked, `LOCKED` otherwise.
pub fn lock_status(unlocked: bool) -> (r: &'static str)
    ensures
        r@ == (if unlocked {
            "READY"@
        } else {
            "LOCKED"@
        }),
{
    if unlocked {
        "READY"
    } else {
        "LOCKED"
    }
}

} // verus!
