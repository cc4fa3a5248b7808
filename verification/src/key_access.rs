//! Handing out key material: private keys and symmetric keys to authorised
//! callers, public keys to anyone. Each request is decided in two steps
//! around the key lookup: `authorize` before it, `complete` after it; every
//! step that ends the request says what to record in the audit log.
use crate::acl::{spec_is_allowed, AclSettings, KeyAccessLevel};
use crate::audit::{spec_event_is, AuditAction, AuditEvent, AuditStatus};
use crate::errors::{AppError, AppResult};
use crate::keys::{spec_algorithm_name, KeyAlgorithm, KeyPairEntity, KeyPairView, ServiceId};
use crate::kms::{spec_open_error_text, KmsCryptoService, OpenOutcome};
use crate::text::{concat2, concat5, owned};
use std::sync::Arc;
use vstd::prelude::*;

verus! {

/// A request for the private key of `target_service`'s `algorithm` key.
pub struct GetPrivateKeyInput {
    pub caller_service: ServiceId,
    pub target_service: ServiceId,
    pub algorithm: KeyAlgorithm,
}

/// A released private key.
pub struct GetPrivateKeyOutput {
    pub service_id: ServiceId,
    pub algorithm: KeyAlgorithm,
    pub version: u32,
    pub private_key_bytes: Vec<u8>,
}

/// A request for the symmetric key of `target_service`'s `algorithm` key.
pub struct GetSymmetricKeyInput {
    pub caller_service: ServiceId,
    pub target_service: ServiceId,
    pub algorithm: KeyAlgorithm,
}

/// A released symmetric key.
pub struct GetSymmetricKeyOutput {
    pub service_id: ServiceId,
    pub algorithm: KeyAlgorithm,
    pub version: u32,
    pub key_bytes: Vec<u8>,
}

/// A request for the public key of `service_id`'s `algorithm` key.
pub struct GetPublicKeyInput {
    pub service_id: ServiceId,
    pub algorithm: KeyAlgorithm,
}

/// Releases private keys to callers the access-control list allows.
pub struct GetPrivateKeyUseCase {
    pub crypto_service: Arc<KmsCryptoService>,
    pub acl_settings: Arc<AclSettings>,
}

/// Releases symmetric keys to callers the access-control list allows.
pub struct GetSymmetricKeyUseCase {
    pub crypto_service: Arc<KmsCryptoService>,
    pub acl: Arc<AclSettings>,
}

/// Looks up public keys.
pub struct GetPublicKeyUseCase;

/// Whether `out` releases the key `k` with the plaintext `p`.
pub open spec fn spec_released(
    k: KeyPairView,
    p: Seq<u8>,
    service_id: Seq<char>,
    algorithm: KeyAlgorithm,
    version: u32,
    bytes: Seq<u8>,
) -> bool {
    &&& service_id == k.service_id
    &&& algorithm == k.algorithm
    &&& version == k.version
    &&& bytes == p
}

impl GetPrivateKeyUseCase {
    pub fn new(crypto_service: Arc<KmsCryptoService>, acl_settings: Arc<AclSettings>) -> (r: Self)
        ensures
            r.crypto_service == crypto_service,
            r.acl_settings == acl_settings,
    {
        GetPrivateKeyUseCase { crypto_service, acl_settings }
    }

    /// The first step: `None` when the caller may obtain the private key;
    /// otherwise the access-denied record and `Unauthorized`.
    pub fn authorize(&self, input: &GetPrivateKeyInput) -> (r: Option<(AuditEvent, AppError)>)
        ensures
            r is None <==> spec_is_allowed(
                *self.acl_settings,
                input.caller_service@,
                input.target_service@,
                input.algorithm,
                KeyAccessLevel::PrivateKey,
            ),
            r matches Some((ev, err)) ==> err is Unauthorized && spec_event_is(
                ev,
                input.caller_service@,
                input.target_service@,
                AuditAction::GetPrivateKey,
                input.algorithm,
                AuditStatus::AccessDenied,
                Some("ACL Policy Violation"@),
            ),
    {
        let allowed = self.acl_settings.is_allowed(
            &input.caller_service,
            &input.target_service,
            input.algorithm,
            &KeyAccessLevel::PrivateKey,
        );
        if !allowed {
            let ev = AuditEvent::with_reason(
                &input.caller_service,
                &input.target_service,
                AuditAction::GetPrivateKey,
                input.algorithm,
                AuditStatus::AccessDenied,
                "ACL Policy Violation",
            );
            return Some((ev, AppError::Unauthorized));
        }
        None
    }

    /// The second step, taken only for a request `authorize` let through,
    /// given the active key of the target (if there is one): decrypt it and
    /// release it. Returns what to record (nothing when
    /// decryption fails) and the answer.
    pub fn complete(&self, input: &GetPrivateKeyInput, active_key: Option<KeyPairEntity>) -> (r: (
        Option<AuditEvent>,
        AppResult<GetPrivateKeyOutput>,
    ))
        requires
            spec_is_allowed(
                *self.acl_settings,
                input.caller_service@,
                input.target_service@,
                input.algorithm,
                KeyAccessLevel::PrivateKey,
            ),
        ensures
            match active_key {
                None => r.0 matches Some(ev) && spec_event_is(
                    ev,
                    input.caller_service@,
                    input.target_service@,
                    AuditAction::GetPrivateKey,
                    input.algorithm,
                    AuditStatus::NotFound,
                    Some("Key does not exist"@),
                ) && (r.1 matches Err(AppError::NotFound(m)) && m@ == "Key not found"@),
                Some(k) => match self.crypto_service.spec_open(k.encrypted_private_key@) {
                    OpenOutcome::Plain(p) => r.0 matches Some(ev) && spec_event_is(
                        ev,
                        input.caller_service@,
                        input.target_service@,
                        AuditAction::GetPrivateKey,
                        input.algorithm,
                        AuditStatus::Success,
                        None,
                    ) && (r.1 matches Ok(out) && spec_released(
                        k@,
                        p,
                        out.service_id@,
                        out.algorithm,
                        out.version,
                        out.private_key_bytes@,
                    )),
                    o => r.0 is None && (r.1 matches Err(AppError::CryptoError(m)) && m@
                        == spec_open_error_text(o)),
                },
            },
    {
        let key = match active_key {
            None => {
                let ev = AuditEvent::with_reason(
                    &input.caller_service,
                    &input.target_service,
                    AuditAction::GetPrivateKey,
                    input.algorithm,
                    AuditStatus::NotFound,
                    "Key does not exist",
                );
                return (Some(ev), Err(AppError::NotFound(owned("Key not found"))));
            },
            Some(k) => k,
        };
        let decrypted = match self.crypto_service.decrypt_private_key(&key.encrypted_private_key) {
            Err(e) => return (None, Err(e)),
            Ok(p) => p,
        };
        let ev = AuditEvent::new(
            &input.caller_service,
            &input.target_service,
            AuditAction::GetPrivateKey,
            input.algorithm,
            AuditStatus::Success,
            None,
        );
        let out = GetPrivateKeyOutput {
            service_id: key.service_id,
            algorithm: key.algorithm,
            version: key.version,
            private_key_bytes: decrypted,
        };
        (Some(ev), Ok(out))
    }
}

impl GetSymmetricKeyUseCase {
    pub fn new(crypto_service: Arc<KmsCryptoService>, acl: Arc<AclSettings>) -> (r: Self)
        ensures
            r.crypto_service == crypto_service,
            r.acl == acl,
    {
        GetSymmetricKeyUseCase { crypto_service, acl }
    }

    /// The first step: `None` when the caller may obtain the symmetric key;
    /// otherwise the access-denied record and `Unauthorized`.
    pub fn authorize(&self, input: &GetSymmetricKeyInput) -> (r: Option<(AuditEvent, AppError)>)
        ensures
            r is None <==> spec_is_allowed(
                *self.acl,
                input.caller_service@,
                input.target_service@,
                input.algorithm,
                KeyAccessLevel::SymmetricKey,
            ),
            r matches Some((ev, err)) ==> err is Unauthorized && spec_event_is(
                ev,
                input.caller_service@,
                input.target_service@,
                AuditAction::GetSymmetricKey,
                input.algorithm,
                AuditStatus::AccessDenied,
                Some("ACL Policy Violation for Symmetric Key"@),
            ),
    {
        let allowed = self.acl.is_allowed(
            &input.caller_service,
            &input.target_service,
            input.algorithm,
            &KeyAccessLevel::SymmetricKey,
        );
        if !allowed {
            let ev = AuditEvent::with_reason(
                &input.caller_service,
                &input.target_service,
                AuditAction::GetSymmetricKey,
                input.algorithm,
                AuditStatus::AccessDenied,
                "ACL Policy Violation for Symmetric Key",
            );
            return Some((ev, AppError::Unauthorized));
        }
        None
    }

    /// The second step, taken only for a request `authorize` let through,
    /// given the active key of the target (if there is one): decrypt it and
    /// release it. Returns what to record (nothing when
    /// decryption fails) and the answer.
    pub fn complete(&self, input: &GetSymmetricKeyInput, active_key: Option<KeyPairEntity>) -> (r: (
        Option<AuditEvent>,
        AppResult<GetSymmetricKeyOutput>,
    ))
        requires
            spec_is_allowed(
                *self.acl,
                input.caller_service@,
                input.target_service@,
                input.algorithm,
                KeyAccessLevel::SymmetricKey,
            ),
        ensures
            match active_key {
                None => r.0 matches Some(ev) && spec_event_is(
                    ev,
                    input.caller_service@,
                    input.target_service@,
                    AuditAction::GetSymmetricKey,
                    input.algorithm,
                    AuditStatus::NotFound,
                    Some("Symmetric Key does not exist"@),
                ) && (r.1 matches Err(AppError::NotFound(m)) && m@
                    == "Brak aktywnego klucza symetrycznego dla "@ + input.target_service@),
                Some(k) => match self.crypto_service.spec_open(k.encrypted_private_key@) {
                    OpenOutcome::Plain(p) => r.0 matches Some(ev) && spec_event_is(
                        ev,
                        input.caller_service@,
                        input.target_service@,
                        AuditAction::GetSymmetricKey,
                        input.algorithm,
                        AuditStatus::Success,
                        None,
                    ) && (r.1 matches Ok(out) && spec_released(
                        k@,
                        p,
                        out.service_id@,
                        out.algorithm,
                        out.version,
                        out.key_bytes@,
                    )),
                    o => r.0 is None && (r.1 matches Err(AppError::CryptoError(m)) && m@
                        == spec_open_error_text(o)),
                },
            },
    {
        let key = match active_key {
            None => {
                let ev = AuditEvent::with_reason(
                    &input.caller_service,
                    &input.target_service,
                    AuditAction::GetSymmetricKey,
                    input.algorithm,
                    AuditStatus::NotFound,
                    "Symmetric Key does not exist",
                );
                let msg = concat2(
                    "Brak aktywnego klucza symetrycznego dla ",
                    input.target_service.as_str(),
                );
                return (Some(ev), Err(AppError::NotFound(msg)));
            },
            Some(k) => k,
        };
        let decrypted = match self.crypto_service.decrypt_private_key(&key.encrypted_private_key) {
            Err(e) => return (None, Err(e)),
            Ok(p) => p,
        };
        let ev = AuditEvent::new(
            &input.caller_service,
            &input.target_service,
            AuditAction::GetSymmetricKey,
            input.algorithm,
            AuditStatus::Success,
            None,
        );
        let out = GetSymmetricKeyOutput {
            service_id: key.service_id,
            algorithm: key.algorithm,
            version: key.version,
            key_bytes: decrypted,
        };
        (Some(ev), Ok(out))
    }
}

/// The message when no public key can be handed out.
pub open spec fn spec_no_public_key_text(service: Seq<char>, algorithm: KeyAlgorithm) -> Seq<char> {
    "No active or valid deprecated public key found for service '"@ + service
        + "' with algorithm '"@ + spec_algorithm_name(algorithm) + "'"@
}

impl GetPublicKeyUseCase {
    pub fn new() -> (r: Self) {
        GetPublicKeyUseCase
    }

    /// The answer, given the key the store holds for the service as active or
    /// deprecated but still valid at the current time (if any).
    pub fn complete(&self, input: &GetPublicKeyInput, found: Option<KeyPairEntity>) -> (r: AppResult<
        KeyPairEntity,
    >)
        ensures
            match found {
                Some(k) => r matches Ok(out) && out@ == k@,
                None => r matches Err(AppError::NotFound(m)) && m@ == spec_no_public_key_text(
                    input.service_id@,
                    input.algorithm,
                ),
            },
    {
        match found {
            Some(k) => Ok(k),
            None => {
                let msg = concat5(
                    "No active or valid deprecated public key found for service '",
                    input.service_id.as_str(),
                    "' with algorithm '",
                    input.algorithm.name(),
                    "'",
                );
                Err(AppError::NotFound(msg))
            },
        }
    }
}

} // verus!
