//! Signing payloads with a service's Ed25519 key on its behalf, without the
//! private key leaving the service. Decided in two steps around the key
//! lookup; every outcome is recorded in the audit log.
use crate::acl::{spec_is_allowed, AclSettings, KeyAccessLevel};
use crate::audit::{spec_event_is, AuditAction, AuditEvent, AuditStatus};
use crate::errors::{AppError, AppResult};
use crate::keys::{KeyAlgorithm, KeyPairEntity, ServiceId};
use crate::kms::{spec_open_error_text, KmsCryptoService, OpenOutcome};
use crate::primitives::{ed25519_sign, spec_ed25519_sign, wipe};
use crate::text::owned;
use std::sync::Arc;
use vstd::prelude::*;

verus! {

/// A request to sign `payload` with `target_service`'s key: the active key,
/// or the key of `key_version` when one is given.
pub struct SignDataInput {
    pub caller_service: ServiceId,
    pub target_service: ServiceId,
    pub algorithm: KeyAlgorithm,
    pub payload: Vec<u8>,
    pub key_version: Option<u32>,
}

/// A signature with the key it was made with.
pub struct SignDataOutput {
    pub service_id: ServiceId,
    pub algorithm: KeyAlgorithm,
    pub key_version: u32,
    pub signature_bytes: Vec<u8>,
}

/// Which stored key a signing request is to be signed with.
pub enum SigningKeyLookup {
    /// The key of this version.
    Version(u32),
    /// The active key.
    Active,
}

/// Signs on behalf of services the access-control list allows.
pub struct SignDataUseCase {
    pub crypto_service: Arc<KmsCryptoService>,
    pub acl_settings: Arc<AclSettings>,
}

impl SignDataUseCase {
    pub fn new(crypto_service: Arc<KmsCryptoService>, acl_settings: Arc<AclSettings>) -> (r: Self)
        ensures
            r.crypto_service == crypto_service,
            r.acl_settings == acl_settings,
    {
        SignDataUseCase { crypto_service, acl_settings }
    }

    /// The first step: `None` when the request may proceed to the key lookup.
    /// Only Ed25519 keys sign; the caller needs private-key access to the target.
    pub fn authorize(&self, input: &SignDataInput) -> (r: Option<(AuditEvent, AppError)>)
        ensures
            input.algorithm != KeyAlgorithm::Ed25519 ==> (r matches Some((ev, err)) && (
            err matches AppError::ValidationError(m) && m@
                == "Signing endpoint supports only Ed25519 keys"@) && spec_event_is(
                ev,
                input.caller_service@,
                input.target_service@,
                AuditAction::SignData,
                input.algorithm,
                AuditStatus::Failure,
                Some("Only Ed25519 signing is supported"@),
            )),
            input.algorithm == KeyAlgorithm::Ed25519 ==> (r is None <==> spec_is_allowed(
                *self.acl_settings,
                input.caller_service@,
                input.target_service@,
                input.algorithm,
                KeyAccessLevel::PrivateKey,
            )),
            input.algorithm == KeyAlgorithm::Ed25519 ==> (r matches Some((ev, err))
                ==> err is Unauthorized && spec_event_is(
                ev,
                input.caller_service@,
                input.target_service@,
                AuditAction::SignData,
                input.algorithm,
                AuditStatus::AccessDenied,
                Some("ACL Policy Violation"@),
            )),
    {
        if input.algorithm != KeyAlgorithm::Ed25519 {
            let ev = AuditEvent::with_reason(
                &input.caller_service,
                &input.target_service,
                AuditAction::SignData,
                input.algorithm,
                AuditStatus::Failure,
                "Only Ed25519 signing is supported",
            );
            return Some(
                (ev, AppError::ValidationError(owned("Signing endpoint supports only Ed25519 keys"))),
            );
        }
        let allowed = self.acl_settings.is_allowed(
            &input.caller_service,
            &input.target_service,
            input.algorithm,
            &KeyAccessLevel::PrivateKey,
        );
        if !allowed {
            let ev = AuditEvent::with_reason(
                &input.caller_service,
                &input.target_service,
                AuditAction::SignData,
                input.algorithm,
                AuditStatus::AccessDenied,
                "ACL Policy Violation",
            );
            return Some((ev, AppError::Unauthorized));
        }
        None
    }

    /// The key a request let through is to be signed with: the one of the
    /// version it names, or else the active one.
    pub fn key_lookup(&self, input: &SignDataInput) -> (r: SigningKeyLookup)
        ensures
            match input.key_version {
                Some(v) => r == SigningKeyLookup::Version(v),
                None => r == SigningKeyLookup::Active,
            },
    {
        match input.key_version {
            Some(v) => SigningKeyLookup::Version(v),
            None => SigningKeyLookup::Active,
        }
    }

    /// The second step, taken only for a request `authorize` let through,
    /// given the key found for the request (if any): decrypt
    /// it, sign with its first 32 bytes and wipe the key material. Returns what
    /// to record and the answer.
    pub fn complete(&self, input: &SignDataInput, key: Option<KeyPairEntity>) -> (r: (
        AuditEvent,
        AppResult<SignDataOutput>,
    ))
        requires
            input.algorithm == KeyAlgorithm::Ed25519,
            spec_is_allowed(
                *self.acl_settings,
                input.caller_service@,
                input.target_service@,
                input.algorithm,
                KeyAccessLevel::PrivateKey,
            ),
        ensures
            match key {
                None => spec_event_is(
                    r.0,
                    input.caller_service@,
                    input.target_service@,
                    AuditAction::SignData,
                    input.algorithm,
                    AuditStatus::NotFound,
                    Some("Signing key not found"@),
                ) && (r.1 matches Err(AppError::NotFound(m)) && m@ == "Signing key not found"@),
                Some(k) => match self.crypto_service.spec_open(k.encrypted_private_key@) {
                    OpenOutcome::Plain(p) => if p.len() < 32 {
                        spec_event_is(
                            r.0,
                            input.caller_service@,
                            input.target_service@,
                            AuditAction::SignData,
                            input.algorithm,
                            AuditStatus::Failure,
                            Some("Invalid Ed25519 private key length"@),
                        ) && (r.1 matches Err(AppError::CryptoError(m)) && m@
                            == "Invalid Ed25519 private key length"@)
                    } else {
                        spec_event_is(
                            r.0,
                            input.caller_service@,
                            input.target_service@,
                            AuditAction::SignData,
                            input.algorithm,
                            AuditStatus::Success,
                            None,
                        ) && (r.1 matches Ok(out) && out.service_id@ == k.service_id@
                            && out.algorithm == k.algorithm && out.key_version == k.version
                            && out.signature_bytes@ == spec_ed25519_sign(
                            p.subrange(0, 32),
                            input.payload@,
                        ) && out.signature_bytes@.len() == 64)
                    },
                    o => spec_event_is(
                        r.0,
                        input.caller_service@,
                        input.target_service@,
                        AuditAction::SignData,
                        input.algorithm,
                        AuditStatus::Failure,
                        Some("Błąd kryptograficzny: "@ + spec_open_error_text(o)),
                    ) && (r.1 matches Err(AppError::CryptoError(m)) && m@ == spec_open_error_text(
                        o,
                    )),
                },
            },
    {
        let key = match key {
            None => {
                let ev = AuditEvent::with_reason(
                    &input.caller_service,
                    &input.target_service,
                    AuditAction::SignData,
                    input.algorithm,
                    AuditStatus::NotFound,
                    "Signing key not found",
                );
                return (ev, Err(AppError::NotFound(owned("Signing key not found"))));
            },
            Some(k) => k,
        };
        let mut private_key_bytes = match self.crypto_service.decrypt_private_key(
            &key.encrypted_private_key,
        ) {
            Ok(bytes) => bytes,
            Err(err) => {
                let ev = AuditEvent::new(
                    &input.caller_service,
                    &input.target_service,
                    AuditAction::SignData,
                    input.algorithm,
                    AuditStatus::Failure,
                    Some(err.message()),
                );
                return (ev, Err(err));
            },
        };
        if private_key_bytes.len() < 32 {
            wipe(&mut private_key_bytes);
            let ev = AuditEvent::with_reason(
                &input.caller_service,
                &input.target_service,
                AuditAction::SignData,
                input.algorithm,
                AuditStatus::Failure,
                "Invalid Ed25519 private key length",
            );
            return (ev, Err(AppError::CryptoError(owned("Invalid Ed25519 private key length"))));
        }
        let mut secret: Vec<u8> = Vec::new();
        let mut i: usize = 0;
        while i < 32
            invariant
                32 <= private_key_bytes@.len(),
                i <= 32,
                secret@ == private_key_bytes@.subrange(0, i as int),
            decreases 32 - i,
        {
            secret.push(private_key_bytes[i]);
            i = i + 1;
        }
        let signature = ed25519_sign(secret.as_slice(), input.payload.as_slice());
        wipe(&mut secret);
        wipe(&mut private_key_bytes);
        let ev = AuditEvent::new(
            &input.caller_service,
            &input.target_service,
            AuditAction::SignData,
            input.algorithm,
            AuditStatus::Success,
            None,
        );
        let out = SignDataOutput {
            service_id: key.service_id,
            algorithm: key.algorithm,
            key_version: key.version,
            signature_bytes: signature,
        };
        (ev, Ok(out))
    }
}

} // verus!
