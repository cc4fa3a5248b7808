//! Key life cycle: creating the keys the access-control list refers to,
//! rotating a service's key, and re-sealing stored keys under a new master key.
use crate::acl::{spec_has_control_action, AccessRule, AclSettings, ControlAction, ServiceEntry};
use crate::audit::{spec_event_is, AuditAction, AuditEvent, AuditStatus};
use crate::config::GracePeriodMinutes;
use crate::errors::{AppError, AppResult};
use crate::ids::{new_uuid_v7, now_millis};
use crate::keys::{
    law_default_purpose_follows_algorithm, spec_algorithm_name, spec_default_purpose, spec_reason_name,
    EncryptedPrivateKey, KeyAlgorithm, KeyPairEntity, KeyPurpose, KeyStatus, RotationReason, ServiceId,
};
use crate::kms::{spec_fresh_key, spec_generation_error, spec_open_error_text, KmsCryptoService, OpenOutcome};
use crate::primitives::wipe;
use crate::text::{concat2, concat3, concat4, concat5, i64_to_decimal, owned, spec_signed_decimal};
use std::sync::Arc;
use vstd::prelude::*;

verus! {

/// Milliseconds in a minute.
pub const MILLIS_PER_MINUTE: i64 = 60000;

/// A request to rotate `service_id`'s `algorithm` key.
pub struct RotateKeyInput {
    pub service_id: ServiceId,
    pub algorithm: KeyAlgorithm,
    pub caller_service: ServiceId,
    pub reason: RotationReason,
    pub actor_id: String,
}

/// What happens to the key being rotated out.
pub enum StatusChange {
    /// It stays usable for verification until `valid_until`, if it is still active.
    Deprecate { key_id: u128, valid_until: i64 },
    /// It is marked compromised at once.
    MarkCompromised { key_id: u128 },
}

/// Rotates keys for callers allowed to.
pub struct RotateKeyUseCase {
    pub crypto_service: Arc<KmsCryptoService>,
    pub grace_period_minutes: GracePeriodMinutes,
    pub acl_settings: Arc<AclSettings>,
}

/// The control action a rotation needs: rotating one's own keys, or anyone's.
pub open spec fn spec_required_action(service: Seq<char>, caller: Seq<char>) -> ControlAction {
    if service == caller {
        ControlAction::RotateOwnKeys
    } else {
        ControlAction::RotateAllKeys
    }
}

/// The message when there is no active key to rotate.
pub open spec fn spec_nothing_to_rotate_text(service: Seq<char>, algorithm: KeyAlgorithm) -> Seq<char> {
    "Cannot rotate key: No active key exists for service '"@ + service + "' with algorithm '"@
        + spec_algorithm_name(algorithm) + "'"@
}

/// Whether a deprecation deadline `grace` minutes after `now` is representable.
pub open spec fn spec_deadline_fits(now: i64, grace: i64) -> bool {
    &&& i64::MIN <= grace * 60000 <= i64::MAX
    &&& i64::MIN <= now + grace * 60000 <= i64::MAX
}

/// Whether `e` is a freshly created key `id` for `service`/`algorithm` with
/// `purpose`, `version` and creation time `now`, holding a new secret sealed by
/// `crypto`: active, without expiry.
pub open spec fn spec_new_key(
    crypto: &KmsCryptoService,
    e: KeyPairEntity,
    id: u128,
    service: Seq<char>,
    algorithm: KeyAlgorithm,
    purpose: crate::keys::KeyPurpose,
    version: u32,
    now: i64,
) -> bool {
    &&& e.id == id
    &&& e.service_id@ == service
    &&& e.algorithm == algorithm
    &&& e.purpose == purpose
    &&& e.version == version
    &&& e.status == KeyStatus::Active
    &&& e.created_at == now
    &&& e.expires_at is None
    &&& exists|sk: Seq<u8>|
        spec_fresh_key(algorithm, sk, e.public_key_pem@) && crypto.spec_sealed(
            sk,
            #[trigger] e.encrypted_private_key@,
        )
}

/// Generates key material for `algorithm`, seals it and builds the stored key.
fn seal_new_key(
    crypto: &KmsCryptoService,
    id: u128,
    service: &ServiceId,
    algorithm: KeyAlgorithm,
    purpose: crate::keys::KeyPurpose,
    version: u32,
    now: i64,
) -> (r: AppResult<KeyPairEntity>)
    ensures
        r matches Ok(e) ==> spec_new_key(crypto, e, id, service@, algorithm, purpose, version, now),
        r matches Err(e) ==> (e matches AppError::CryptoError(m) && spec_generation_error(algorithm, m@)),
{
    let mut material = crypto.generate_key_material(algorithm)?;
    let sealed = match crypto.encrypt_private_key(material.private_key_bytes.as_slice()) {
        Ok(s) => s,
        Err(e) => {
            wipe(&mut material.private_key_bytes);
            return Err(e);
        },
    };
    let ghost sk = material.private_key_bytes@;
    wipe(&mut material.private_key_bytes);
    let e = KeyPairEntity {
        id,
        service_id: service.duplicate(),
        algorithm,
        purpose,
        public_key_pem: material.public_key_pem,
        encrypted_private_key: sealed,
        version,
        status: KeyStatus::Active,
        created_at: now,
        expires_at: None,
    };
    assert(spec_fresh_key(algorithm, sk, e.public_key_pem@) && crypto.spec_sealed(
        sk,
        e.encrypted_private_key@,
    ));
    Ok(e)
}

impl RotateKeyUseCase {
    pub fn new(
        crypto_service: Arc<KmsCryptoService>,
        grace_period_minutes: GracePeriodMinutes,
        acl_settings: Arc<AclSettings>,
    ) -> (r: Self)
        ensures
            r.crypto_service == crypto_service,
            r.grace_period_minutes == grace_period_minutes,
            r.acl_settings == acl_settings,
    {
        RotateKeyUseCase { crypto_service, grace_period_minutes, acl_settings }
    }

    /// The first step: a caller may rotate its own keys with `RotateOwnKeys`
    /// and another service's keys with `RotateAllKeys`; anything else is `Unauthorized`.
    pub fn authorize(&self, input: &RotateKeyInput) -> (r: AppResult<()>)
        ensures
            r is Ok <==> spec_has_control_action(
                *self.acl_settings,
                input.caller_service@,
                spec_required_action(input.service_id@, input.caller_service@),
            ),
            r matches Err(e) ==> e is Unauthorized,
    {
        let required = if input.service_id.same(&input.caller_service) {
            ControlAction::RotateOwnKeys
        } else {
            ControlAction::RotateAllKeys
        };
        if !self.acl_settings.has_control_action(&input.caller_service, &required) {
            return Err(AppError::Unauthorized);
        }
        Ok(())
    }

    /// The second step, given the active key of the service (if any): what
    /// happens to it. Scheduled and manual rotations deprecate it until the
    /// grace period after `now` has passed (that deadline must be
    /// representable); a compromise marks it at once.
    pub fn plan_status_change(
        &self,
        input: &RotateKeyInput,
        active_key: &Option<KeyPairEntity>,
        now: i64,
    ) -> (r: AppResult<StatusChange>)
        requires
            active_key is Some && input.reason != RotationReason::Compromised ==> spec_deadline_fits(
                now,
                self.grace_period_minutes.0,
            ),
        ensures
            match active_key {
                None => r matches Err(AppError::NotFound(m)) && m@ == spec_nothing_to_rotate_text(
                    input.service_id@,
                    input.algorithm,
                ),
                Some(k) => match input.reason {
                    RotationReason::Compromised => r matches Ok(
                        StatusChange::MarkCompromised { key_id },
                    ) && key_id == k.id,
                    _ => r matches Ok(StatusChange::Deprecate { key_id, valid_until })
                        && key_id == k.id && valid_until == now + self.grace_period_minutes.0
                        * 60000,
                },
            },
    {
        let key = match active_key {
            None => {
                let msg = concat5(
                    "Cannot rotate key: No active key exists for service '",
                    input.service_id.as_str(),
                    "' with algorithm '",
                    input.algorithm.name(),
                    "'",
                );
                return Err(AppError::NotFound(msg));
            },
            Some(k) => k,
        };
        match input.reason {
            RotationReason::Compromised => Ok(StatusChange::MarkCompromised { key_id: key.id }),
            _ => {
                let grace = self.grace_period_minutes.minutes();
                Ok(
                    StatusChange::Deprecate {
                        key_id: key.id,
                        valid_until: now + grace * MILLIS_PER_MINUTE,
                    },
                )
            },
        }
    }

    /// The answer to the compare-and-set that deprecates the old key: a lost
    /// race (`false`) is a conflict.
    pub fn deprecation_outcome(&self, updated: bool) -> (r: AppResult<()>)
        ensures
            r is Ok <==> updated,
            r matches Err(e) ==> e matches AppError::Conflict(m) && m@
                == "Failed to deprecate key: concurrent modification"@,
    {
        if !updated {
            return Err(AppError::Conflict(owned("Failed to deprecate key: concurrent modification")));
        }
        Ok(())
    }

    /// The third step: the successor of `active_key`, with id `id` and
    /// creation time `now`. It keeps the service, algorithm and purpose, has
    /// the next version, is active and holds a new secret sealed under the
    /// current master key.
    pub fn build_rotated_key(
        &self,
        input: &RotateKeyInput,
        active_key: &KeyPairEntity,
        id: u128,
        now: i64,
    ) -> (r: AppResult<KeyPairEntity>)
        requires
            active_key.version < u32::MAX,
        ensures
            r matches Ok(e) ==> spec_new_key(
                &*self.crypto_service,
                e,
                id,
                input.service_id@,
                input.algorithm,
                active_key.purpose,
                (active_key.version + 1) as u32,
                now,
            ),
            r matches Err(e) ==> (e matches AppError::CryptoError(m) && spec_generation_error(input.algorithm, m@)),
    {
        seal_new_key(
            &*self.crypto_service,
            id,
            &input.service_id,
            input.algorithm,
            active_key.purpose,
            active_key.version + 1,
            now,
        )
    }

    /// The successor of `active_key`, created now under a new time-ordered id;
    /// see [`RotateKeyUseCase::build_rotated_key`].
    pub fn rotated_key(&self, input: &RotateKeyInput, active_key: &KeyPairEntity) -> (r: AppResult<
        KeyPairEntity,
    >)
        requires
            active_key.version < u32::MAX,
        ensures
            r matches Ok(e) ==> spec_new_key(
                &*self.crypto_service,
                e,
                e.id,
                input.service_id@,
                input.algorithm,
                active_key.purpose,
                (active_key.version + 1) as u32,
                e.created_at,
            ),
            r matches Err(e) ==> (e matches AppError::CryptoError(m) && spec_generation_error(input.algorithm, m@)),
    {
        let id = new_uuid_v7();
        let now = now_millis();
        self.build_rotated_key(input, active_key, id, now)
    }

    /// The record of a completed rotation: by and on the rotated service, with
    /// the reason and the actor.
    pub fn rotation_event(&self, input: &RotateKeyInput) -> (r: AuditEvent)
        ensures
            spec_event_is(
                r,
                input.service_id@,
                input.service_id@,
                AuditAction::KeyRotated,
                input.algorithm,
                AuditStatus::Success,
                Some(spec_reason_name(input.reason) + "; actor="@ + input.actor_id@),
            ),
    {
        let reason = concat3(input.reason.name(), "; actor=", input.actor_id.as_str());
        AuditEvent::new(
            &input.service_id,
            &input.service_id,
            AuditAction::KeyRotated,
            input.algorithm,
            AuditStatus::Success,
            Some(reason),
        )
    }
}

/// The keys the access-control list refers to, rule by rule, in order.
pub open spec fn spec_rule_targets(rules: Seq<AccessRule>) -> Seq<(Seq<char>, KeyAlgorithm)> {
    rules.map_values(|r: AccessRule| (r.target_service@, r.algorithm))
}

/// The keys every configured service's rules refer to, service by service.
pub open spec fn spec_bootstrap_targets(entries: Seq<ServiceEntry>) -> Seq<(Seq<char>, KeyAlgorithm)>
    decreases entries.len(),
{
    if entries.len() == 0 {
        Seq::empty()
    } else {
        spec_bootstrap_targets(entries.drop_last()) + spec_rule_targets(
            entries.last().config.allowed_access@,
        )
    }
}

/// A list of (service, algorithm) pairs, by value.
pub open spec fn spec_targets_view(t: Seq<(ServiceId, KeyAlgorithm)>) -> Seq<(Seq<char>, KeyAlgorithm)> {
    t.map_values(|p: (ServiceId, KeyAlgorithm)| (p.0@, p.1))
}

/// Every (service, algorithm) key the access-control list refers to, in the
/// order the bootstrap visits them; each must exist as an active key.
pub fn bootstrap_targets(acl: &AclSettings) -> (r: Vec<(ServiceId, KeyAlgorithm)>)
    ensures
        spec_targets_view(r@) == spec_bootstrap_targets(acl.services@),
{
    let mut out: Vec<(ServiceId, KeyAlgorithm)> = Vec::new();
    let n = acl.services.len();
    let mut i: usize = 0;
    while i < n
        invariant
            n == acl.services@.len(),
            i <= n,
            spec_targets_view(out@) == spec_bootstrap_targets(acl.services@.subrange(0, i as int)),
        decreases n - i,
    {
        let rules = &acl.services[i].config.allowed_access;
        let ghost base = spec_targets_view(out@);
        let m = rules.len();
        let mut j: usize = 0;
        while j < m
            invariant
                m == rules@.len(),
                j <= m,
                spec_targets_view(out@) == base + spec_rule_targets(rules@.subrange(0, j as int)),
            decreases m - j,
        {
            let ghost before = out@;
            out.push((rules[j].target_service.duplicate(), rules[j].algorithm));
            assert(spec_targets_view(out@) =~= spec_targets_view(before).push(
                (rules@[j as int].target_service@, rules@[j as int].algorithm),
            ));
            assert(spec_rule_targets(rules@.subrange(0, j + 1)) =~= spec_rule_targets(
                rules@.subrange(0, j as int),
            ).push((rules@[j as int].target_service@, rules@[j as int].algorithm)));
            j = j + 1;
        }
        proof {
            let pre = acl.services@.subrange(0, i + 1);
            assert(pre.drop_last() =~= acl.services@.subrange(0, i as int));
        }
        i = i + 1;
    }
    assert(acl.services@.subrange(0, n as int) =~= acl.services@);
    out
}

/// The key the bootstrap creates when `target` has no active `algorithm` key:
/// version 1, active, with the algorithm's default purpose.
pub fn new_bootstrap_key(
    crypto: &KmsCryptoService,
    target: &ServiceId,
    algorithm: KeyAlgorithm,
    id: u128,
    now: i64,
) -> (r: AppResult<KeyPairEntity>)
    ensures
        r matches Ok(e) ==> spec_new_key(
            crypto,
            e,
            id,
            target@,
            algorithm,
            spec_default_purpose(algorithm),
            1,
            now,
        ),
        r matches Err(e) ==> (e matches AppError::CryptoError(m) && spec_generation_error(algorithm, m@)),
{
    seal_new_key(crypto, id, target, algorithm, algorithm.default_purpose(), 1, now)
}

/// The key the bootstrap creates when `target` has no active `algorithm` key,
/// created now under a new time-ordered id.
pub fn create_bootstrap_key(crypto: &KmsCryptoService, target: &ServiceId, algorithm: KeyAlgorithm) -> (r:
    AppResult<KeyPairEntity>)
    ensures
        r matches Ok(e) ==> spec_new_key(
            crypto,
            e,
            e.id,
            target@,
            algorithm,
            spec_default_purpose(algorithm),
            1,
            e.created_at,
        ),
        r matches Err(e) ==> (e matches AppError::CryptoError(m) && spec_generation_error(algorithm, m@)),
{
    let id = new_uuid_v7();
    let now = now_millis();
    new_bootstrap_key(crypto, target, algorithm, id, now)
}

/// The bootstrap's decision for one (service, algorithm) pair, given the
/// active key the store holds for it: nothing when there is one, otherwise a
/// new key to store.
pub fn key_to_bootstrap(
    crypto: &KmsCryptoService,
    target: &ServiceId,
    algorithm: KeyAlgorithm,
    existing: &Option<KeyPairEntity>,
) -> (r: AppResult<Option<KeyPairEntity>>)
    ensures
        existing is Some ==> r matches Ok(None),
        existing is None ==> match r {
            Ok(Some(e)) => spec_new_key(
                crypto,
                e,
                e.id,
                target@,
                algorithm,
                spec_default_purpose(algorithm),
                1,
                e.created_at,
            ),
            Ok(None) => false,
            Err(e) => e matches AppError::CryptoError(m) && spec_generation_error(algorithm, m@),
        },
{
    if existing.is_some() {
        return Ok(None);
    }
    let key = create_bootstrap_key(crypto, target, algorithm)?;
    Ok(Some(key))
}

/// A request to re-seal every stored key under the master key of `target_master_version`.
pub struct RewrapKeysInput {
    pub target_master_version: i32,
    pub batch_size: usize,
}

/// The message when the requested master-key version is not the current one.
pub open spec fn spec_wrong_target_text(target: i32, current: i32) -> Seq<char> {
    "Target master key version "@ + spec_signed_decimal(target as int)
        + " does not match KMS active version "@ + spec_signed_decimal(current as int)
}

/// Accepts a re-seal only towards the service's current master key; answers
/// that version.
pub fn check_rewrap_target(crypto: &KmsCryptoService, input: &RewrapKeysInput) -> (r: AppResult<i32>)
    ensures
        match r {
            Ok(v) => v == crypto.spec_current_version() && v == input.target_master_version,
            Err(e) => input.target_master_version != crypto.spec_current_version() && (
            e matches AppError::ValidationError(m) && m@ == spec_wrong_target_text(
                input.target_master_version,
                crypto.spec_current_version(),
            )),
        },
{
    let current = crypto.current_master_key_version();
    if current != input.target_master_version {
        let t = i64_to_decimal(input.target_master_version as i64);
        let c = i64_to_decimal(current as i64);
        let msg = concat4("Target master key version ", t.as_str(), " does not match KMS active version ", c.as_str());
        return Err(AppError::ValidationError(msg));
    }
    Ok(current)
}

/// Whether `update` re-seals the stored key `k` under the current master key:
/// same key id, and the new sealed key opens to what `k` held.
pub open spec fn spec_rewrapped(
    crypto: &KmsCryptoService,
    k: KeyPairEntity,
    update: (u128, EncryptedPrivateKey, i32),
) -> bool {
    &&& update.0 == k.id
    &&& update.2 == crypto.spec_current_version()
    &&& crypto.spec_open(k.encrypted_private_key@) matches OpenOutcome::Plain(p) && crypto.spec_sealed(
        p,
        update.1@,
    )
}

/// Opens each key of the batch and seals it again under the current master
/// key, in order. Stops at the first key that cannot be opened or sealed.
pub fn rewrap_batch(crypto: &KmsCryptoService, keys: &Vec<KeyPairEntity>) -> (r: AppResult<
    Vec<(u128, EncryptedPrivateKey, i32)>,
>)
    ensures
        r matches Ok(updates) ==> updates@.len() == keys@.len() && forall|i: int|
            0 <= i < keys@.len() ==> spec_rewrapped(crypto, keys@[i], #[trigger] updates@[i]),
        r matches Err(e) ==> e is CryptoError && exists|i: int|
            0 <= i < keys@.len() && (forall|j: int|
                0 <= j < i ==> crypto.spec_open(#[trigger] keys@[j].encrypted_private_key@) is Plain)
                && (!(crypto.spec_open(keys@[i].encrypted_private_key@) is Plain) ==> (
            e matches AppError::CryptoError(m) && m@ == spec_open_error_text(
                crypto.spec_open(keys@[i].encrypted_private_key@),
            ))),
{
    let current = crypto.current_master_key_version();
    let n = keys.len();
    let mut updates: Vec<(u128, EncryptedPrivateKey, i32)> = Vec::new();
    let mut i: usize = 0;
    while i < n
        invariant
            n == keys@.len(),
            i <= n,
            current == crypto.spec_current_version(),
            updates@.len() == i,
            forall|j: int| 0 <= j < i ==> spec_rewrapped(crypto, keys@[j], #[trigger] updates@[j]),
        decreases n - i,
    {
        let key = &keys[i];
        let mut plain = match crypto.decrypt_private_key(&key.encrypted_private_key) {
            Ok(p) => p,
            Err(e) => {
                assert forall|j: int| 0 <= j < i implies crypto.spec_open(
                    #[trigger] keys@[j].encrypted_private_key@,
                ) is Plain by {
                    assert(spec_rewrapped(crypto, keys@[j], updates@[j]));
                }
                return Err(e);
            },
        };
        let resealed = match crypto.encrypt_private_key(plain.as_slice()) {
            Ok(s) => s,
            Err(e) => {
                assert forall|j: int| 0 <= j < i implies crypto.spec_open(
                    #[trigger] keys@[j].encrypted_private_key@,
                ) is Plain by {
                    assert(spec_rewrapped(crypto, keys@[j], updates@[j]));
                }
                wipe(&mut plain);
                return Err(e);
            },
        };
        wipe(&mut plain);
        updates.push((key.id, resealed, current));
        i = i + 1;
    }
    Ok(updates)
}

/// What one round of re-sealing decides, given the keys still sealed under
/// an older master key.
pub enum RewrapStep {
    /// Nothing is left to re-seal; `total` keys were re-sealed in all.
    Finished { total: usize },
    /// Store these updates and fetch the next batch; `total` counts them in.
    Store { updates: Vec<(u128, EncryptedPrivateKey, i32)>, total: usize },
}

/// One round of re-sealing: with no pending keys the work is finished with
/// `total`; otherwise the batch is re-sealed and counted.
pub fn rewrap_step(crypto: &KmsCryptoService, total: usize, pending: &Vec<KeyPairEntity>) -> (r:
    AppResult<RewrapStep>)
    requires
        total + pending@.len() <= usize::MAX,
    ensures
        pending@.len() == 0 ==> (r matches Ok(RewrapStep::Finished { total: t }) && t == total),
        pending@.len() > 0 ==> match r {
            Ok(RewrapStep::Store { updates, total: t }) => t == total + pending@.len()
                && updates@.len() == pending@.len() && forall|i: int|
                0 <= i < pending@.len() ==> spec_rewrapped(crypto, pending@[i], #[trigger] updates@[i]),
            Ok(RewrapStep::Finished { .. }) => false,
            Err(e) => e is CryptoError,
        },
{
    if pending.len() == 0 {
        return Ok(RewrapStep::Finished { total });
    }
    let updates = rewrap_batch(crypto, pending)?;
    let count = updates.len();
    Ok(RewrapStep::Store { updates, total: total + count })
}

/// Law: re-sealing keeps every stored secret. After a successful batch, each
/// update opens, under the current master key, to exactly what the stored key
/// it replaces opened to.
pub proof fn law_rewrap_preserves_secret(
    crypto: &KmsCryptoService,
    k: KeyPairEntity,
    update: (u128, EncryptedPrivateKey, i32),
)
    requires
        spec_rewrapped(crypto, k, update),
    ensures
        crypto.spec_open(update.1@) == crypto.spec_open(k.encrypted_private_key@),
        update.1@.master_key_version == crypto.spec_current_version(),
        update.0 == k.id,
{
}

/// Law: a key the bootstrap creates for `algorithm` is active, of version 1,
/// of that algorithm, and made for what the algorithm does: signing exactly
/// for Ed25519, authentication exactly for HMAC-SHA256, and encryption for
/// X25519 and AES-256-GCM.
pub proof fn law_bootstrap_key_purpose(
    crypto: &KmsCryptoService,
    e: KeyPairEntity,
    target: Seq<char>,
    algorithm: KeyAlgorithm,
)
    requires
        spec_new_key(crypto, e, e.id, target, algorithm, spec_default_purpose(algorithm), 1, e.created_at),
    ensures
        e.status == KeyStatus::Active,
        e.version == 1,
        e.algorithm == algorithm,
        (e.purpose == KeyPurpose::Signing) <==> (algorithm == KeyAlgorithm::Ed25519),
        (e.purpose == KeyPurpose::Authentication) <==> (algorithm == KeyAlgorithm::HmacSha256),
        (e.purpose == KeyPurpose::Encryption) <==> (algorithm == KeyAlgorithm::X25519 || algorithm
            == KeyAlgorithm::AES256GCM),
{
    law_default_purpose_follows_algorithm(algorithm);
}

} // verus!
