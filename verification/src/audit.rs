//! Audit records of key operations.
use crate::ids::{new_uuid_v7, now_millis};
use crate::keys::{KeyAlgorithm, ServiceId};
use crate::text::owned;
use vstd::prelude::*;

verus! {

/// The operation an audit record is about.
#[derive(Debug, Clone, Copy, PartialEq, Eq, Structural)]
pub enum AuditAction {
    GetPrivateKey,
    GetPublicKey,
    GetSymmetricKey,
    GenerateKey,
    RotateKey,
    RewrapKeys,
    SignData,
    KeyRotated,
    KeyRevoked,
    KeyExpired,
}

/// How the operation ended.
#[derive(Debug)]
pub enum AuditStatus {
    Success,
    AccessDenied,
    NotFound,
    Failure,
    Error(String),
}

/// What the service decided to record about an operation; the record's id and
/// time are added when it is written.
pub struct AuditEvent {
    pub caller_service: ServiceId,
    pub target_service: ServiceId,
    pub action: AuditAction,
    pub algorithm: KeyAlgorithm,
    pub status: AuditStatus,
    pub reason: Option<String>,
}

/// A written audit record. `id` is the record's UUID as a number and
/// `timestamp` is in milliseconds since the Unix epoch.
pub struct AuditLog {
    pub id: u128,
    pub caller_service: ServiceId,
    pub target_service: ServiceId,
    pub action: AuditAction,
    pub algorithm: KeyAlgorithm,
    pub status: AuditStatus,
    pub reason: Option<String>,
    pub timestamp: i64,
}

/// The reason of an event, by value.
pub open spec fn spec_reason(reason: Option<String>) -> Option<Seq<char>> {
    match reason {
        Some(r) => Some(r@),
        None => None,
    }
}

/// Whether `ev` records `action` on `algorithm` by `caller` against `target`,
/// ending in `status` for `reason`.
pub open spec fn spec_event_is(
    ev: AuditEvent,
    caller: Seq<char>,
    target: Seq<char>,
    action: AuditAction,
    algorithm: KeyAlgorithm,
    status: AuditStatus,
    reason: Option<Seq<char>>,
) -> bool {
    &&& ev.caller_service@ == caller
    &&& ev.target_service@ == target
    &&& ev.action == action
    &&& ev.algorithm == algorithm
    &&& ev.status == status
    &&& spec_reason(ev.reason) == reason
}

impl AuditEvent {
    /// An event with the given fields; the services are copied.
    pub fn new(
        caller: &ServiceId,
        target: &ServiceId,
        action: AuditAction,
        algorithm: KeyAlgorithm,
        status: AuditStatus,
        reason: Option<String>,
    ) -> (r: AuditEvent)
        ensures
            r.caller_service@ == caller@,
            r.target_service@ == target@,
            r.action == action,
            r.algorithm == algorithm,
            r.status == status,
            r.reason == reason,
    {
        AuditEvent {
            caller_service: caller.duplicate(),
            target_service: target.duplicate(),
            action,
            algorithm,
            status,
            reason,
        }
    }

    /// An event whose reason is the text `reason`.
    pub fn with_reason(
        caller: &ServiceId,
        target: &ServiceId,
        action: AuditAction,
        algorithm: KeyAlgorithm,
        status: AuditStatus,
        reason: &str,
    ) -> (r: AuditEvent)
        ensures
            spec_event_is(r, caller@, target@, action, algorithm, status, Some(reason@)),
    {
        AuditEvent::new(caller, target, action, algorithm, status, Some(owned(reason)))
    }
}

impl AuditLog {
    /// The record of `event`, written now under a new time-ordered id.
    pub fn from_event(event: AuditEvent) -> (r: AuditLog)
        ensures
            r.caller_service == event.caller_service,
            r.target_service == event.target_service,
            r.action == event.action,
            r.algorithm == event.algorithm,
            r.status == event.status,
            r.reason == event.reason,
    {
        let id = new_uuid_v7();
        let timestamp = now_millis();
        AuditLog::stamp(event, id, timestamp)
    }

    /// The record of `event`, with its id and time.
    pub fn stamp(event: AuditEvent, id: u128, timestamp: i64) -> (r: AuditLog)
        ensures
            r.id == id,
            r.timestamp == timestamp,
            r.caller_service == event.caller_service,
            r.target_service == event.target_service,
            r.action == event.action,
            r.algorithm == event.algorithm,
            r.status == event.status,
            r.reason == event.reason,
    {
        AuditLog {
            id,
            caller_service: event.caller_service,
            target_service: event.target_service,
            action: event.action,
            algorithm: event.algorithm,
            status: event.status,
            reason: event.reason,
            timestamp,
        }
    }
}

} // verus!
