//! The validations the request builders run before a field is accepted,
//! with the limits the service sets.

use vstd::prelude::*;
use vstd::string::StrSliceExecFns;

use crate::model::Timestamp;

verus! {

/// Which rule refused a value.
#[derive(Clone, Copy, Debug, PartialEq, Eq, Structural, Hash)]
pub enum ValidationErrorType {
    /// A timeout expiry lies further ahead than the longest allowed.
    CommunicationDisabledUntil,
    /// A nickname is empty or longer than allowed.
    Nickname,
}

/// A refused field, with the rule that refused it.
#[derive(Clone, Copy, Debug, PartialEq, Eq, Structural, Hash)]
pub struct ValidationError {
    /// Which rule refused the value.
    pub kind: ValidationErrorType,
}

/// Shortest nickname accepted, in characters.
pub const NICKNAME_LIMIT_MIN: usize = 1;

/// Longest nickname accepted, in characters.
pub const NICKNAME_LIMIT_MAX: usize = 32;

/// Longest a member timeout may last, in seconds: twenty-eight days.
pub const COMMUNICATION_DISABLED_MAX_DURATION: i64 = 28 * 24 * 60 * 60;

/// Whether a nickname has an accepted length.
pub open spec fn nickname_ok(name: Seq<char>) -> bool {
    NICKNAME_LIMIT_MIN <= name.len() <= NICKNAME_LIMIT_MAX
}

/// A nickname must be between one and thirty-two characters long.
pub fn nickname(value: &str) -> (r: Result<(), ValidationError>)
    ensures
        r is Ok <==> nickname_ok(value@),
        r is Err ==> r == Err::<(), _>(
            ValidationError { kind: ValidationErrorType::Nickname },
        ),
{
    let len = value.unicode_len();
    if NICKNAME_LIMIT_MIN <= len && len <= NICKNAME_LIMIT_MAX {
        Ok(())
    } else {
        Err(ValidationError { kind: ValidationErrorType::Nickname })
    }
}

/// Whether a timeout expiry is acceptable against the time now: it may lie
/// at most the longest duration ahead.
pub open spec fn communication_disabled_until_ok(timestamp_secs: int, now_secs: int) -> bool {
    timestamp_secs <= now_secs + COMMUNICATION_DISABLED_MAX_DURATION
}

/// A timeout expiry may be at most twenty-eight days ahead of the time now,
/// which the caller supplies in whole seconds since the epoch.
pub fn communication_disabled_until(timestamp: Timestamp, now_secs: i64) -> (r: Result<
    (),
    ValidationError,
>)
    requires
        now_secs <= i64::MAX - COMMUNICATION_DISABLED_MAX_DURATION,
    ensures
        r is Ok <==> communication_disabled_until_ok(
            timestamp.spec_micros() / 1000000,
            now_secs as int,
        ),
        r is Err ==> r == Err::<(), _>(
            ValidationError { kind: ValidationErrorType::CommunicationDisabledUntil },
        ),
{
    if timestamp.as_secs() <= now_secs + COMMUNICATION_DISABLED_MAX_DURATION {
        Ok(())
    } else {
        Err(ValidationError { kind: ValidationErrorType::CommunicationDisabledUntil })
    }
}

/// Longest audit log reason accepted, in characters.
pub const AUDIT_REASON_MAX: usize = 512;

/// Whether an audit log reason has an accepted length.
pub open spec fn audit_reason_ok(reason: Seq<char>) -> bool {
    reason.len() <= AUDIT_REASON_MAX
}

/// A refused audit log reason.
#[derive(Clone, Copy, Debug, PartialEq, Eq, Structural, Hash)]
pub enum AuditLogReasonError {
    /// The reason is longer than allowed.
    ReasonInvalid,
}

impl AuditLogReasonError {
    /// An audit log reason may be at most five hundred and twelve
    /// characters long.
    pub fn validate(reason: &str) -> (r: Result<&str, AuditLogReasonError>)
        ensures
            r is Ok <==> audit_reason_ok(reason@),
            r matches Ok(s) ==> s@ == reason@,
            r is Err ==> r == Err::<&str, _>(AuditLogReasonError::ReasonInvalid),
    {
        if reason.unicode_len() <= AUDIT_REASON_MAX {
            Ok(reason)
        } else {
            Err(AuditLogReasonError::ReasonInvalid)
        }
    }
}

} // verus!
