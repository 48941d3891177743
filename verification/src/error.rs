use vstd::prelude::*;

verus! {

/// The failure taxonomy of the audit pipeline.
///
/// Every fatal outcome surfaces as exactly one of these variants, each
/// carrying enough context (offending input, field, or last transport
/// error) to diagnose without re-running.
#[derive(Debug)]
pub enum AuditError {
    /// A malformed address or malformed encoded operation, detected before
    /// any transport call is made.
    InvalidInput(String),
    /// The address does not exist on the ledger.
    NotFound(String),
    /// A transport-level failure on a read or simulate call.
    TransportFailure(String),
    /// A simulation response omitted a mandatory field on an
    /// otherwise-present account entry; carries the field name.
    MalformedResponse(String),
    /// The poller exhausted its attempt budget; carries the last
    /// underlying transport error.
    VisibilityTimeout(String),
}

} // verus!
