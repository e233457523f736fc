//! The library's error type.
use vstd::prelude::*;

use crate::text::{push_str, string_of};

verus! {

/// Errors of the kernel and of the model pack. Where the failing component
/// reports a message (I/O, JSON decoding), the message is carried as text.
#[derive(Debug)]
pub enum CoreError {
    NonFiniteNumber,
    NumberCanonicalizationFailed,
    SchemaValidation { schema_name: String, message: String },
    UnsupportedSchema(String),
    InvariantViolation(String),
    OperatorNotRegistered(String),
    DeterminismViolation(String),
    ReplayDivergence(String),
    AuditFailure(String),
    Io(String),
    Json(String),
}

/// The text that describes an error.
pub open spec fn error_text(e: CoreError) -> Seq<char> {
    match e {
        CoreError::NonFiniteNumber => "json number is not finite"@,
        CoreError::NumberCanonicalizationFailed => "failed to canonicalize number during float policy application"@,
        CoreError::SchemaValidation { schema_name, message } => "schema '"@ + schema_name@ + "' validation failed: "@
            + message@,
        CoreError::UnsupportedSchema(s) => "unsupported schema '"@ + s@ + "'"@,
        CoreError::InvariantViolation(s) => "invariant violation: "@ + s@,
        CoreError::OperatorNotRegistered(s) => "operator not registered for role: "@ + s@,
        CoreError::DeterminismViolation(s) => "determinism violation: "@ + s@,
        CoreError::ReplayDivergence(s) => "replay divergence: "@ + s@,
        CoreError::AuditFailure(s) => "audit failure: "@ + s@,
        CoreError::Io(s) => "io error: "@ + s@,
        CoreError::Json(s) => "json serialization error: "@ + s@,
    }
}

/// `prefix` followed by `s`.
fn prefixed(prefix: &str, s: &str) -> (r: String)
    ensures
        r@ == prefix@ + s@,
{
    let mut out = string_of(prefix);
    push_str(&mut out, s);
    out
}

impl CoreError {
    /// The text that describes the error.
    pub fn message(&self) -> (r: String)
        ensures
            r@ == error_text(*self),
    {
        match self {
            CoreError::NonFiniteNumber => string_of("json number is not finite"),
            CoreError::NumberCanonicalizationFailed => string_of(
                "failed to canonicalize number during float policy application",
            ),
            CoreError::SchemaValidation { schema_name, message } => {
                let mut out = prefixed("schema '", schema_name.as_str());
                push_str(&mut out, "' validation failed: ");
                push_str(&mut out, message.as_str());
                out
            },
            CoreError::UnsupportedSchema(s) => {
                let mut out = prefixed("unsupported schema '", s.as_str());
                push_str(&mut out, "'");
                out
            },
            CoreError::InvariantViolation(s) => prefixed("invariant violation: ", s.as_str()),
            CoreError::OperatorNotRegistered(s) => prefixed("operator not registered for role: ", s.as_str()),
            CoreError::DeterminismViolation(s) => prefixed("determinism violation: ", s.as_str()),
            CoreError::ReplayDivergence(s) => prefixed("replay divergence: ", s.as_str()),
            CoreError::AuditFailure(s) => prefixed("audit failure: ", s.as_str()),
            CoreError::Io(s) => prefixed("io error: ", s.as_str()),
            CoreError::Json(s) => prefixed("json serialization error: ", s.as_str()),
        }
    }
}

} // verus!
