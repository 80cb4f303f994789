//! The uniform error type every failing operation returns.
//!
//! Failures from two sources share this one shape: errors the remote
//! API reported through its structured error envelope (`Api`), and
//! everything else — transport failures, undecodable bodies, missing
//! headers (`Unknown`). The machine-readable `code` falls back to a
//! sentinel when the remote API did not supply one.

use vstd::prelude::*;

verus! {

/// Classifies where a failure came from: the remote API itself, or
/// anything else (transport, decoding, protocol violations).
#[derive(Debug, Clone, Copy, PartialEq, Eq, Structural)]
pub enum RoboltErrorKind {
    Api,
    Unknown,
}

/// The sentinel error code used when the remote API supplied none.
pub fn default_error_code() -> (code: i8)
    ensures
        code == -1i8,
{
    -1
}

/// The single error shape every fallible operation of this crate returns.
#[derive(Debug, Clone)]
pub struct RoboltError {
    pub message: String,
    pub code: i8,
    pub kind: RoboltErrorKind,
}

impl RoboltError {
    /// Wraps a bare failure text (transport error, undecodable body)
    /// as an `Unknown`-classified error with the sentinel code.
    pub fn from_message(message: String) -> (e: RoboltError)
        ensures
            e.kind == RoboltErrorKind::Unknown,
            e.code == -1i8,
            e.message@ == message@,
    {
        RoboltError { message, code: default_error_code(), kind: RoboltErrorKind::Unknown }
    }

    /// An error the remote API reported: `Api`-classified, carrying the
    /// reported message and code.
    pub fn api(message: String, code: i8) -> (e: RoboltError)
        ensures
            e.kind == RoboltErrorKind::Api,
            e.code == code,
            e.message@ == message@,
    {
        RoboltError { message, code, kind: RoboltErrorKind::Api }
    }
}

} // verus!
