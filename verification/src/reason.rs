//! The boundary to the multiplexer's error values: extracting the
//! protocol-level closure reason code.
//!
//! The multiplexer reports a permanent closure as an opaque error value.
//! All the dispatch machine needs of it is the numeric reason code, when
//! the closure carried one; what the code means — graceful shutdown or
//! failure — is decided by the verified machine, never here.

use vstd::prelude::*;
use crate::dispatch::Event;

verus! {

/// Declares h2::Error, the multiplexer's opaque error type, so values
/// of it can stand in this library's signatures; nothing inside it is
/// ever read here except through [`error_reason_code`].
#[verifier::external_type_specification]
#[verifier::external_body]
pub struct ExError(h2::Error);

/// Relies on h2::Error::reason, which returns the protocol-level reason
/// when the error was caused by a closure that carried one and None
/// otherwise, and on u32::from(h2::Reason), which returns the reason's
/// numeric code.
#[verifier::external_body]
fn error_reason_code(err: &h2::Error) -> (r: Option<u32>) {
    err.reason().map(u32::from)
}

/// The readiness-closure event for the dispatch machine, built from the
/// multiplexer's error value. The machine sees only the reason code and
/// classifies it; see [`crate::dispatch::closure_outcome`].
pub fn closure_event(err: &h2::Error) -> (e: Event)
    ensures
        e is ReadyClosed,
{
    Event::ReadyClosed { code: error_reason_code(err) }
}

} // verus!
