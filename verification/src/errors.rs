//! Error kinds of the core, and their mapping to RPC status codes.

use vstd::prelude::*;

verus! {

/// A final verdict of the core. Cryptographic failures are never retried
/// and never recovered internally.
#[derive(Clone, Copy, Debug, PartialEq, Eq, Structural)]
pub enum ProtocolError {
    /// A field is malformed or missing.
    BadEncoding,
    /// Signature verification failed over a bundle or initial message.
    BadSignature,
    /// The operation targets an identity that is not registered.
    UnknownIdentity,
    /// The receiver cannot locate a named one-time prekey secret.
    UnknownOtk,
    /// Opening an AEAD ciphertext failed.
    BadCiphertext,
    /// A backend resource failed transiently; the caller may retry.
    Transient,
}

/// The status code an error is surfaced as on the RPC edge.
#[derive(Clone, Copy, Debug, PartialEq, Eq, Structural)]
pub enum StatusKind {
    InvalidArgument,
    Unauthenticated,
    NotFound,
    Internal,
}

/// The status kind an error kind maps to.
pub open spec fn spec_status_of(e: ProtocolError) -> StatusKind {
    match e {
        ProtocolError::BadEncoding => StatusKind::InvalidArgument,
        ProtocolError::BadSignature => StatusKind::Unauthenticated,
        ProtocolError::UnknownIdentity => StatusKind::NotFound,
        ProtocolError::UnknownOtk => StatusKind::NotFound,
        ProtocolError::BadCiphertext => StatusKind::Internal,
        ProtocolError::Transient => StatusKind::Internal,
    }
}

/// Formats an error kind as a status code for the RPC surface.
pub fn status_of(e: ProtocolError) -> (r: StatusKind)
    ensures
        r == spec_status_of(e),
{
    match e {
        ProtocolError::BadEncoding => StatusKind::InvalidArgument,
        ProtocolError::BadSignature => StatusKind::Unauthenticated,
        ProtocolError::UnknownIdentity => StatusKind::NotFound,
        ProtocolError::UnknownOtk => StatusKind::NotFound,
        ProtocolError::BadCiphertext => StatusKind::Internal,
        ProtocolError::Transient => StatusKind::Internal,
    }
}

} // verus!
