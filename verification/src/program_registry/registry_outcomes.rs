//! The answers a registry gives when a value is acquired or replaced.
use vstd::prelude::*;

verus! {

/// Why acquiring an access to a value was refused.
#[derive(Debug, PartialEq, Eq, Structural, Clone, Copy)]
pub enum RegistryAcquireAccessError {
    NotFound,
    AccessConflict,
    ReservationConflict,
    BlacklistDenied,
    WhitelistDenied,
    VerificationFailure,
    OwnershipDenied,
}

/// What a replacement of a value came to; `Found` carries the value it took out.
#[derive(Debug)]
pub enum RegistrySaferReplacementResult<V> {
    Found(V),
    NotFound,
    AccessConflict,
    ReservationConflict,
    BlacklistDenied,
    WhitelistDenied,
    VerificationFailure,
    OwnershipDenied,
    NoOp,
    DeniedAccess,
}

} // verus!
