//! The errors of the program registry.
use vstd::prelude::*;

use crate::program_registry::cast_error::CastError;
use crate::program_registry::registry_outcomes::RegistryAcquireAccessError;

verus! {

/// `anyhow::Error`, held as an opaque value.
#[verifier::external_type_specification]
#[verifier::external_body]
pub struct ExAnyhowError(anyhow::Error);

/// The requested accesses could not be submitted.
#[derive(Debug)]
pub struct AccessSubmissionError;

/// An access was derived but could not be completed.
#[derive(Debug)]
pub enum DerivedError {
    ResourceAccessNotFound(RegistryAcquireAccessError),
    ProgramAccessNotFound(RegistryAcquireAccessError),
}

/// Why resolving the accesses of an injection failed.
#[derive(Debug)]
pub enum ResolveResourceError {
    ExpectedResults { expected: usize, found: usize },
    UnknownError(anyhow::Error),
    CanWaitUnknownError(anyhow::Error),
    Casting(CastError),
    Deriving(DerivedError),
}

/// Why replacing a resource failed.
#[derive(Debug, PartialEq, Eq, Structural, Clone, Copy)]
pub enum ProgramRegistryReplaceResourceError {
    NotFound,
    AccessConflict,
    ReservationConflict,
    VerificationFailure,
    OwnershipDenied,
    WhitelistDenied,
    BlacklistDenied,
}

/// Why resolving, inserting the resource where it was missing, failed.
#[derive(Debug)]
pub enum ProgramRegistryResolveWithInsertError {
    ExpectedResourceId,
    ExpectedResource,
    ExpectedEntity,
    ListsDenied { on_program: bool },
    ExpectedVerified { on_program: bool },
    ExpectedOwnership { on_program: bool },
    AccessConflict { on_program: bool },
    ReservationConflict { on_program: bool },
    AccessSubmissionError(AccessSubmissionError),
    ExpectedResults { expected: usize, found: usize },
    ResolvingAfterInsert(ProgramRegistryResolveError),
    UnknownError(anyhow::Error),
}

/// Why resolving failed.
#[derive(Debug)]
pub enum ProgramRegistryResolveError {
    AccessSubmissionError(AccessSubmissionError),
    ResolveResourceError(ResolveResourceError),
}

/// Why resolving, possibly by waiting, failed.
#[derive(Debug)]
pub enum ProgramRegistryResolveAsyncError {
    AccessSubmissionError(AccessSubmissionError),
    ExpectedResults { expected: usize, found: usize },
    ExpectedEntity,
    UnknownError(anyhow::Error),
}

/// Why resolving, possibly by waiting, inserting the resource where it was missing, failed.
#[derive(Debug)]
pub enum ProgramRegistryResolveAsyncWithInsertError {
    ExpectedResourceId,
    ExpectedResource,
    ListsDenied { on_program: bool },
    ExpectedVerified { on_program: bool },
    ExpectedOwnership { on_program: bool },
    ProgramRegistryResolveAsyncError(ProgramRegistryResolveAsyncError),
}

/// Why resolving, by waiting or not, failed.
#[derive(Debug)]
pub enum ProgramRegistryResolveEitherError {
    SyncError(ProgramRegistryResolveError),
    AsyncError(ProgramRegistryResolveAsyncError),
}

/// Why resolving with insertion, by waiting or not, failed.
#[derive(Debug)]
pub enum ProgramRegistryResolveWithInsertEitherError {
    SyncError(ProgramRegistryResolveWithInsertError),
    AsyncError(ProgramRegistryResolveAsyncWithInsertError),
}

} // verus!
