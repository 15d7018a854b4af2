//! The decisions the program registry takes while resolving injections: which
//! failures end a resolution, when a missing resource is inserted and resolution
//! tried again, and when a resolution waits for a resource to be released.
use vstd::prelude::*;

use crate::program_registry::ids::{ProgramId, ResourceId};
use crate::program_registry::program_registry_result::{
    ProgramRegistryResolveAsyncError, ProgramRegistryResolveAsyncWithInsertError,
    ProgramRegistryResolveEitherError, ProgramRegistryResolveError,
    ProgramRegistryResolveWithInsertEitherError, ProgramRegistryResolveWithInsertError,
    ResolveResourceError,
};
use crate::program_registry::registry_outcomes::{RegistryAcquireAccessError, RegistrySaferReplacementResult};

verus! {

/// The program an operation addresses: the one named, or else the global program.
pub fn program_id_or_global(program_id: Option<ProgramId>, global_program_id: &ProgramId) -> (r: ProgramId)
    ensures
        r@ == match program_id {
            Some(p) => p@,
            None => global_program_id@,
        },
{
    match program_id {
        Some(program_id) => program_id,
        None => global_program_id.clone(),
    }
}

/// The program an operation addresses, borrowed: the one named, or else the global program.
pub fn program_id_ref_or_global<'a>(program_id: Option<&'a ProgramId>, global_program_id: &'a ProgramId) -> (r: &'a ProgramId)
    ensures
        r == match program_id {
            Some(p) => p,
            None => global_program_id,
        },
{
    match program_id {
        Some(program_id) => program_id,
        None => global_program_id,
    }
}

/// After a first resolution failed: `Ok` when the failure is that a resource
/// could not be reached or read, so that inserting it may help; otherwise the
/// error to end with.
pub fn resolve_with_insert_on_resolve_error(err: ProgramRegistryResolveError) -> (r: Result<(), ProgramRegistryResolveWithInsertError>)
    ensures
        match err {
            ProgramRegistryResolveError::AccessSubmissionError(e) =>
                r == Err::<(), _>(ProgramRegistryResolveWithInsertError::AccessSubmissionError(e)),
            ProgramRegistryResolveError::ResolveResourceError(ResolveResourceError::CanWaitUnknownError(e)) =>
                r == Err::<(), _>(ProgramRegistryResolveWithInsertError::UnknownError(e)),
            ProgramRegistryResolveError::ResolveResourceError(ResolveResourceError::UnknownError(e)) =>
                r == Err::<(), _>(ProgramRegistryResolveWithInsertError::UnknownError(e)),
            ProgramRegistryResolveError::ResolveResourceError(ResolveResourceError::ExpectedResults { expected, found }) =>
                r == Err::<(), _>(ProgramRegistryResolveWithInsertError::ExpectedResults { expected, found }),
            ProgramRegistryResolveError::ResolveResourceError(ResolveResourceError::Casting(_)) => r == Ok::<(), ProgramRegistryResolveWithInsertError>(()),
            ProgramRegistryResolveError::ResolveResourceError(ResolveResourceError::Deriving(_)) => r == Ok::<(), ProgramRegistryResolveWithInsertError>(()),
        },
{
    match err {
        ProgramRegistryResolveError::AccessSubmissionError(err) => Err(ProgramRegistryResolveWithInsertError::AccessSubmissionError(err)),
        ProgramRegistryResolveError::ResolveResourceError(err) => match err {
            ResolveResourceError::CanWaitUnknownError(err) => Err(ProgramRegistryResolveWithInsertError::UnknownError(err)),
            ResolveResourceError::UnknownError(err) => Err(ProgramRegistryResolveWithInsertError::UnknownError(err)),
            ResolveResourceError::ExpectedResults { expected, found } => Err(ProgramRegistryResolveWithInsertError::ExpectedResults { expected, found }),
            ResolveResourceError::Casting(_) => Ok(()),
            ResolveResourceError::Deriving(_) => Ok(()),
        },
    }
}

/// What is needed to insert a missing resource: its id, checked first, then
/// the maker of the resource.
pub fn resolve_with_insert_take_resource<F>(resource_id: Option<ResourceId>, resource: Option<F>) -> (r: Result<(ResourceId, F), ProgramRegistryResolveWithInsertError>)
    ensures
        match (resource_id, resource) {
            (None, _) => r == Err::<(ResourceId, F), _>(ProgramRegistryResolveWithInsertError::ExpectedResourceId),
            (Some(_), None) => r == Err::<(ResourceId, F), _>(ProgramRegistryResolveWithInsertError::ExpectedResource),
            (Some(id), Some(f)) => r == Ok::<(ResourceId, F), ProgramRegistryResolveWithInsertError>((id, f)),
        },
{
    let resource_id = match resource_id {
        Some(resource_id) => resource_id,
        None => return Err(ProgramRegistryResolveWithInsertError::ExpectedResourceId),
    };
    match resource {
        Some(resource) => Ok((resource_id, resource)),
        None => Err(ProgramRegistryResolveWithInsertError::ExpectedResource),
    }
}

/// Whether a replacement outcome can follow a replacement of a missing resource
/// made with the replacing access: the resource was missing, so nothing is
/// found, and the replacing access neither does nothing nor is denied.
pub open spec fn insertion_outcome_possible<V>(result: Result<RegistrySaferReplacementResult<V>, RegistryAcquireAccessError>) -> bool {
    !(result matches Ok(RegistrySaferReplacementResult::Found(_)))
        && !(result matches Ok(RegistrySaferReplacementResult::NoOp))
        && !(result matches Ok(RegistrySaferReplacementResult::DeniedAccess))
}

/// The error a refused insertion ends with, given whether the refusal came when
/// acquiring the program (`Err`) or when replacing within it (`Ok`); `None` when
/// the insertion went through or nothing was there to refuse it, and
/// resolution is to be tried again.
pub open spec fn insertion_failure<V>(result: Result<RegistrySaferReplacementResult<V>, RegistryAcquireAccessError>) -> Option<ProgramRegistryResolveWithInsertError> {
    match result {
        Ok(RegistrySaferReplacementResult::AccessConflict) => Some(ProgramRegistryResolveWithInsertError::AccessConflict { on_program: false }),
        Err(RegistryAcquireAccessError::AccessConflict) => Some(ProgramRegistryResolveWithInsertError::AccessConflict { on_program: true }),
        Ok(RegistrySaferReplacementResult::ReservationConflict) => Some(ProgramRegistryResolveWithInsertError::ReservationConflict { on_program: false }),
        Err(RegistryAcquireAccessError::ReservationConflict) => Some(ProgramRegistryResolveWithInsertError::ReservationConflict { on_program: true }),
        Ok(RegistrySaferReplacementResult::BlacklistDenied) | Ok(RegistrySaferReplacementResult::WhitelistDenied) =>
            Some(ProgramRegistryResolveWithInsertError::ListsDenied { on_program: false }),
        Err(RegistryAcquireAccessError::BlacklistDenied) | Err(RegistryAcquireAccessError::WhitelistDenied) =>
            Some(ProgramRegistryResolveWithInsertError::ListsDenied { on_program: true }),
        Ok(RegistrySaferReplacementResult::VerificationFailure) =>
            Some(ProgramRegistryResolveWithInsertError::ExpectedVerified { on_program: false }),
        Err(RegistryAcquireAccessError::VerificationFailure) =>
            Some(ProgramRegistryResolveWithInsertError::ExpectedVerified { on_program: true }),
        Ok(RegistrySaferReplacementResult::OwnershipDenied) =>
            Some(ProgramRegistryResolveWithInsertError::ExpectedOwnership { on_program: false }),
        Err(RegistryAcquireAccessError::OwnershipDenied) =>
            Some(ProgramRegistryResolveWithInsertError::ExpectedOwnership { on_program: true }),
        _ => None,
    }
}

/// After the missing resource was offered for insertion: `Ok` to resolve again,
/// or the error to end with.
pub fn resolve_with_insert_on_replace<V>(replace_result: &Result<RegistrySaferReplacementResult<V>, RegistryAcquireAccessError>) -> (r: Result<(), ProgramRegistryResolveWithInsertError>)
    requires
        insertion_outcome_possible(*replace_result),
    ensures
        r == match insertion_failure(*replace_result) {
            Some(e) => Err::<(), _>(e),
            None => Ok::<(), ProgramRegistryResolveWithInsertError>(()),
        },
        r is Ok <==> (*replace_result matches Ok(RegistrySaferReplacementResult::NotFound)
            || *replace_result matches Err(RegistryAcquireAccessError::NotFound)),
{
    match replace_result {
        Ok(RegistrySaferReplacementResult::NotFound) | Err(RegistryAcquireAccessError::NotFound) => Ok(()),
        Ok(RegistrySaferReplacementResult::AccessConflict) => Err(ProgramRegistryResolveWithInsertError::AccessConflict { on_program: false }),
        Err(RegistryAcquireAccessError::AccessConflict) => Err(ProgramRegistryResolveWithInsertError::AccessConflict { on_program: true }),
        Ok(RegistrySaferReplacementResult::ReservationConflict) => Err(ProgramRegistryResolveWithInsertError::ReservationConflict { on_program: false }),
        Err(RegistryAcquireAccessError::ReservationConflict) => Err(ProgramRegistryResolveWithInsertError::ReservationConflict { on_program: true }),
        Ok(RegistrySaferReplacementResult::BlacklistDenied) => Err(ProgramRegistryResolveWithInsertError::ListsDenied { on_program: false }),
        Err(RegistryAcquireAccessError::BlacklistDenied) => Err(ProgramRegistryResolveWithInsertError::ListsDenied { on_program: true }),
        Ok(RegistrySaferReplacementResult::WhitelistDenied) => Err(ProgramRegistryResolveWithInsertError::ListsDenied { on_program: false }),
        Err(RegistryAcquireAccessError::WhitelistDenied) => Err(ProgramRegistryResolveWithInsertError::ListsDenied { on_program: true }),
        Ok(RegistrySaferReplacementResult::VerificationFailure) => Err(ProgramRegistryResolveWithInsertError::ExpectedVerified { on_program: false }),
        Err(RegistryAcquireAccessError::VerificationFailure) => Err(ProgramRegistryResolveWithInsertError::ExpectedVerified { on_program: true }),
        Ok(RegistrySaferReplacementResult::OwnershipDenied) => Err(ProgramRegistryResolveWithInsertError::ExpectedOwnership { on_program: false }),
        Err(RegistryAcquireAccessError::OwnershipDenied) => Err(ProgramRegistryResolveWithInsertError::ExpectedOwnership { on_program: true }),
        Ok(RegistrySaferReplacementResult::Found(_)) | Ok(RegistrySaferReplacementResult::NoOp) | Ok(RegistrySaferReplacementResult::DeniedAccess) => {
            proof {
                assert(false);
            }
            Ok(())
        },
    }
}

/// The second resolution, after an insertion: its failure is reported as a
/// failure after insertion.
pub fn resolve_with_insert_after_insert<T>(result: Result<T, ProgramRegistryResolveError>) -> (r: Result<T, ProgramRegistryResolveWithInsertError>)
    ensures
        match result {
            Ok(item) => r == Ok::<T, ProgramRegistryResolveWithInsertError>(item),
            Err(e) => r == Err::<T, _>(ProgramRegistryResolveWithInsertError::ResolvingAfterInsert(e)),
        },
{
    match result {
        Ok(item) => Ok(item),
        Err(err) => Err(ProgramRegistryResolveWithInsertError::ResolvingAfterInsert(err)),
    }
}

/// After a resolution failed: `Ok` when it may succeed once a resource is
/// released, so that it is to wait; otherwise the error to end with.
pub fn resolve_async_on_error(err: ResolveResourceError) -> (r: Result<(), ProgramRegistryResolveAsyncError>)
    ensures
        match err {
            ResolveResourceError::ExpectedResults { expected, found } =>
                r == Err::<(), _>(ProgramRegistryResolveAsyncError::ExpectedResults { expected, found }),
            ResolveResourceError::UnknownError(e) => r == Err::<(), _>(ProgramRegistryResolveAsyncError::UnknownError(e)),
            ResolveResourceError::CanWaitUnknownError(_) => r == Ok::<(), ProgramRegistryResolveAsyncError>(()),
            ResolveResourceError::Casting(_) => r == Ok::<(), ProgramRegistryResolveAsyncError>(()),
            ResolveResourceError::Deriving(_) => r == Ok::<(), ProgramRegistryResolveAsyncError>(()),
        },
{
    match err {
        ResolveResourceError::ExpectedResults { expected, found } => Err(ProgramRegistryResolveAsyncError::ExpectedResults { expected, found }),
        ResolveResourceError::UnknownError(err) => Err(ProgramRegistryResolveAsyncError::UnknownError(err)),
        ResolveResourceError::CanWaitUnknownError(_) => Ok(()),
        ResolveResourceError::Casting(_) => Ok(()),
        ResolveResourceError::Deriving(_) => Ok(()),
    }
}

/// After a resolution that may wait: a resolved item is the answer; a pending
/// resolution `w` (`Ok(Err(w))`) is to be helped by an insertion; a failure is
/// reported as such.
pub fn resolve_async_with_insert_on_resolve<T, W>(result: Result<Result<T, W>, ProgramRegistryResolveAsyncError>) -> (r: Result<Result<T, W>, ProgramRegistryResolveAsyncWithInsertError>)
    ensures
        match result {
            Ok(inner) => r == Ok::<Result<T, W>, ProgramRegistryResolveAsyncWithInsertError>(inner),
            Err(e) => r == Err::<Result<T, W>, _>(ProgramRegistryResolveAsyncWithInsertError::ProgramRegistryResolveAsyncError(e)),
        },
{
    match result {
        Ok(inner) => Ok(inner),
        Err(err) => Err(ProgramRegistryResolveAsyncWithInsertError::ProgramRegistryResolveAsyncError(err)),
    }
}

/// What is needed to insert a missing resource while waiting: its id, checked
/// first, then the maker of the resource.
pub fn resolve_async_with_insert_take_resource<F>(resource_id: Option<ResourceId>, resource: Option<F>) -> (r: Result<(ResourceId, F), ProgramRegistryResolveAsyncWithInsertError>)
    ensures
        match (resource_id, resource) {
            (None, _) => r == Err::<(ResourceId, F), _>(ProgramRegistryResolveAsyncWithInsertError::ExpectedResourceId),
            (Some(_), None) => r == Err::<(ResourceId, F), _>(ProgramRegistryResolveAsyncWithInsertError::ExpectedResource),
            (Some(id), Some(f)) => r == Ok::<(ResourceId, F), ProgramRegistryResolveAsyncWithInsertError>((id, f)),
        },
{
    let resource_id = match resource_id {
        Some(resource_id) => resource_id,
        None => return Err(ProgramRegistryResolveAsyncWithInsertError::ExpectedResourceId),
    };
    match resource {
        Some(resource) => Ok((resource_id, resource)),
        None => Err(ProgramRegistryResolveAsyncWithInsertError::ExpectedResource),
    }
}

/// The error a refused insertion ends a waiting resolution with; `None` when
/// the resolution keeps waiting (the resource is there, missing, or busy).
pub open spec fn waiting_insertion_failure<V>(result: Result<RegistrySaferReplacementResult<V>, RegistryAcquireAccessError>) -> Option<ProgramRegistryResolveAsyncWithInsertError> {
    match result {
        Ok(RegistrySaferReplacementResult::VerificationFailure) => Some(ProgramRegistryResolveAsyncWithInsertError::ExpectedVerified { on_program: false }),
        Err(RegistryAcquireAccessError::VerificationFailure) => Some(ProgramRegistryResolveAsyncWithInsertError::ExpectedVerified { on_program: true }),
        Ok(RegistrySaferReplacementResult::OwnershipDenied) => Some(ProgramRegistryResolveAsyncWithInsertError::ExpectedOwnership { on_program: false }),
        Err(RegistryAcquireAccessError::OwnershipDenied) => Some(ProgramRegistryResolveAsyncWithInsertError::ExpectedOwnership { on_program: true }),
        Ok(RegistrySaferReplacementResult::BlacklistDenied) | Ok(RegistrySaferReplacementResult::WhitelistDenied) =>
            Some(ProgramRegistryResolveAsyncWithInsertError::ListsDenied { on_program: false }),
        Err(RegistryAcquireAccessError::BlacklistDenied) | Err(RegistryAcquireAccessError::WhitelistDenied) =>
            Some(ProgramRegistryResolveAsyncWithInsertError::ListsDenied { on_program: true }),
        _ => None,
    }
}

/// After the missing resource was offered for insertion while waiting: `Ok` to
/// keep waiting, or the error to end with.
pub fn resolve_async_with_insert_on_replace<V>(replace_result: &Result<RegistrySaferReplacementResult<V>, RegistryAcquireAccessError>) -> (r: Result<(), ProgramRegistryResolveAsyncWithInsertError>)
    requires
        !(*replace_result matches Ok(RegistrySaferReplacementResult::NoOp)),
        !(*replace_result matches Ok(RegistrySaferReplacementResult::DeniedAccess)),
    ensures
        r == match waiting_insertion_failure(*replace_result) {
            Some(e) => Err::<(), _>(e),
            None => Ok::<(), ProgramRegistryResolveAsyncWithInsertError>(()),
        },
        r is Ok <==> !is_rights_refusal(*replace_result),
{
    match replace_result {
        Ok(RegistrySaferReplacementResult::Found(_))
        | Err(RegistryAcquireAccessError::NotFound)
        | Ok(RegistrySaferReplacementResult::NotFound)
        | Err(RegistryAcquireAccessError::ReservationConflict)
        | Ok(RegistrySaferReplacementResult::ReservationConflict)
        | Err(RegistryAcquireAccessError::AccessConflict)
        | Ok(RegistrySaferReplacementResult::AccessConflict) => Ok(()),
        Ok(RegistrySaferReplacementResult::VerificationFailure) => Err(ProgramRegistryResolveAsyncWithInsertError::ExpectedVerified { on_program: false }),
        Err(RegistryAcquireAccessError::VerificationFailure) => Err(ProgramRegistryResolveAsyncWithInsertError::ExpectedVerified { on_program: true }),
        Ok(RegistrySaferReplacementResult::OwnershipDenied) => Err(ProgramRegistryResolveAsyncWithInsertError::ExpectedOwnership { on_program: false }),
        Err(RegistryAcquireAccessError::OwnershipDenied) => Err(ProgramRegistryResolveAsyncWithInsertError::ExpectedOwnership { on_program: true }),
        Ok(RegistrySaferReplacementResult::BlacklistDenied) => Err(ProgramRegistryResolveAsyncWithInsertError::ListsDenied { on_program: false }),
        Err(RegistryAcquireAccessError::BlacklistDenied) => Err(ProgramRegistryResolveAsyncWithInsertError::ListsDenied { on_program: true }),
        Ok(RegistrySaferReplacementResult::WhitelistDenied) => Err(ProgramRegistryResolveAsyncWithInsertError::ListsDenied { on_program: false }),
        Err(RegistryAcquireAccessError::WhitelistDenied) => Err(ProgramRegistryResolveAsyncWithInsertError::ListsDenied { on_program: true }),
        Ok(RegistrySaferReplacementResult::DeniedAccess) | Ok(RegistrySaferReplacementResult::NoOp) => {
            proof {
                assert(false);
            }
            Ok(())
        },
    }
}

/// The `on_program` flag of an insertion error, where it has one.
pub open spec fn with_insert_on_program(e: ProgramRegistryResolveWithInsertError) -> Option<bool> {
    match e {
        ProgramRegistryResolveWithInsertError::ListsDenied { on_program } => Some(on_program),
        ProgramRegistryResolveWithInsertError::ExpectedVerified { on_program } => Some(on_program),
        ProgramRegistryResolveWithInsertError::ExpectedOwnership { on_program } => Some(on_program),
        ProgramRegistryResolveWithInsertError::AccessConflict { on_program } => Some(on_program),
        ProgramRegistryResolveWithInsertError::ReservationConflict { on_program } => Some(on_program),
        _ => None,
    }
}

/// The `on_program` flag of a waiting insertion's error, where it has one.
pub open spec fn async_with_insert_on_program(e: ProgramRegistryResolveAsyncWithInsertError) -> Option<bool> {
    match e {
        ProgramRegistryResolveAsyncWithInsertError::ListsDenied { on_program } => Some(on_program),
        ProgramRegistryResolveAsyncWithInsertError::ExpectedVerified { on_program } => Some(on_program),
        ProgramRegistryResolveAsyncWithInsertError::ExpectedOwnership { on_program } => Some(on_program),
        _ => None,
    }
}

/// Every refusal of an insertion, waiting or not, carries a flag that is set
/// exactly when the refusal came when acquiring the program.
pub proof fn law_on_program_marks_program_refusals<V>(result: Result<RegistrySaferReplacementResult<V>, RegistryAcquireAccessError>)
    ensures
        insertion_failure(result) matches Some(e) ==> with_insert_on_program(e) == Some(result is Err),
        waiting_insertion_failure(result) matches Some(e) ==> async_with_insert_on_program(e) == Some(result is Err),
{
}

/// Whether the registry refused the insertion on the requester's rights:
/// verification, ownership, or the value's black or white list, whether when
/// acquiring the program (`Err`) or within it (`Ok`).
pub open spec fn is_rights_refusal<V>(result: Result<RegistrySaferReplacementResult<V>, RegistryAcquireAccessError>) -> bool {
    ||| result matches Ok(RegistrySaferReplacementResult::VerificationFailure)
    ||| result matches Ok(RegistrySaferReplacementResult::OwnershipDenied)
    ||| result matches Ok(RegistrySaferReplacementResult::BlacklistDenied)
    ||| result matches Ok(RegistrySaferReplacementResult::WhitelistDenied)
    ||| result matches Err(RegistryAcquireAccessError::VerificationFailure)
    ||| result matches Err(RegistryAcquireAccessError::OwnershipDenied)
    ||| result matches Err(RegistryAcquireAccessError::BlacklistDenied)
    ||| result matches Err(RegistryAcquireAccessError::WhitelistDenied)
}

/// Whether the registry's answer says the resource is missing: not found in
/// the program, or the program itself not found.
pub open spec fn is_missing<V>(result: Result<RegistrySaferReplacementResult<V>, RegistryAcquireAccessError>) -> bool {
    result matches Ok(RegistrySaferReplacementResult::NotFound) || result matches Err(RegistryAcquireAccessError::NotFound)
}

/// Whether the registry's answer says the resource or program is busy: another
/// access or a reservation conflicts with the insertion.
pub open spec fn is_conflict<V>(result: Result<RegistrySaferReplacementResult<V>, RegistryAcquireAccessError>) -> bool {
    ||| result matches Ok(RegistrySaferReplacementResult::AccessConflict)
    ||| result matches Ok(RegistrySaferReplacementResult::ReservationConflict)
    ||| result matches Err(RegistryAcquireAccessError::AccessConflict)
    ||| result matches Err(RegistryAcquireAccessError::ReservationConflict)
}

/// A waiting insertion ends exactly on a refusal of the requester's rights; on
/// an answer that the resource is there, missing or busy it keeps waiting. Each
/// refusal ends it with the error of its kind, flagged when it came from
/// acquiring the program.
pub proof fn law_waiting_insertion_ends_only_on_refusal<V>(result: Result<RegistrySaferReplacementResult<V>, RegistryAcquireAccessError>)
    requires
        !(result matches Ok(RegistrySaferReplacementResult::NoOp)),
        !(result matches Ok(RegistrySaferReplacementResult::DeniedAccess)),
    ensures
        waiting_insertion_failure(result) is Some <==> is_rights_refusal(result),
        (is_missing(result) || is_conflict(result) || result matches Ok(RegistrySaferReplacementResult::Found(_)))
            ==> waiting_insertion_failure(result) is None,
        (result matches Ok(RegistrySaferReplacementResult::BlacklistDenied) || result matches Ok(RegistrySaferReplacementResult::WhitelistDenied)
            || result matches Err(RegistryAcquireAccessError::BlacklistDenied) || result matches Err(RegistryAcquireAccessError::WhitelistDenied))
            ==> waiting_insertion_failure(result) == Some(ProgramRegistryResolveAsyncWithInsertError::ListsDenied { on_program: result is Err }),
        (result matches Ok(RegistrySaferReplacementResult::VerificationFailure) || result matches Err(RegistryAcquireAccessError::VerificationFailure))
            ==> waiting_insertion_failure(result) == Some(ProgramRegistryResolveAsyncWithInsertError::ExpectedVerified { on_program: result is Err }),
        (result matches Ok(RegistrySaferReplacementResult::OwnershipDenied) || result matches Err(RegistryAcquireAccessError::OwnershipDenied))
            ==> waiting_insertion_failure(result) == Some(ProgramRegistryResolveAsyncWithInsertError::ExpectedOwnership { on_program: result is Err }),
{
}

/// An insertion that does not wait is tried again exactly when the resource was
/// missing; a conflict ends it with the conflict's error and a refusal of the
/// requester's rights with the error of its kind, each flagged when it came
/// from acquiring the program.
pub proof fn law_insertion_retries_only_when_missing<V>(result: Result<RegistrySaferReplacementResult<V>, RegistryAcquireAccessError>)
    requires
        insertion_outcome_possible(result),
    ensures
        insertion_failure(result) is None <==> is_missing(result),
        (result matches Ok(RegistrySaferReplacementResult::AccessConflict) || result matches Err(RegistryAcquireAccessError::AccessConflict))
            ==> insertion_failure(result) == Some(ProgramRegistryResolveWithInsertError::AccessConflict { on_program: result is Err }),
        (result matches Ok(RegistrySaferReplacementResult::ReservationConflict) || result matches Err(RegistryAcquireAccessError::ReservationConflict))
            ==> insertion_failure(result) == Some(ProgramRegistryResolveWithInsertError::ReservationConflict { on_program: result is Err }),
        (result matches Ok(RegistrySaferReplacementResult::BlacklistDenied) || result matches Ok(RegistrySaferReplacementResult::WhitelistDenied)
            || result matches Err(RegistryAcquireAccessError::BlacklistDenied) || result matches Err(RegistryAcquireAccessError::WhitelistDenied))
            ==> insertion_failure(result) == Some(ProgramRegistryResolveWithInsertError::ListsDenied { on_program: result is Err }),
        (result matches Ok(RegistrySaferReplacementResult::VerificationFailure) || result matches Err(RegistryAcquireAccessError::VerificationFailure))
            ==> insertion_failure(result) == Some(ProgramRegistryResolveWithInsertError::ExpectedVerified { on_program: result is Err }),
        (result matches Ok(RegistrySaferReplacementResult::OwnershipDenied) || result matches Err(RegistryAcquireAccessError::OwnershipDenied))
            ==> insertion_failure(result) == Some(ProgramRegistryResolveWithInsertError::ExpectedOwnership { on_program: result is Err }),
{
}

/// Whether an error that ends a non-waiting insertion and one that ends a
/// waiting insertion report the same refusal, with the same flag.
pub open spec fn same_refusal(e: ProgramRegistryResolveWithInsertError, a: ProgramRegistryResolveAsyncWithInsertError) -> bool {
    match (e, a) {
        (ProgramRegistryResolveWithInsertError::ListsDenied { on_program: x }, ProgramRegistryResolveAsyncWithInsertError::ListsDenied { on_program: y }) => x == y,
        (ProgramRegistryResolveWithInsertError::ExpectedVerified { on_program: x }, ProgramRegistryResolveAsyncWithInsertError::ExpectedVerified { on_program: y }) => x == y,
        (ProgramRegistryResolveWithInsertError::ExpectedOwnership { on_program: x }, ProgramRegistryResolveAsyncWithInsertError::ExpectedOwnership { on_program: y }) => x == y,
        _ => false,
    }
}

/// Waiting changes only what happens on a conflict: every answer that ends a
/// waiting insertion ends a non-waiting one with the same refusal, a conflict
/// ends only the non-waiting one, and a missing resource ends neither.
pub proof fn law_waiting_differs_only_on_conflict<V>(result: Result<RegistrySaferReplacementResult<V>, RegistryAcquireAccessError>)
    requires
        insertion_outcome_possible(result),
    ensures
        waiting_insertion_failure(result) matches Some(a) ==> (insertion_failure(result) matches Some(e) && same_refusal(e, a)),
        is_conflict(result) ==> insertion_failure(result) is Some && waiting_insertion_failure(result) is None,
        is_missing(result) ==> insertion_failure(result) is None && waiting_insertion_failure(result) is None,
{
}

/// A resolution without waiting, as a resolution by either way.
pub fn resolve_either_sync<T>(result: Result<T, ProgramRegistryResolveError>) -> (r: Result<T, ProgramRegistryResolveEitherError>)
    ensures
        match result {
            Ok(item) => r == Ok::<T, ProgramRegistryResolveEitherError>(item),
            Err(e) => r == Err::<T, _>(ProgramRegistryResolveEitherError::SyncError(e)),
        },
{
    match result {
        Ok(item) => Ok(item),
        Err(err) => Err(ProgramRegistryResolveEitherError::SyncError(err)),
    }
}

/// A resolution that may wait, as a resolution by either way; a pending
/// resolution `w` (`Ok(Err(w))`) is to be waited for to the end.
pub fn resolve_either_async<T, W>(result: Result<Result<T, W>, ProgramRegistryResolveAsyncError>) -> (r: Result<Result<T, W>, ProgramRegistryResolveEitherError>)
    ensures
        match result {
            Ok(inner) => r == Ok::<Result<T, W>, ProgramRegistryResolveEitherError>(inner),
            Err(e) => r == Err::<Result<T, W>, _>(ProgramRegistryResolveEitherError::AsyncError(e)),
        },
{
    match result {
        Ok(inner) => Ok(inner),
        Err(err) => Err(ProgramRegistryResolveEitherError::AsyncError(err)),
    }
}

/// A resolution with insertion without waiting, as one by either way.
pub fn resolve_with_insert_either_sync<T>(result: Result<T, ProgramRegistryResolveWithInsertError>) -> (r: Result<T, ProgramRegistryResolveWithInsertEitherError>)
    ensures
        match result {
            Ok(item) => r == Ok::<T, ProgramRegistryResolveWithInsertEitherError>(item),
            Err(e) => r == Err::<T, _>(ProgramRegistryResolveWithInsertEitherError::SyncError(e)),
        },
{
    match result {
        Ok(item) => Ok(item),
        Err(err) => Err(ProgramRegistryResolveWithInsertEitherError::SyncError(err)),
    }
}

/// A resolution with insertion that may wait, as one by either way; a pending
/// resolution `w` (`Ok(Err(w))`) is to be waited for to the end.
pub fn resolve_with_insert_either_async<T, W>(result: Result<Result<T, W>, ProgramRegistryResolveAsyncWithInsertError>) -> (r: Result<Result<T, W>, ProgramRegistryResolveWithInsertEitherError>)
    ensures
        match result {
            Ok(inner) => r == Ok::<Result<T, W>, ProgramRegistryResolveWithInsertEitherError>(inner),
            Err(e) => r == Err::<Result<T, W>, _>(ProgramRegistryResolveWithInsertEitherError::AsyncError(e)),
        },
{
    match result {
        Ok(inner) => Ok(inner),
        Err(err) => Err(ProgramRegistryResolveWithInsertEitherError::AsyncError(err)),
    }
}

/// A waiting resolution, woken because a resource it waits on was released,
/// tried again: the item if it resolved, and whether it stays marked as ready
/// (a failure sends it back to waiting). A failure can never be a malformed
/// request, which would have been refused before waiting began.
pub fn poll_after_attempt<T>(attempt: Result<T, ResolveResourceError>) -> (r: (Option<T>, bool))
    requires
        !(attempt matches Err(ResolveResourceError::ExpectedResults { .. })),
    ensures
        match attempt {
            Ok(item) => r == (Some(item), true),
            Err(_) => r == (None::<T>, false),
        },
{
    match attempt {
        Ok(item) => (Some(item), true),
        Err(_) => (None, false),
    }
}

} // verus!
