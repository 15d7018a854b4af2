use aion_program::program_registry::cast_error::CastError;
use aion_program::program_registry::ids::{ProgramId, ResourceId};
use aion_program::program_registry::program_registry_result::{
    AccessSubmissionError, DerivedError, ProgramRegistryResolveAsyncError,
    ProgramRegistryResolveAsyncWithInsertError, ProgramRegistryResolveEitherError,
    ProgramRegistryResolveError, ProgramRegistryResolveWithInsertEitherError,
    ProgramRegistryResolveWithInsertError, ResolveResourceError,
};
use aion_program::program_registry::registry_outcomes::{RegistryAcquireAccessError, RegistrySaferReplacementResult};
use aion_program::program_registry::resolution::{
    poll_after_attempt, program_id_or_global, program_id_ref_or_global, resolve_async_on_error,
    resolve_async_with_insert_on_replace, resolve_async_with_insert_on_resolve,
    resolve_async_with_insert_take_resource, resolve_either_async, resolve_either_sync,
    resolve_with_insert_after_insert, resolve_with_insert_either_async,
    resolve_with_insert_either_sync, resolve_with_insert_on_replace,
    resolve_with_insert_on_resolve_error, resolve_with_insert_take_resource,
};
use aion_program::program_registry::resource::DowncastError;

type Replace = Result<RegistrySaferReplacementResult<u8>, RegistryAcquireAccessError>;

fn casting() -> ResolveResourceError {
    ResolveResourceError::Casting(CastError::Shared(DowncastError::Downcasting { expected: "bool", found: "u8" }))
}

#[test]
fn program_id_defaults_to_global() {
    let global = ProgramId::Label("Global Program Id".to_string());
    assert_eq!(program_id_or_global(None, &global), global);
    assert_eq!(
        program_id_or_global(Some(ProgramId::Label("p".to_string())), &global),
        ProgramId::Label("p".to_string())
    );
    let named = ProgramId::Label("q".to_string());
    assert_eq!(program_id_ref_or_global(Some(&named), &global), &named);
    assert_eq!(program_id_ref_or_global(None, &global), &global);
}

#[test]
fn with_insert_inserts_only_for_missing_or_unreadable_resources() {
    assert!(resolve_with_insert_on_resolve_error(ProgramRegistryResolveError::ResolveResourceError(casting())).is_ok());
    assert!(resolve_with_insert_on_resolve_error(ProgramRegistryResolveError::ResolveResourceError(
        ResolveResourceError::Deriving(DerivedError::ResourceAccessNotFound(RegistryAcquireAccessError::NotFound))
    ))
    .is_ok());
    assert!(matches!(
        resolve_with_insert_on_resolve_error(ProgramRegistryResolveError::ResolveResourceError(
            ResolveResourceError::ExpectedResults { expected: 2, found: 1 }
        )),
        Err(ProgramRegistryResolveWithInsertError::ExpectedResults { expected: 2, found: 1 })
    ));
    assert!(matches!(
        resolve_with_insert_on_resolve_error(ProgramRegistryResolveError::ResolveResourceError(
            ResolveResourceError::CanWaitUnknownError(anyhow::Error::msg("busy"))
        )),
        Err(ProgramRegistryResolveWithInsertError::UnknownError(_))
    ));
    assert!(matches!(
        resolve_with_insert_on_resolve_error(ProgramRegistryResolveError::ResolveResourceError(
            ResolveResourceError::UnknownError(anyhow::Error::msg("odd"))
        )),
        Err(ProgramRegistryResolveWithInsertError::UnknownError(_))
    ));
    assert!(matches!(
        resolve_with_insert_on_resolve_error(ProgramRegistryResolveError::AccessSubmissionError(AccessSubmissionError)),
        Err(ProgramRegistryResolveWithInsertError::AccessSubmissionError(_))
    ));
}

#[test]
fn with_insert_needs_id_then_resource() {
    assert!(matches!(
        resolve_with_insert_take_resource::<u8>(None, Some(1)),
        Err(ProgramRegistryResolveWithInsertError::ExpectedResourceId)
    ));
    assert!(matches!(
        resolve_with_insert_take_resource::<u8>(None, None),
        Err(ProgramRegistryResolveWithInsertError::ExpectedResourceId)
    ));
    assert!(matches!(
        resolve_with_insert_take_resource::<u8>(Some(ResourceId::Label("r".to_string())), None),
        Err(ProgramRegistryResolveWithInsertError::ExpectedResource)
    ));
    match resolve_with_insert_take_resource::<u8>(Some(ResourceId::Label("r".to_string())), Some(4)) {
        Ok((id, f)) => {
            assert_eq!(id, ResourceId::Label("r".to_string()));
            assert_eq!(f, 4);
        },
        Err(_) => panic!("expected the id and the resource"),
    }

    assert!(matches!(
        resolve_async_with_insert_take_resource::<u8>(None, Some(1)),
        Err(ProgramRegistryResolveAsyncWithInsertError::ExpectedResourceId)
    ));
    assert!(matches!(
        resolve_async_with_insert_take_resource::<u8>(Some(ResourceId::Label("r".to_string())), None),
        Err(ProgramRegistryResolveAsyncWithInsertError::ExpectedResource)
    ));
    assert!(resolve_async_with_insert_take_resource::<u8>(Some(ResourceId::Label("r".to_string())), Some(1)).is_ok());
}

#[test]
fn with_insert_on_replace() {
    type E = ProgramRegistryResolveWithInsertError;
    let case = |r: Replace| resolve_with_insert_on_replace(&r);
    assert!(case(Ok(RegistrySaferReplacementResult::NotFound)).is_ok());
    assert!(case(Err(RegistryAcquireAccessError::NotFound)).is_ok());
    assert!(matches!(case(Ok(RegistrySaferReplacementResult::AccessConflict)), Err(E::AccessConflict { on_program: false })));
    assert!(matches!(case(Err(RegistryAcquireAccessError::AccessConflict)), Err(E::AccessConflict { on_program: true })));
    assert!(matches!(case(Ok(RegistrySaferReplacementResult::ReservationConflict)), Err(E::ReservationConflict { on_program: false })));
    assert!(matches!(case(Err(RegistryAcquireAccessError::ReservationConflict)), Err(E::ReservationConflict { on_program: true })));
    assert!(matches!(case(Ok(RegistrySaferReplacementResult::BlacklistDenied)), Err(E::ListsDenied { on_program: false })));
    assert!(matches!(case(Err(RegistryAcquireAccessError::BlacklistDenied)), Err(E::ListsDenied { on_program: true })));
    assert!(matches!(case(Ok(RegistrySaferReplacementResult::WhitelistDenied)), Err(E::ListsDenied { on_program: false })));
    assert!(matches!(case(Err(RegistryAcquireAccessError::WhitelistDenied)), Err(E::ListsDenied { on_program: true })));
    assert!(matches!(case(Ok(RegistrySaferReplacementResult::VerificationFailure)), Err(E::ExpectedVerified { on_program: false })));
    assert!(matches!(case(Err(RegistryAcquireAccessError::VerificationFailure)), Err(E::ExpectedVerified { on_program: true })));
    assert!(matches!(case(Ok(RegistrySaferReplacementResult::OwnershipDenied)), Err(E::ExpectedOwnership { on_program: false })));
    assert!(matches!(case(Err(RegistryAcquireAccessError::OwnershipDenied)), Err(E::ExpectedOwnership { on_program: true })));
}

#[test]
fn with_insert_after_insert() {
    assert_eq!(resolve_with_insert_after_insert::<u8>(Ok(3)).ok(), Some(3));
    assert!(matches!(
        resolve_with_insert_after_insert::<u8>(Err(ProgramRegistryResolveError::AccessSubmissionError(AccessSubmissionError))),
        Err(ProgramRegistryResolveWithInsertError::ResolvingAfterInsert(_))
    ));
}

#[test]
fn async_waits_only_when_it_may_help() {
    assert!(resolve_async_on_error(casting()).is_ok());
    assert!(resolve_async_on_error(ResolveResourceError::CanWaitUnknownError(anyhow::Error::msg("busy"))).is_ok());
    assert!(resolve_async_on_error(ResolveResourceError::Deriving(DerivedError::ProgramAccessNotFound(
        RegistryAcquireAccessError::AccessConflict
    )))
    .is_ok());
    assert!(matches!(
        resolve_async_on_error(ResolveResourceError::ExpectedResults { expected: 1, found: 0 }),
        Err(ProgramRegistryResolveAsyncError::ExpectedResults { expected: 1, found: 0 })
    ));
    assert!(matches!(
        resolve_async_on_error(ResolveResourceError::UnknownError(anyhow::Error::msg("odd"))),
        Err(ProgramRegistryResolveAsyncError::UnknownError(_))
    ));
}

#[test]
fn async_with_insert() {
    type E = ProgramRegistryResolveAsyncWithInsertError;
    assert!(matches!(resolve_async_with_insert_on_resolve::<u8, u16>(Ok(Ok(1))), Ok(Ok(1))));
    assert!(matches!(resolve_async_with_insert_on_resolve::<u8, u16>(Ok(Err(2))), Ok(Err(2))));
    assert!(matches!(
        resolve_async_with_insert_on_resolve::<u8, u16>(Err(ProgramRegistryResolveAsyncError::ExpectedEntity)),
        Err(E::ProgramRegistryResolveAsyncError(ProgramRegistryResolveAsyncError::ExpectedEntity))
    ));

    let case = |r: Replace| resolve_async_with_insert_on_replace(&r);
    assert!(case(Ok(RegistrySaferReplacementResult::Found(1))).is_ok());
    assert!(case(Ok(RegistrySaferReplacementResult::NotFound)).is_ok());
    assert!(case(Err(RegistryAcquireAccessError::NotFound)).is_ok());
    assert!(case(Err(RegistryAcquireAccessError::AccessConflict)).is_ok());
    assert!(case(Ok(RegistrySaferReplacementResult::ReservationConflict)).is_ok());
    assert!(matches!(case(Ok(RegistrySaferReplacementResult::VerificationFailure)), Err(E::ExpectedVerified { on_program: false })));
    assert!(matches!(case(Err(RegistryAcquireAccessError::VerificationFailure)), Err(E::ExpectedVerified { on_program: true })));
    assert!(matches!(case(Ok(RegistrySaferReplacementResult::OwnershipDenied)), Err(E::ExpectedOwnership { on_program: false })));
    assert!(matches!(case(Err(RegistryAcquireAccessError::OwnershipDenied)), Err(E::ExpectedOwnership { on_program: true })));
    assert!(matches!(case(Ok(RegistrySaferReplacementResult::WhitelistDenied)), Err(E::ListsDenied { on_program: false })));
    assert!(matches!(case(Err(RegistryAcquireAccessError::BlacklistDenied)), Err(E::ListsDenied { on_program: true })));
}

#[test]
fn either_wrappers() {
    assert!(matches!(resolve_either_sync::<u8>(Ok(1)), Ok(1)));
    assert!(matches!(
        resolve_either_sync::<u8>(Err(ProgramRegistryResolveError::AccessSubmissionError(AccessSubmissionError))),
        Err(ProgramRegistryResolveEitherError::SyncError(_))
    ));
    assert!(matches!(resolve_either_async::<u8, u16>(Ok(Err(5))), Ok(Err(5))));
    assert!(matches!(
        resolve_either_async::<u8, u16>(Err(ProgramRegistryResolveAsyncError::ExpectedEntity)),
        Err(ProgramRegistryResolveEitherError::AsyncError(_))
    ));
    assert!(matches!(resolve_with_insert_either_sync::<u8>(Ok(1)), Ok(1)));
    assert!(matches!(
        resolve_with_insert_either_sync::<u8>(Err(ProgramRegistryResolveWithInsertError::ExpectedEntity)),
        Err(ProgramRegistryResolveWithInsertEitherError::SyncError(ProgramRegistryResolveWithInsertError::ExpectedEntity))
    ));
    assert!(matches!(resolve_with_insert_either_async::<u8, u16>(Ok(Ok(3))), Ok(Ok(3))));
    assert!(matches!(
        resolve_with_insert_either_async::<u8, u16>(Err(ProgramRegistryResolveAsyncWithInsertError::ExpectedResource)),
        Err(ProgramRegistryResolveWithInsertEitherError::AsyncError(ProgramRegistryResolveAsyncWithInsertError::ExpectedResource))
    ));
}

#[test]
fn poll_after_attempt_outcomes() {
    assert!(matches!(poll_after_attempt::<u8>(Ok(3)), (Some(3), true)));
    assert!(matches!(poll_after_attempt::<u8>(Err(casting())), (None, false)));
}
