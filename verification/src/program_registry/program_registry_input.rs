//! The arguments of the program registry's operations.
use vstd::prelude::*;

use crate::program_registry::ids::{ProgramId, ResourceId};
use crate::registry_implementation::primitives::{UserId, UserPassword, ValuePassword};

verus! {

/// Which program to release.
pub struct ProgramRegistryReleaseProgram<'a> {
    pub program_id: &'a ProgramId,
}

/// Which resource, of which program, to release.
pub struct ProgramRegistryReleaseResource<'a> {
    pub program_id: &'a ProgramId,
    pub resource_id: &'a ResourceId,
}

/// A replacement of the resource `resource_id` of a program (the global one
/// where none is named) by `resource`, with the access `access`.
pub struct ProgramRegistryReplaceResource<'a, R, A> {
    pub user_details: Option<(UserId, UserPassword)>,
    pub program_id: Option<ProgramId>,
    pub program_password: Option<ValuePassword>,

    pub resource: Option<R>,
    pub access: &'a A,
    pub resource_id: ResourceId,
    pub resource_password: Option<&'a ValuePassword>,
}

/// What to insert when a resolution finds a resource missing: the resource
/// made by `resource`, under `resource_id`.
pub struct ProgramRegistryResolveWithInsert<'a, F> {
    pub user_details: Option<(UserId, UserPassword)>,
    pub program_id: Option<ProgramId>,
    pub program_password: Option<ValuePassword>,

    pub resource: Option<F>,
    pub resource_id: Option<ResourceId>,
    pub resource_password: Option<&'a ValuePassword>,
}

impl<'a, F> Default for ProgramRegistryResolveWithInsert<'a, F> {
    fn default() -> (r: Self)
        ensures
            r.user_details is None,
            r.program_id is None,
            r.program_password is None,
            r.resource is None,
            r.resource_id is None,
            r.resource_password is None,
    {
        ProgramRegistryResolveWithInsert {
            user_details: None,
            program_id: None,
            program_password: None,
            resource: None,
            resource_id: None,
            resource_password: None,
        }
    }
}

/// Which program to acquire, on behalf of whom.
pub struct ProgramRegistryAcquireProgram {
    pub user_details: Option<(UserId, UserPassword)>,
    pub program_id: ProgramId,
    pub program_password: Option<ValuePassword>,
}

} // verus!
