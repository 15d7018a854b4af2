//! An access asked for by value, and the builder it becomes.
use vstd::prelude::*;

use crate::program_registry::ids::{ProgramId, ResourceId};
use crate::registry_implementation::primitives::{UserId, UserPassword, ValuePassword};

verus! {

/// An access ready to be submitted, with the global program to fall back on.
pub struct AccessBuilder<A> {
    pub program_id: ProgramId,
    pub global_program_id: ProgramId,

    pub user_details: Option<(UserId, UserPassword)>,
    pub resource_id: ResourceId,
    pub resource_password: Option<ValuePassword>,
    pub access: A,

    pub use_global_program_id: bool,
}

/// An access to the resource `resource_id` of the program `program_id`.
pub struct PromptedAccesses<A> {
    pub program_id: ProgramId,

    pub user_details: Option<(UserId, UserPassword)>,

    pub resource_id: ResourceId,
    pub resource_password: Option<ValuePassword>,
    pub access: A,
}

impl<A> PromptedAccesses<A> {
    /// The builder for this access, given the global program and whether to use it.
    pub fn with(self, global_program_id: ProgramId, use_global_program_id: bool) -> (r: AccessBuilder<A>)
        ensures
            r == (AccessBuilder {
                program_id: self.program_id,
                global_program_id,
                user_details: self.user_details,
                resource_id: self.resource_id,
                resource_password: self.resource_password,
                access: self.access,
                use_global_program_id,
            }),
    {
        AccessBuilder {
            program_id: self.program_id,
            global_program_id,

            user_details: self.user_details,
            resource_id: self.resource_id,
            resource_password: self.resource_password,
            access: self.access,

            use_global_program_id,
        }
    }
}

} // verus!
