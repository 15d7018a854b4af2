//! An access asked for by reference, and the builder it becomes.
use vstd::prelude::*;

use crate::program_registry::ids::{ProgramId, ResourceId};
use crate::registry_implementation::primitives::{UserId, UserPassword, ValuePassword};

verus! {

/// An access ready to be submitted, borrowing its identifiers, with the global
/// program to fall back on.
pub struct AccessBuilder<'a, A> {
    pub program_id: &'a ProgramId,
    pub program_password: Option<&'a ValuePassword>,

    pub global_program_id: &'a ProgramId,
    pub use_global_program_id: bool,

    pub user_details: Option<(&'a UserId, &'a UserPassword)>,
    pub resource_id: Option<ResourceId>,
    pub resource_access: Option<A>,
    pub resource_password: Option<&'a ValuePassword>,
}

/// An access to a program, and possibly to one of its resources.
pub struct PromptedProgramAccess<'a, A> {
    pub program_id: &'a ProgramId,
    pub program_password: Option<&'a ValuePassword>,

    pub user_details: Option<(&'a UserId, &'a UserPassword)>,
    pub resource_id: Option<ResourceId>,
    pub resource_access: Option<A>,
    pub resource_password: Option<&'a ValuePassword>,
}

impl<'a, A> PromptedProgramAccess<'a, A> {
    /// The builder for this access, given the global program and whether to use it.
    pub fn with(self, global_program_id: &'a ProgramId, use_global_program_id: bool) -> (r: AccessBuilder<'a, A>)
        ensures
            r == (AccessBuilder {
                program_id: self.program_id,
                program_password: self.program_password,
                global_program_id,
                use_global_program_id,
                user_details: self.user_details,
                resource_id: self.resource_id,
                resource_access: self.resource_access,
                resource_password: self.resource_password,
            }),
    {
        AccessBuilder {
            program_id: self.program_id,
            program_password: self.program_password,

            global_program_id,
            use_global_program_id,

            user_details: self.user_details,
            resource_id: self.resource_id,
            resource_access: self.resource_access,
            resource_password: self.resource_password,
        }
    }
}

} // verus!
