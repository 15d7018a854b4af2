//! Where an access is directed.
use vstd::prelude::*;

use crate::program_registry::ids::{ProgramId, ResourceId};

verus! {

/// The program and resource an access is directed at, each with an optional key.
pub struct AccessParameter<'a, ProgramKeyId, ResourceKeyId> {
    pub program_id: Option<ProgramId>,
    pub program_key: Option<&'a ProgramKeyId>,

    pub resource_id: Option<ResourceId>,
    pub resource_key: Option<&'a ResourceKeyId>,
}

} // verus!
