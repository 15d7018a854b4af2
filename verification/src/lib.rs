use vstd::prelude::*;

pub mod identity;
pub mod program_registry;
pub mod registry_implementation;

verus! {
} // verus!
