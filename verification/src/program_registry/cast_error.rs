//! Failures to read a resolved resource as a concrete type.
use vstd::prelude::*;

use crate::program_registry::resource::DowncastError;

verus! {

/// A resolved resource could not be read as the requested type; the variant
/// names the kind of access it was resolved with.
#[derive(Debug)]
pub enum CastError {
    Shared(DowncastError),
    Unique(DowncastError),
    Owned(DowncastError),
}

impl Clone for CastError {
    fn clone(&self) -> (r: Self)
        ensures
            r == *self,
    {
        match self {
            CastError::Shared(e) => CastError::Shared(e.clone()),
            CastError::Unique(e) => CastError::Unique(e.clone()),
            CastError::Owned(e) => CastError::Owned(e.clone()),
        }
    }
}

} // verus!
