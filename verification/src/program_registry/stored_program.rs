//! A program as the program registry stores it.
use std::sync::Arc;

use vstd::prelude::*;

verus! {

/// A program, shared by reference count so that a handle outlives the registry's borrow.
pub struct StoredProgram<P> {
    program: Arc<P>,
}

impl<P> View for StoredProgram<P> {
    type V = P;

    closed spec fn view(&self) -> P {
        *self.program
    }
}

impl<P> StoredProgram<P> {
    /// A stored program holding `program`.
    pub fn from_program(program: Arc<P>) -> (r: Self)
        ensures
            r@ == *program,
    {
        StoredProgram { program }
    }

    /// Stores a value that is already a stored program: itself.
    pub fn new(value: Self) -> (r: Self)
        ensures
            r == value,
    {
        value
    }

    /// The stored program, shared.
    pub fn as_shared(&self) -> (r: &Self)
        ensures
            *r == *self,
    {
        self
    }

    /// The handle on the program.
    pub fn program(&self) -> (r: &Arc<P>)
        ensures
            **r == self@,
    {
        &self.program
    }
}

} // verus!
