//! Type-erased resources: what the registry asks of a stored value, and the box
//! it is kept in.
use vstd::prelude::*;

verus! {

/// A stored value was read as a type that it does not hold.
#[derive(Debug)]
pub enum DowncastError {
    Downcasting { expected: &'static str, found: &'static str },
}

impl Clone for DowncastError {
    fn clone(&self) -> (r: Self)
        ensures
            r == *self,
    {
        match self {
            DowncastError::Downcasting { expected, found } => DowncastError::Downcasting { expected, found },
        }
    }
}

/// A value that can be read back as the concrete type it holds; each method
/// fails with a [`DowncastError`] when the value does not hold a `T`.
pub trait ValueTrait: Sized {
    fn as_ref<T: 'static>(&self) -> Result<&T, DowncastError>;

    fn as_mut<T: 'static>(&mut self) -> Result<&mut T, DowncastError>;

    fn into<T: 'static>(self) -> Result<T, DowncastError>;
}

/// A resource as the registry stores it: boxed, so that it keeps its address.
pub struct StoredResource<R> {
    resource: Box<R>,
}

impl<R> View for StoredResource<R> {
    type V = R;

    closed spec fn view(&self) -> R {
        *self.resource
    }
}

impl<R> StoredResource<R> {
    /// Boxes `value` for storage.
    pub fn new(value: R) -> (r: Self)
        ensures
            r@ == value,
    {
        StoredResource { resource: Box::new(value) }
    }

    /// The stored resource, shared.
    pub fn as_shared(&self) -> (r: &R)
        ensures
            *r == self@,
    {
        &self.resource
    }

    /// The stored resource, to change in place.
    pub fn as_unique(&mut self) -> (r: &mut R)
        ensures
            *r == old(self)@,
            final(self)@ == *final(r),
    {
        &mut self.resource
    }

    /// The stored resource, taken out of storage.
    pub fn into_inner(self) -> (r: R)
        ensures
            r == self@,
    {
        *self.resource
    }
}

} // verus!
