//! What an access to a stored value hands out.
use vstd::prelude::*;

use crate::program_registry::cast_error::CastError;
use crate::program_registry::resource::{DowncastError, ValueTrait};

verus! {

/// A value reached through a shared access, a unique access, or taken out of storage.
pub enum AccessResult<'a, T> {
    Shared(&'a T),
    Unique(&'a mut T),
    Owned(T),
}

impl<'a, T> AccessResult<'a, T> {
    /// Wraps a shared borrow.
    pub fn new_shared(value: &'a T) -> (r: Self)
        ensures
            r matches AccessResult::Shared(v) && *v == *value,
    {
        AccessResult::Shared(value)
    }

    /// Wraps a unique borrow.
    pub fn new_unique(value: &'a mut T) -> (r: Self)
        ensures
            r matches AccessResult::Unique(v) && *v == *old(value),
    {
        AccessResult::Unique(value)
    }

    /// Wraps a value taken out of storage.
    pub fn new_owned(value: T) -> (r: Self)
        ensures
            r == AccessResult::<'a, T>::Owned(value),
    {
        AccessResult::Owned(value)
    }

    /// The value, whatever the kind of access.
    pub fn as_ref(&self) -> (r: Option<&T>)
        ensures
            r is Some,
            match *self {
                AccessResult::Shared(x) => *r->0 == *x,
                AccessResult::Unique(x) => *r->0 == *x,
                AccessResult::Owned(x) => *r->0 == x,
            },
    {
        match self {
            AccessResult::Shared(inner) => Some(inner),
            AccessResult::Unique(inner) => Some(inner),
            AccessResult::Owned(inner) => Some(inner),
        }
    }

    /// The value, to change in place; a shared access cannot give it.
    pub fn as_mut(&mut self) -> (r: Option<&mut T>)
        requires
            !(*old(self) is Shared),
        ensures
            r is Some,
            match *old(self) {
                AccessResult::Unique(x) => *r->0 == *x,
                AccessResult::Owned(x) => *r->0 == x,
                AccessResult::Shared(_) => false,
            },
            (*old(self) is Owned) ==> *final(self) == AccessResult::<'a, T>::Owned(*final(r->0)),
            (*old(self) is Unique) ==> (*final(self) is Unique && *final(self)->Unique_0 == *final(r->0)),
    {
        match self {
            AccessResult::Unique(inner) => Some(inner),
            AccessResult::Owned(inner) => Some(inner),
            AccessResult::Shared(_) => {
                proof {
                    assert(false);
                }
                None
            },
        }
    }
}

/// Some unique borrow of a value equal to `value`, read as a `Y`, gives a
/// borrow of a value equal to `y`.
pub open spec fn unique_read_gives<R: ValueTrait, Y: 'static>(value: R, y: Y) -> bool {
    exists|m: &mut R, w: &mut Y| *m == value && *w == y
        && #[trigger] call_ensures(R::as_mut::<Y>, (m,), Ok::<&mut Y, DowncastError>(w))
}

/// Some unique borrow of a value equal to `value`, read as a `Y`, fails with `e`.
pub open spec fn unique_read_fails<R: ValueTrait, Y: 'static>(value: R, e: DowncastError) -> bool {
    exists|m: &mut R| *m == value
        && #[trigger] call_ensures(R::as_mut::<Y>, (m,), Err::<&mut Y, DowncastError>(e))
}

impl<'a, R: ValueTrait> AccessResult<'a, R> {
    /// Reads the resource as a `Y`, keeping the kind of access: the result is
    /// what the resource's own reading gives, its error marked with that kind.
    /// A unique access is read through a fresh reborrow, so for it the contract
    /// speaks of the values borrowed rather than of the borrows themselves.
    pub fn cast<Y: 'static>(self) -> (r: Result<AccessResult<'a, Y>, CastError>)
        ensures
            match self {
                AccessResult::Shared(v) => match r {
                    Ok(AccessResult::Shared(y)) => call_ensures(R::as_ref::<Y>, (v,), Ok::<&Y, DowncastError>(y)),
                    Err(CastError::Shared(e)) => call_ensures(R::as_ref::<Y>, (v,), Err::<&Y, DowncastError>(e)),
                    _ => false,
                },
                AccessResult::Unique(v) => match r {
                    Ok(AccessResult::Unique(y)) => unique_read_gives(*v, *y),
                    Err(CastError::Unique(e)) => unique_read_fails::<R, Y>(*v, e),
                    _ => false,
                },
                AccessResult::Owned(v) => match r {
                    Ok(AccessResult::Owned(y)) => call_ensures(R::into::<Y>, (v,), Ok::<Y, DowncastError>(y)),
                    Err(CastError::Owned(e)) => call_ensures(R::into::<Y>, (v,), Err::<Y, DowncastError>(e)),
                    _ => false,
                },
            },
    {
        match self {
            AccessResult::Shared(resource) => match resource.as_ref::<Y>() {
                Ok(y) => Ok(AccessResult::Shared(y)),
                Err(e) => Err(CastError::Shared(e)),
            },
            AccessResult::Unique(resource) => {
                let ghost before = *resource;
                let res = resource.as_mut::<Y>();
                match res {
                    Ok(y) => {
                        let ghost read = y;
                        let out = AccessResult::Unique(y);
                        assert(unique_read_gives::<R, Y>(before, *read));
                        Ok(out)
                    },
                    Err(e) => Err(CastError::Unique(e)),
                }
            },
            AccessResult::Owned(resource) => match resource.into::<Y>() {
                Ok(y) => Ok(AccessResult::Owned(y)),
                Err(e) => Err(CastError::Owned(e)),
            },
        }
    }
}

} // verus!
