//! The accesses each user has reserved.
use vstd::prelude::*;

use crate::identity::IdView;
use crate::registry_implementation::keyed_entries::KeyedEntries;
use crate::registry_implementation::primitives::UserId;

verus! {

/// The reserved accesses of each user, at most one record per user.
pub struct ReservationStorage<Accesses> {
    inner: KeyedEntries<UserId, Accesses>,
}

impl<Accesses> View for ReservationStorage<Accesses> {
    type V = Map<IdView, Accesses>;

    closed spec fn view(&self) -> Map<IdView, Accesses> {
        self.inner.view()
    }
}

impl<Accesses> ReservationStorage<Accesses> {
    pub closed spec fn wf(&self) -> bool {
        self.inner.wf()
    }

    /// A storage without reservations.
    pub fn new() -> (r: Self)
        ensures
            r.wf(),
            r@ == Map::<IdView, Accesses>::empty(),
    {
        ReservationStorage { inner: KeyedEntries::new() }
    }

    /// The reservations of `key`, to change in place.
    pub fn get_mut(&mut self, key: &UserId) -> (r: Option<&mut Accesses>)
        requires
            old(self).wf(),
        ensures
            final(self).wf(),
            match r {
                Some(v) => old(self)@.contains_key(key@) && *v == old(self)@[key@]
                    && final(self)@ == old(self)@.insert(key@, *final(v)),
                None => !old(self)@.contains_key(key@) && final(self)@ == old(self)@,
            },
    {
        self.inner.get_mut(key)
    }

    /// Records `accesses` for `key`; gives back the record it replaces.
    pub fn insert(&mut self, key: UserId, accesses: Accesses) -> (r: Option<Accesses>)
        requires
            old(self).wf(),
        ensures
            final(self).wf(),
            final(self)@ == old(self)@.insert(key@, accesses),
            r == (if old(self)@.contains_key(key@) { Some(old(self)@[key@]) } else { None::<Accesses> }),
    {
        self.inner.insert(key, accesses)
    }

    /// Every user with its reservations, each user once.
    pub fn iter(&self) -> (r: Vec<(&UserId, &Accesses)>)
        requires
            self.wf(),
        ensures
            r@.len() == self@.len(),
            forall|i: int, j: int| 0 <= i < j < r@.len() ==> #[trigger] r@[i].0@ != #[trigger] r@[j].0@,
            forall|i: int| 0 <= i < r@.len() ==> self@.contains_key(#[trigger] r@[i].0@)
                && self@[r@[i].0@] == *r@[i].1,
            forall|k: IdView| #[trigger] self@.contains_key(k) ==> exists|i: int| 0 <= i < r@.len() && #[trigger] r@[i].0@ == k,
    {
        self.inner.iter()
    }
}

impl<Accesses> Default for ReservationStorage<Accesses> {
    fn default() -> (r: Self)
        ensures
            r.wf(),
            r@ == Map::<IdView, Accesses>::empty(),
    {
        ReservationStorage::new()
    }
}

} // verus!
