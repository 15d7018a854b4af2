//! The storage of the resources of one program.
use vstd::prelude::*;

use crate::identity::IdView;
use crate::program_registry::ids::ResourceId;
use crate::program_registry::resource::StoredResource;
use crate::registry_implementation::keyed_entries::KeyedEntries;

verus! {

/// The kinds that make up the storage of a program's resources.
pub struct Storage;

/// A program's stored resources, at most one per resource id.
pub struct RegistryStorage<R> {
    inner: KeyedEntries<ResourceId, StoredResource<R>>,
}

impl<R> View for RegistryStorage<R> {
    type V = Map<IdView, StoredResource<R>>;

    closed spec fn view(&self) -> Map<IdView, StoredResource<R>> {
        self.inner.view()
    }
}

impl<R> RegistryStorage<R> {
    pub closed spec fn wf(&self) -> bool {
        self.inner.wf()
    }

    /// A storage with no resources.
    pub fn new() -> (r: Self)
        ensures
            r.wf(),
            r@ == Map::<IdView, StoredResource<R>>::empty(),
    {
        RegistryStorage { inner: KeyedEntries::new() }
    }

    /// The resource stored under `value_id`, to change in place.
    pub fn get_mut(&mut self, value_id: &ResourceId) -> (r: Option<&mut StoredResource<R>>)
        requires
            old(self).wf(),
        ensures
            final(self).wf(),
            match r {
                Some(v) => old(self)@.contains_key(value_id@) && *v == old(self)@[value_id@]
                    && final(self)@ == old(self)@.insert(value_id@, *final(v)),
                None => !old(self)@.contains_key(value_id@) && final(self)@ == old(self)@,
            },
    {
        self.inner.get_mut(value_id)
    }

    /// Stores `value` under `value_id`; gives back the resource it replaces.
    pub fn insert(&mut self, value_id: ResourceId, value: StoredResource<R>) -> (r: Option<StoredResource<R>>)
        requires
            old(self).wf(),
        ensures
            final(self).wf(),
            final(self)@ == old(self)@.insert(value_id@, value),
            r == (if old(self)@.contains_key(value_id@) { Some(old(self)@[value_id@]) } else { None::<StoredResource<R>> }),
    {
        self.inner.insert(value_id, value)
    }

    /// Removes the resource under `value_id`; gives it back.
    pub fn remove(&mut self, value_id: &ResourceId) -> (r: Option<StoredResource<R>>)
        requires
            old(self).wf(),
        ensures
            final(self).wf(),
            final(self)@ == old(self)@.remove(value_id@),
            r == (if old(self)@.contains_key(value_id@) { Some(old(self)@[value_id@]) } else { None::<StoredResource<R>> }),
    {
        self.inner.remove(value_id)
    }

    /// Whether a resource is stored under `value_id`.
    pub fn contains_key(&self, value_id: &ResourceId) -> (r: bool)
        requires
            self.wf(),
        ensures
            r == self@.contains_key(value_id@),
    {
        self.inner.contains_key(value_id)
    }
}

impl<R> Default for RegistryStorage<R> {
    fn default() -> (r: Self)
        ensures
            r.wf(),
            r@ == Map::<IdView, StoredResource<R>>::empty(),
    {
        RegistryStorage::new()
    }
}

} // verus!
