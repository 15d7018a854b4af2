//! The stored values of a registry, by id.
use vstd::prelude::*;

use crate::identity::ViewEq;
use crate::registry_implementation::keyed_entries::KeyedEntries;

verus! {

/// The stored values, at most one per id.
pub struct RegistryStorage<ValueId, StoredValue> {
    inner: KeyedEntries<ValueId, StoredValue>,
}

impl<ValueId: ViewEq, StoredValue> View for RegistryStorage<ValueId, StoredValue> {
    type V = Map<ValueId::V, StoredValue>;

    closed spec fn view(&self) -> Map<ValueId::V, StoredValue> {
        self.inner.view()
    }
}

impl<ValueId: ViewEq, StoredValue> RegistryStorage<ValueId, StoredValue> {
    pub closed spec fn wf(&self) -> bool {
        self.inner.wf()
    }

    /// An empty storage.
    pub fn new() -> (r: Self)
        ensures
            r.wf(),
            r@ == Map::<ValueId::V, StoredValue>::empty(),
    {
        RegistryStorage { inner: KeyedEntries::new() }
    }

    /// The value stored under `value_id`, to change in place.
    pub fn get_mut(&mut self, value_id: &ValueId) -> (r: Option<&mut StoredValue>)
        requires
            old(self).wf(),
        ensures
            final(self).wf(),
            match r {
                Some(v) => old(self)@.contains_key(value_id@) && *v == old(self)@[value_id@]
                    && final(self)@ == old(self)@.insert(value_id@, *final(v)),
                None => !old(self)@.contains_key(value_id@) && final(self)@ == old(self)@,
            },
    {
        self.inner.get_mut(value_id)
    }

    /// Stores `value` under `value_id`; gives back the value it replaces.
    pub fn insert(&mut self, value_id: ValueId, value: StoredValue) -> (r: Option<StoredValue>)
        requires
            old(self).wf(),
        ensures
            final(self).wf(),
            final(self)@ == old(self)@.insert(value_id@, value),
            r == (if old(self)@.contains_key(value_id@) { Some(old(self)@[value_id@]) } else { None::<StoredValue> }),
    {
        self.inner.insert(value_id, value)
    }

    /// Removes the value under `value_id`; gives it back.
    pub fn remove(&mut self, value_id: &ValueId) -> (r: Option<StoredValue>)
        requires
            old(self).wf(),
        ensures
            final(self).wf(),
            final(self)@ == old(self)@.remove(value_id@),
            r == (if old(self)@.contains_key(value_id@) { Some(old(self)@[value_id@]) } else { None::<StoredValue> }),
    {
        self.inner.remove(value_id)
    }

    /// Whether a value is stored under `value_id`.
    pub fn contains_key(&self, value_id: &ValueId) -> (r: bool)
        requires
            self.wf(),
        ensures
            r == self@.contains_key(value_id@),
    {
        self.inner.contains_key(value_id)
    }

    /// The number of stored values.
    pub fn len(&self) -> (r: usize)
        requires
            self.wf(),
        ensures
            r == self@.len(),
            self@.dom().finite(),
    {
        self.inner.len()
    }
}

impl<ValueId: ViewEq, StoredValue> Default for RegistryStorage<ValueId, StoredValue> {
    fn default() -> (r: Self)
        ensures
            r.wf(),
            r@ == Map::<ValueId::V, StoredValue>::empty(),
    {
        RegistryStorage::new()
    }
}

/// What is stored under an id is read back unchanged, and storing or removing
/// under one id leaves every other id as it was.
pub proof fn law_read_after_write<KV, V>(m: Map<KV, V>, id: KV, other: KV, value: V)
    ensures
        m.insert(id, value).contains_key(id),
        m.insert(id, value)[id] == value,
        !m.remove(id).contains_key(id),
        other != id ==> m.insert(id, value).contains_key(other) == m.contains_key(other),
        other != id && m.contains_key(other) ==> m.insert(id, value)[other] == m[other],
        other != id ==> m.remove(id).contains_key(other) == m.contains_key(other),
        other != id && m.contains_key(other) ==> m.remove(id)[other] == m[other],
{
}

/// Storing under a new id adds one to the count; removing a stored id takes one away.
pub proof fn law_len<KV, V>(m: Map<KV, V>, id: KV, value: V)
    requires
        m.dom().finite(),
    ensures
        !m.contains_key(id) ==> m.insert(id, value).len() == m.len() + 1,
        m.contains_key(id) ==> m.insert(id, value).len() == m.len(),
        m.contains_key(id) ==> m.remove(id).len() == m.len() - 1,
{
}

} // verus!
