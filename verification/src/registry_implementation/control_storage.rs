//! Which user owns which value.
use vstd::prelude::*;

use crate::identity::{IdView, ViewEq};
use crate::registry_implementation::keyed_entries::{without_value, KeyedEntries};
use crate::registry_implementation::primitives::UserId;

verus! {

/// Whether, in the ownership map `m`, the value `resource_id` is owned by the user `id`.
pub open spec fn owned_by<RV>(m: Map<RV, UserId>, id: IdView, resource_id: RV) -> bool {
    m.contains_key(resource_id) && m[resource_id]@ == id
}

/// The owner of each owned value, at most one per value.
pub struct ControlStorage<ValueId> {
    inner: KeyedEntries<ValueId, UserId>,
}

impl<ValueId: ViewEq> View for ControlStorage<ValueId> {
    type V = Map<ValueId::V, UserId>;

    closed spec fn view(&self) -> Map<ValueId::V, UserId> {
        self.inner.view()
    }
}

impl<ValueId: ViewEq> ControlStorage<ValueId> {
    pub closed spec fn wf(&self) -> bool {
        self.inner.wf()
    }

    /// A storage in which nothing is owned.
    pub fn new() -> (r: Self)
        ensures
            r.wf(),
            r@ == Map::<ValueId::V, UserId>::empty(),
    {
        ControlStorage { inner: KeyedEntries::new() }
    }

    /// Whether `id` owns `resource_id`.
    pub fn check_owner(&self, id: &UserId, resource_id: &ValueId) -> (r: bool)
        requires
            self.wf(),
        ensures
            r == owned_by(self@, id@, resource_id@),
    {
        match self.inner.get(resource_id) {
            Some(owner) => owner.view_eq(id),
            None => false,
        }
    }

    /// Gives up the ownership of `resource_id`; whether it was owned.
    pub fn release(&mut self, resource_id: &ValueId) -> (r: bool)
        requires
            old(self).wf(),
        ensures
            final(self).wf(),
            r == old(self)@.contains_key(resource_id@),
            final(self)@ == old(self)@.remove(resource_id@),
    {
        self.inner.remove(resource_id).is_some()
    }

    /// Makes `id` the owner of `resource_id`, in place of any owner it had; always `true`.
    pub fn own(&mut self, id: UserId, resource_id: ValueId) -> (r: bool)
        requires
            old(self).wf(),
        ensures
            final(self).wf(),
            r,
            final(self)@ == old(self)@.insert(resource_id@, id),
    {
        self.inner.insert(resource_id, id);
        true
    }

    /// Whether anyone owns `resource_id`.
    pub fn is_owned(&self, resource_id: &ValueId) -> (r: bool)
        requires
            self.wf(),
        ensures
            r == self@.contains_key(resource_id@),
    {
        self.inner.contains_key(resource_id)
    }

    /// Gives up every value that `id` owns; gives back those values, each once.
    pub fn release_id(&mut self, id: &UserId) -> (r: Vec<ValueId>)
        requires
            old(self).wf(),
        ensures
            final(self).wf(),
            final(self)@ == without_value(old(self)@, id@),
            forall|i: int, j: int| 0 <= i < j < r@.len() ==> #[trigger] r@[i]@ != #[trigger] r@[j]@,
            forall|i: int| 0 <= i < r@.len() ==> owned_by(old(self)@, id@, #[trigger] r@[i]@),
            forall|k: ValueId::V| #[trigger] owned_by(old(self)@, id@, k)
                ==> exists|i: int| 0 <= i < r@.len() && #[trigger] r@[i]@ == k,
    {
        self.inner.extract_with_value(id)
    }
}

impl<ValueId: ViewEq> Default for ControlStorage<ValueId> {
    fn default() -> (r: Self)
        ensures
            r.wf(),
            r@ == Map::<ValueId::V, UserId>::empty(),
    {
        ControlStorage::new()
    }
}

/// After `id` takes ownership of `resource_id`, `id` owns it, and no other user does.
pub proof fn law_own_then_owner<RV>(m: Map<RV, UserId>, owner: UserId, other: IdView, resource_id: RV)
    ensures
        owned_by(m.insert(resource_id, owner), owner@, resource_id),
        other != owner@ ==> !owned_by(m.insert(resource_id, owner), other, resource_id),
{
}

/// After `resource_id` is released, nobody owns it.
pub proof fn law_release_then_unowned<RV>(m: Map<RV, UserId>, id: IdView, resource_id: RV)
    ensures
        !m.remove(resource_id).contains_key(resource_id),
        !owned_by(m.remove(resource_id), id, resource_id),
{
}

/// After releasing every value of `id`, `id` owns nothing, and every other owner keeps what it had.
pub proof fn law_release_id<RV>(m: Map<RV, UserId>, id: IdView, other: IdView, resource_id: RV)
    ensures
        !owned_by(without_value(m, id), id, resource_id),
        other != id ==> owned_by(without_value(m, id), other, resource_id) == owned_by(m, other, resource_id),
{
}

} // verus!
