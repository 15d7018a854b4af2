//! The registered users and their passwords.
use vstd::prelude::*;

use crate::identity::{IdView, ViewEq};
use crate::registry_implementation::keyed_entries::KeyedEntries;
use crate::registry_implementation::primitives::{UserId, UserPassword, UserPasswordView};

verus! {

/// Whether the credentials `m` hold the user `id` with a password whose view is `password`.
pub open spec fn credentials_verify(m: Map<IdView, UserPassword>, id: IdView, password: UserPasswordView) -> bool {
    m.contains_key(id) && m[id]@ == password
}

/// The credentials after registering `id` with `password`: a user already there keeps its password.
pub open spec fn credentials_register(m: Map<IdView, UserPassword>, id: IdView, password: UserPassword) -> Map<IdView, UserPassword> {
    if m.contains_key(id) { m } else { m.insert(id, password) }
}

/// The credentials after giving `id` the password `password`, where `id` is registered.
pub open spec fn credentials_update(m: Map<IdView, UserPassword>, id: IdView, password: UserPassword) -> Map<IdView, UserPassword> {
    if m.contains_key(id) { m.insert(id, password) } else { m }
}

/// Users and the passwords they registered with, at most one password per user.
pub struct CredentialStorage {
    inner: KeyedEntries<UserId, UserPassword>,
}

impl View for CredentialStorage {
    type V = Map<IdView, UserPassword>;

    closed spec fn view(&self) -> Map<IdView, UserPassword> {
        self.inner.view()
    }
}

impl CredentialStorage {
    pub closed spec fn wf(&self) -> bool {
        self.inner.wf()
    }

    /// A storage with no users.
    pub fn new() -> (r: Self)
        ensures
            r.wf(),
            r@ == Map::<IdView, UserPassword>::empty(),
    {
        CredentialStorage { inner: KeyedEntries::new() }
    }

    /// Whether `id` is registered with `password`.
    pub fn verify(&self, id: &UserId, password: &UserPassword) -> (r: bool)
        requires
            self.wf(),
        ensures
            r == credentials_verify(self@, id@, password@),
    {
        match self.inner.get(id) {
            Some(registered_password) => registered_password.view_eq(password),
            None => false,
        }
    }

    /// Registers `id` with `password`; refused (`false`, nothing changed) when `id` is registered already.
    pub fn register(&mut self, id: UserId, password: UserPassword) -> (r: bool)
        requires
            old(self).wf(),
        ensures
            final(self).wf(),
            r == !old(self)@.contains_key(id@),
            final(self)@ == credentials_register(old(self)@, id@, password),
    {
        if self.inner.contains_key(&id) {
            return false;
        }
        self.inner.insert(id, password).is_none()
    }

    /// Gives the registered user `id` the password `new_password`; `false`, nothing changed, when `id` is not registered.
    pub fn update_password(&mut self, id: &UserId, new_password: UserPassword) -> (r: bool)
        requires
            old(self).wf(),
        ensures
            final(self).wf(),
            r == old(self)@.contains_key(id@),
            final(self)@ == credentials_update(old(self)@, id@, new_password),
    {
        match self.inner.get_mut(id) {
            Some(old_password) => {
                *old_password = new_password;
                true
            },
            None => false,
        }
    }

    /// Removes the user `id`; whether it was registered.
    pub fn unregister(&mut self, id: &UserId) -> (r: bool)
        requires
            old(self).wf(),
        ensures
            final(self).wf(),
            r == old(self)@.contains_key(id@),
            final(self)@ == old(self)@.remove(id@),
    {
        self.inner.remove(id).is_some()
    }
}

impl Default for CredentialStorage {
    fn default() -> (r: Self)
        ensures
            r.wf(),
            r@ == Map::<IdView, UserPassword>::empty(),
    {
        CredentialStorage::new()
    }
}

/// Once `id` is registered with `password`, `password` verifies for `id`.
pub proof fn law_register_then_verify(m: Map<IdView, UserPassword>, id: IdView, password: UserPassword)
    requires
        !m.contains_key(id),
    ensures
        credentials_verify(credentials_register(m, id, password), id, password@),
{
}

/// Registering a user that is already registered changes nothing, whatever the password.
pub proof fn law_register_keeps_existing(m: Map<IdView, UserPassword>, id: IdView, password: UserPassword)
    requires
        m.contains_key(id),
    ensures
        credentials_register(m, id, password) == m,
{
}

/// After a password update, the new password verifies, and no password differing from it does.
pub proof fn law_update_then_verify(
    m: Map<IdView, UserPassword>,
    id: IdView,
    new_password: UserPassword,
    other: UserPasswordView,
)
    requires
        m.contains_key(id),
    ensures
        credentials_verify(credentials_update(m, id, new_password), id, new_password@),
        other != new_password@ ==> !credentials_verify(credentials_update(m, id, new_password), id, other),
{
}

/// Once `id` is unregistered, no password verifies for it.
pub proof fn law_unregister_then_reject(m: Map<IdView, UserPassword>, id: IdView, password: UserPasswordView)
    ensures
        !credentials_verify(m.remove(id), id, password),
{
}

/// Operations on one user leave every other user's verification unchanged.
pub proof fn law_other_users_unaffected(
    m: Map<IdView, UserPassword>,
    id: IdView,
    other: IdView,
    password: UserPassword,
    probe: UserPasswordView,
)
    requires
        id != other,
    ensures
        credentials_verify(credentials_register(m, id, password), other, probe) == credentials_verify(m, other, probe),
        credentials_verify(credentials_update(m, id, password), other, probe) == credentials_verify(m, other, probe),
        credentials_verify(m.remove(id), other, probe) == credentials_verify(m, other, probe),
{
}

} // verus!
