//! The identifiers and passwords of users and values.
use std::any::TypeId;

use vstd::prelude::*;

use crate::identity::{type_id_eq, type_id_of, IdView, ViewEq};

verus! {

/// A user, named by a label or by a Rust type.
#[derive(Debug, PartialEq, Eq, Hash)]
pub enum UserId {
    Label(String),
    TypeId(TypeId),
}

impl View for UserId {
    type V = IdView;

    open spec fn view(&self) -> IdView {
        match self {
            UserId::Label(s) => IdView::Label(s@),
            UserId::TypeId(t) => IdView::TypeId(*t),
        }
    }
}

impl ViewEq for UserId {
    fn view_eq(&self, other: &Self) -> (r: bool) {
        match (self, other) {
            (UserId::Label(a), UserId::Label(b)) => *a == *b,
            (UserId::TypeId(a), UserId::TypeId(b)) => type_id_eq(a, b),
            _ => false,
        }
    }
}

impl Clone for UserId {
    fn clone(&self) -> (r: Self)
        ensures
            r@ == self@,
    {
        match self {
            UserId::Label(s) => UserId::Label(s.clone()),
            UserId::TypeId(t) => UserId::TypeId(*t),
        }
    }
}

/// The view of a [`UserPassword`].
pub enum UserPasswordView {
    Label(Seq<char>),
    Number(u64),
    TypeId(TypeId),
}

/// The password a user registers with.
#[derive(Debug, PartialEq)]
pub enum UserPassword {
    Label(String),
    Number(u64),
    TypeId(TypeId),
}

impl View for UserPassword {
    type V = UserPasswordView;

    open spec fn view(&self) -> UserPasswordView {
        match self {
            UserPassword::Label(s) => UserPasswordView::Label(s@),
            UserPassword::Number(n) => UserPasswordView::Number(*n),
            UserPassword::TypeId(t) => UserPasswordView::TypeId(*t),
        }
    }
}

impl ViewEq for UserPassword {
    fn view_eq(&self, other: &Self) -> (r: bool) {
        match (self, other) {
            (UserPassword::Label(a), UserPassword::Label(b)) => *a == *b,
            (UserPassword::Number(a), UserPassword::Number(b)) => *a == *b,
            (UserPassword::TypeId(a), UserPassword::TypeId(b)) => type_id_eq(a, b),
            _ => false,
        }
    }
}

impl Clone for UserPassword {
    fn clone(&self) -> (r: Self)
        ensures
            r@ == self@,
    {
        match self {
            UserPassword::Label(s) => UserPassword::Label(s.clone()),
            UserPassword::Number(n) => UserPassword::Number(*n),
            UserPassword::TypeId(t) => UserPassword::TypeId(*t),
        }
    }
}

impl UserPassword {
    /// The password that is the identity of the type `T`.
    pub fn type_id<T: 'static>() -> (r: Self)
        ensures
            r is TypeId,
    {
        UserPassword::TypeId(type_id_of::<T>())
    }
}

/// The password that guards one allowed access to a value.
#[derive(Debug, PartialEq, Eq, Structural)]
pub struct ValuePassword {
    password: u64,
}

impl View for ValuePassword {
    type V = u64;

    closed spec fn view(&self) -> u64 {
        self.password
    }
}

impl ViewEq for ValuePassword {
    fn view_eq(&self, other: &Self) -> (r: bool) {
        self.password == other.password
    }
}

impl Clone for ValuePassword {
    fn clone(&self) -> (r: Self)
        ensures
            r == *self,
    {
        ValuePassword { password: self.password }
    }
}

impl From<u64> for ValuePassword {
    fn from(value: u64) -> (r: Self)
        ensures
            r@ == value,
    {
        ValuePassword { password: value }
    }
}

impl vstd::std_specs::convert::FromSpecImpl<u64> for ValuePassword {
    open spec fn obeys_from_spec() -> bool {
        true
    }

    closed spec fn from_spec(v: u64) -> ValuePassword {
        ValuePassword { password: v }
    }
}

} // verus!
