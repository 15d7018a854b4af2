//! Equality by abstract value, and the identity of Rust types.
use std::any::TypeId;

use vstd::prelude::*;

verus! {

/// `std::any::TypeId`, held as an opaque value.
#[verifier::external_type_specification]
#[verifier::external_body]
pub struct ExTypeId(std::any::TypeId);

/// Values whose equality is decided by comparing their views.
pub trait ViewEq: View + Sized {
    fn view_eq(&self, other: &Self) -> (r: bool)
        ensures
            r == (self@ == other@),
    ;
}

/// `<TypeId as PartialEq>::eq`: two type identifiers compare equal exactly when
/// they are the same value (both name the same type).
#[verifier::external_body]
pub(crate) fn type_id_eq(a: &TypeId, b: &TypeId) -> (r: bool)
    ensures
        r == (*a == *b),
{
    *a == *b
}

/// `TypeId::of::<T>()`. Which identifier comes back is not stated: it depends on
/// the type argument alone, which no specification here can name.
#[verifier::external_body]
pub(crate) fn type_id_of<T: ?Sized + 'static>() -> TypeId {
    TypeId::of::<T>()
}

/// The view of an identifier that is either a label or a Rust type.
pub enum IdView {
    Label(Seq<char>),
    TypeId(TypeId),
}

} // verus!
