//! The identifier of a value in a registry storage.
use std::any::TypeId;

use vstd::prelude::*;

use crate::identity::{type_id_eq, IdView, ViewEq};

verus! {

/// A stored value, named by a label or by a Rust type.
#[derive(Debug, PartialEq, Eq, Hash)]
pub enum ResourceId {
    Label(String),
    TypeId(TypeId),
}

impl View for ResourceId {
    type V = IdView;

    open spec fn view(&self) -> IdView {
        match self {
            ResourceId::Label(s) => IdView::Label(s@),
            ResourceId::TypeId(t) => IdView::TypeId(*t),
        }
    }
}

impl ViewEq for ResourceId {
    fn view_eq(&self, other: &Self) -> (r: bool) {
        match (self, other) {
            (ResourceId::Label(a), ResourceId::Label(b)) => *a == *b,
            (ResourceId::TypeId(a), ResourceId::TypeId(b)) => type_id_eq(a, b),
            _ => false,
        }
    }
}

} // verus!
