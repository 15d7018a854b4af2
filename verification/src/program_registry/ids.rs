//! The identifiers of programs and of the resources within them.
use std::any::TypeId;

use vstd::prelude::*;

use crate::identity::{type_id_eq, IdView, ViewEq};

verus! {

/// A program, named by a label or by a Rust type.
#[derive(Debug, PartialEq, Eq, Hash)]
pub enum ProgramId {
    Label(String),
    TypeId(TypeId),
}

impl View for ProgramId {
    type V = IdView;

    open spec fn view(&self) -> IdView {
        match self {
            ProgramId::Label(s) => IdView::Label(s@),
            ProgramId::TypeId(t) => IdView::TypeId(*t),
        }
    }
}

impl ViewEq for ProgramId {
    fn view_eq(&self, other: &Self) -> (r: bool) {
        match (self, other) {
            (ProgramId::Label(a), ProgramId::Label(b)) => *a == *b,
            (ProgramId::TypeId(a), ProgramId::TypeId(b)) => type_id_eq(a, b),
            _ => false,
        }
    }
}

impl Clone for ProgramId {
    fn clone(&self) -> (r: Self)
        ensures
            r@ == self@,
    {
        match self {
            ProgramId::Label(s) => ProgramId::Label(s.clone()),
            ProgramId::TypeId(t) => ProgramId::TypeId(*t),
        }
    }
}

/// A resource within a program, named by a label or by a Rust type.
#[derive(Debug, PartialEq, Eq, Hash)]
pub enum ResourceId {
    Label(String),
    TypeId(TypeId),
}

impl View for ResourceId {
    type V = IdView;

    open spec fn view(&self) -> IdView {
        match self {
            ResourceId::Label(s) => IdView::Label(s@),
            ResourceId::TypeId(t) => IdView::TypeId(*t),
        }
    }
}

impl ViewEq for ResourceId {
    fn view_eq(&self, other: &Self) -> (r: bool) {
        match (self, other) {
            (ResourceId::Label(a), ResourceId::Label(b)) => *a == *b,
            (ResourceId::TypeId(a), ResourceId::TypeId(b)) => type_id_eq(a, b),
            _ => false,
        }
    }
}

impl Clone for ResourceId {
    fn clone(&self) -> (r: Self)
        ensures
            r@ == self@,
    {
        match self {
            ResourceId::Label(s) => ResourceId::Label(s.clone()),
            ResourceId::TypeId(t) => ResourceId::TypeId(*t),
        }
    }
}

} // verus!
