//! The access that a program is held with, and how accesses combine.
use vstd::prelude::*;

use crate::identity::ViewEq;

verus! {

/// How long a borrow lasts: for the moment of one operation, or until released.
#[derive(Debug, PartialEq, Eq, Structural, Clone, Copy)]
pub enum BorrowType {
    Instant,
    Held,
}

/// An access to a program: shared by a number of holders, or a replacement of it.
#[derive(Debug, PartialEq, Eq, Structural)]
pub enum ProgramAccess {
    Shared(usize),
    Replace,
}

impl View for ProgramAccess {
    type V = ProgramAccess;

    open spec fn view(&self) -> ProgramAccess {
        *self
    }
}

impl ViewEq for ProgramAccess {
    fn view_eq(&self, other: &Self) -> (r: bool) {
        *self == *other
    }
}

impl Clone for ProgramAccess {
    fn clone(&self) -> (r: Self)
        ensures
            r == *self,
    {
        match self {
            ProgramAccess::Shared(n) => ProgramAccess::Shared(*n),
            ProgramAccess::Replace => ProgramAccess::Replace,
        }
    }
}

/// A shared access with no holders, and a replacement, last an instant; a
/// shared access with holders is held.
pub open spec fn borrow_type_of(a: ProgramAccess) -> BorrowType {
    match a {
        ProgramAccess::Shared(n) => if n == 0 { BorrowType::Instant } else { BorrowType::Held },
        ProgramAccess::Replace => BorrowType::Instant,
    }
}

/// Whether an access `incoming` may join the access `current`.
pub open spec fn accepts(current: ProgramAccess, incoming: ProgramAccess) -> bool {
    match (borrow_type_of(current), borrow_type_of(incoming)) {
        (BorrowType::Held, BorrowType::Held) => current is Shared && incoming is Shared,
        (BorrowType::Held, BorrowType::Instant) => incoming != ProgramAccess::Replace,
        (BorrowType::Instant, _) => true,
    }
}

/// Whether `incoming` can be merged into `current`: a held access cannot be
/// replaced, and the holders must be countable in a `usize`.
pub open spec fn can_merge(current: ProgramAccess, incoming: ProgramAccess) -> bool {
    &&& !(borrow_type_of(current) == BorrowType::Held && incoming == ProgramAccess::Replace)
    &&& ((current is Shared && incoming is Shared) ==> current->Shared_0 + incoming->Shared_0 <= usize::MAX)
}

/// The access after `incoming` is merged into `current`.
pub open spec fn merged(current: ProgramAccess, incoming: ProgramAccess) -> ProgramAccess {
    if borrow_type_of(current) == BorrowType::Instant {
        incoming
    } else if borrow_type_of(incoming) == BorrowType::Instant {
        current
    } else {
        match (current, incoming) {
            (ProgramAccess::Shared(n), ProgramAccess::Shared(m)) => ProgramAccess::Shared((n + m) as usize),
            _ => current,
        }
    }
}

/// Whether `other` can be released from `current`: no more holders leave than there are.
pub open spec fn can_release(current: ProgramAccess, other: ProgramAccess) -> bool {
    (current is Shared && other is Shared) ==> other->Shared_0 <= current->Shared_0
}

/// The access after the holders of `other` leave `current`.
pub open spec fn released(current: ProgramAccess, other: ProgramAccess) -> ProgramAccess {
    match (current, other) {
        (ProgramAccess::Shared(n), ProgramAccess::Shared(m)) => ProgramAccess::Shared((n - m) as usize),
        _ => current,
    }
}

impl ProgramAccess {
    /// How long this access lasts.
    pub fn to_borrow_type(&self) -> (r: BorrowType)
        ensures
            r == borrow_type_of(*self),
    {
        match self {
            ProgramAccess::Shared(0) | ProgramAccess::Replace => BorrowType::Instant,
            ProgramAccess::Shared(_) => BorrowType::Held,
        }
    }

    /// Whether `incoming_access` may join this access.
    pub fn accepts_incoming(&self, incoming_access: &Self) -> (r: bool)
        ensures
            r == accepts(*self, *incoming_access),
    {
        match (self.to_borrow_type(), incoming_access.to_borrow_type()) {
            (BorrowType::Held, BorrowType::Held) => {
                match (self, incoming_access) {
                    (ProgramAccess::Shared(_), ProgramAccess::Shared(_)) => true,
                    _ => false,
                }
            },
            (BorrowType::Held, BorrowType::Instant) => *incoming_access != ProgramAccess::Replace,
            (BorrowType::Instant, _) => true,
        }
    }

    /// Whether this access may put a new program in place.
    pub fn can_insert_resource(&self) -> (r: bool)
        ensures
            r == (*self == ProgramAccess::Replace),
    {
        *self == ProgramAccess::Replace
    }

    /// Whether this access may take a program out.
    pub fn can_remove_resource(&self) -> (r: bool)
        ensures
            r == (*self == ProgramAccess::Replace),
    {
        *self == ProgramAccess::Replace
    }

    /// Merges `incoming_access` into this access: an instant access gives way to
    /// it, a held one gains its holders.
    pub fn merge(&mut self, incoming_access: Self)
        requires
            can_merge(*old(self), incoming_access),
        ensures
            *final(self) == merged(*old(self), incoming_access),
    {
        if self.to_borrow_type() == BorrowType::Instant {
            *self = incoming_access;
            return;
        }
        if incoming_access.to_borrow_type() == BorrowType::Instant {
            return;
        }
        match (self, incoming_access) {
            (ProgramAccess::Shared(n), ProgramAccess::Shared(m)) => *n += m,
            _ => {},
        }
    }

    /// Lets the holders of `other` leave this access.
    pub fn release(&mut self, other: &Self)
        requires
            can_release(*old(self), *other),
        ensures
            *final(self) == released(*old(self), *other),
    {
        match (self, other) {
            (ProgramAccess::Shared(n), ProgramAccess::Shared(m)) => *n -= *m,
            _ => {},
        }
    }
}

/// Merging two shared accesses adds up their holders, in either order.
pub proof fn law_merge_shared_adds(n: usize, m: usize)
    requires
        n + m <= usize::MAX,
    ensures
        can_merge(ProgramAccess::Shared(n), ProgramAccess::Shared(m)),
        merged(ProgramAccess::Shared(n), ProgramAccess::Shared(m)) == ProgramAccess::Shared((n + m) as usize),
        merged(ProgramAccess::Shared(n), ProgramAccess::Shared(m)) == merged(ProgramAccess::Shared(m), ProgramAccess::Shared(n)),
{
}

/// Releasing the holders that a merge added gives back the access as it was.
pub proof fn law_release_undoes_merge(n: usize, m: usize)
    requires
        n + m <= usize::MAX,
    ensures
        can_release(merged(ProgramAccess::Shared(n), ProgramAccess::Shared(m)), ProgramAccess::Shared(m)),
        released(merged(ProgramAccess::Shared(n), ProgramAccess::Shared(m)), ProgramAccess::Shared(m)) == ProgramAccess::Shared(n),
{
}

/// An access is accepted exactly when it can be merged, as long as the holders
/// of two shared accesses fit in a `usize`: an instant access accepts
/// everything, a held access everything but a replacement.
pub proof fn law_accepts_iff_mergeable(current: ProgramAccess, incoming: ProgramAccess)
    ensures
        accepts(current, incoming) == !(borrow_type_of(current) == BorrowType::Held && incoming == ProgramAccess::Replace),
        !(current matches ProgramAccess::Shared(n) && incoming matches ProgramAccess::Shared(m) && n + m > usize::MAX)
            ==> (accepts(current, incoming) == can_merge(current, incoming)),
        borrow_type_of(current) == BorrowType::Instant ==> accepts(current, incoming),
        borrow_type_of(current) == BorrowType::Held ==> !accepts(current, ProgramAccess::Replace),
        (current is Shared && incoming is Shared) ==> accepts(current, incoming),
{
}

/// An instant access (a replacement, or a shared access without holders) takes on
/// whatever access is merged into it, and releasing from or into a replacement
/// changes nothing.
pub proof fn law_instant_adopts_and_replace_stays(current: ProgramAccess, other: ProgramAccess)
    ensures
        borrow_type_of(current) == BorrowType::Instant ==> can_merge(current, other) && merged(current, other) == other,
        (current == ProgramAccess::Replace || other == ProgramAccess::Replace)
            ==> can_release(current, other) && released(current, other) == current,
{
}

/// A held access is always shared, so only a replacement can be refused by it.
pub proof fn law_held_is_shared(a: ProgramAccess)
    ensures
        borrow_type_of(a) == BorrowType::Held ==> (a matches ProgramAccess::Shared(n) && n > 0),
{
}

} // verus!
