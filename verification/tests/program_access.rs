use aion_program::program_registry::program_access::{BorrowType, ProgramAccess};

#[test]
fn borrow_types() {
    assert_eq!(ProgramAccess::Shared(0).to_borrow_type(), BorrowType::Instant);
    assert_eq!(ProgramAccess::Replace.to_borrow_type(), BorrowType::Instant);
    assert_eq!(ProgramAccess::Shared(3).to_borrow_type(), BorrowType::Held);
}

#[test]
fn accepts_incoming() {
    // an instant access accepts everything
    assert!(ProgramAccess::Shared(0).accepts_incoming(&ProgramAccess::Replace));
    assert!(ProgramAccess::Replace.accepts_incoming(&ProgramAccess::Shared(4)));
    assert!(ProgramAccess::Replace.accepts_incoming(&ProgramAccess::Replace));
    // a held access accepts shared ones, but not a replacement
    assert!(ProgramAccess::Shared(2).accepts_incoming(&ProgramAccess::Shared(1)));
    assert!(ProgramAccess::Shared(2).accepts_incoming(&ProgramAccess::Shared(0)));
    assert!(!ProgramAccess::Shared(2).accepts_incoming(&ProgramAccess::Replace));
}

#[test]
fn insert_and_remove_need_replace() {
    assert!(ProgramAccess::Replace.can_insert_resource());
    assert!(ProgramAccess::Replace.can_remove_resource());
    assert!(!ProgramAccess::Shared(1).can_insert_resource());
    assert!(!ProgramAccess::Shared(0).can_remove_resource());
}

#[test]
fn merge_adds_shared_holders() {
    let mut access = ProgramAccess::Shared(2);
    access.merge(ProgramAccess::Shared(3));
    assert_eq!(access, ProgramAccess::Shared(5));

    let mut access = ProgramAccess::Shared(0);
    access.merge(ProgramAccess::Shared(1));
    assert_eq!(access, ProgramAccess::Shared(1));

    let mut access = ProgramAccess::Replace;
    access.merge(ProgramAccess::Shared(1));
    assert_eq!(access, ProgramAccess::Shared(1));

    let mut access = ProgramAccess::Shared(0);
    access.merge(ProgramAccess::Replace);
    assert_eq!(access, ProgramAccess::Replace);

    // an instant incoming access leaves a held one as it is
    let mut access = ProgramAccess::Shared(4);
    access.merge(ProgramAccess::Shared(0));
    assert_eq!(access, ProgramAccess::Shared(4));
}

#[test]
fn release_undoes_merge() {
    let mut access = ProgramAccess::Shared(0);
    access.merge(ProgramAccess::Shared(1));
    access.release(&ProgramAccess::Shared(1));
    assert_eq!(access, ProgramAccess::Shared(0));

    let mut access = ProgramAccess::Shared(7);
    access.merge(ProgramAccess::Shared(2));
    access.release(&ProgramAccess::Shared(2));
    assert_eq!(access, ProgramAccess::Shared(7));

    let mut access = ProgramAccess::Replace;
    access.release(&ProgramAccess::Shared(3));
    assert_eq!(access, ProgramAccess::Replace);
}

#[test]
fn clone_is_equal() {
    assert_eq!(ProgramAccess::Shared(9).clone(), ProgramAccess::Shared(9));
    assert_eq!(ProgramAccess::Replace.clone(), ProgramAccess::Replace);
}

#[test]
fn replace_adopts_merged_access_and_is_left_by_release() {
    let mut access = ProgramAccess::Replace;
    access.merge(ProgramAccess::Replace);
    assert_eq!(access, ProgramAccess::Replace);

    let mut access = ProgramAccess::Replace;
    access.release(&ProgramAccess::Replace);
    assert_eq!(access, ProgramAccess::Replace);

    let mut access = ProgramAccess::Shared(3);
    access.release(&ProgramAccess::Replace);
    assert_eq!(access, ProgramAccess::Shared(3));
}
