use std::any::TypeId;

use aion_program::identity::ViewEq;
use aion_program::program_registry::cast_error::CastError;
use aion_program::program_registry::ids::{ProgramId, ResourceId};
use aion_program::program_registry::resource::{DowncastError, StoredResource, ValueTrait};
use aion_program::registry_implementation::access_result::AccessResult;
use aion_program::registry_implementation::primitives::{UserId, UserPassword, ValuePassword};

/// A value that holds either a `u32` or a `bool`.
enum Slot {
    Number(u32),
    Flag(bool),
}

impl Slot {
    fn name(&self) -> &'static str {
        match self {
            Slot::Number(_) => "u32",
            Slot::Flag(_) => "bool",
        }
    }
}

fn name_of<T: 'static>() -> &'static str {
    if TypeId::of::<T>() == TypeId::of::<u32>() {
        "u32"
    } else if TypeId::of::<T>() == TypeId::of::<bool>() {
        "bool"
    } else {
        "other"
    }
}

impl ValueTrait for Slot {
    fn as_ref<T: 'static>(&self) -> Result<&T, DowncastError> {
        let any: &dyn std::any::Any = match self {
            Slot::Number(n) => n,
            Slot::Flag(b) => b,
        };
        any.downcast_ref::<T>().ok_or(DowncastError::Downcasting { expected: name_of::<T>(), found: self.name() })
    }

    fn as_mut<T: 'static>(&mut self) -> Result<&mut T, DowncastError> {
        let found = self.name();
        let any: &mut dyn std::any::Any = match self {
            Slot::Number(n) => n,
            Slot::Flag(b) => b,
        };
        any.downcast_mut::<T>().ok_or(DowncastError::Downcasting { expected: name_of::<T>(), found })
    }

    fn into<T: 'static>(self) -> Result<T, DowncastError> {
        let found = self.name();
        let boxed: Box<dyn std::any::Any> = match self {
            Slot::Number(n) => Box::new(n),
            Slot::Flag(b) => Box::new(b),
        };
        boxed.downcast::<T>().map(|b| *b).map_err(|_| DowncastError::Downcasting { expected: name_of::<T>(), found })
    }
}

#[test]
fn access_result_as_ref_gives_value_for_every_kind() {
    let v = 5u32;
    let shared = AccessResult::Shared(&v);
    assert_eq!(shared.as_ref(), Some(&5));

    let mut w = 6u32;
    let unique = AccessResult::Unique(&mut w);
    assert_eq!(unique.as_ref(), Some(&6));

    let owned: AccessResult<'_, u32> = AccessResult::Owned(7);
    assert_eq!(owned.as_ref(), Some(&7));
}

#[test]
fn access_result_as_mut_changes_value() {
    let mut w = 6u32;
    {
        let mut unique = AccessResult::Unique(&mut w);
        *unique.as_mut().unwrap() = 60;
    }
    assert_eq!(w, 60);

    let mut owned: AccessResult<'_, u32> = AccessResult::Owned(7);
    *owned.as_mut().unwrap() += 1;
    assert_eq!(owned.as_ref(), Some(&8));
}

#[test]
#[allow(unused_must_use)]
fn access_result_constructors() {
    let v = 1u8;
    assert!(matches!(AccessResult::new_shared(&v), AccessResult::Shared(&1)));
    let mut w = 2u8;
    assert!(matches!(AccessResult::new_unique(&mut w), AccessResult::Unique(_)));
    assert!(matches!(AccessResult::<'_, u8>::new_owned(3), AccessResult::Owned(3)));
}

#[test]
fn cast_keeps_the_kind_of_access() {
    let slot = Slot::Number(41);
    match AccessResult::Shared(&slot).cast::<u32>() {
        Ok(AccessResult::Shared(n)) => assert_eq!(*n, 41),
        _ => panic!("expected a shared u32"),
    }

    let mut slot = Slot::Flag(false);
    match AccessResult::Unique(&mut slot).cast::<bool>() {
        Ok(AccessResult::Unique(b)) => *b = true,
        _ => panic!("expected a unique bool"),
    }
    assert!(matches!(slot, Slot::Flag(true)));

    match AccessResult::Owned(Slot::Number(9)).cast::<u32>() {
        Ok(AccessResult::Owned(n)) => assert_eq!(n, 9),
        _ => panic!("expected an owned u32"),
    }
}

#[test]
fn cast_error_names_the_kind_of_access() {
    let slot = Slot::Number(41);
    match AccessResult::Shared(&slot).cast::<bool>() {
        Err(CastError::Shared(DowncastError::Downcasting { expected, found })) => {
            assert_eq!(expected, "bool");
            assert_eq!(found, "u32");
        },
        _ => panic!("expected a shared cast error"),
    }

    let mut slot = Slot::Flag(true);
    assert!(matches!(AccessResult::Unique(&mut slot).cast::<u32>(), Err(CastError::Unique(_))));
    assert!(matches!(AccessResult::Owned(Slot::Flag(true)).cast::<u32>(), Err(CastError::Owned(_))));
}

#[test]
fn cast_error_clone_is_equal() {
    let err = CastError::Unique(DowncastError::Downcasting { expected: "a", found: "b" });
    match err.clone() {
        CastError::Unique(DowncastError::Downcasting { expected, found }) => {
            assert_eq!(expected, "a");
            assert_eq!(found, "b");
        },
        _ => panic!("clone changed the variant"),
    }
}

#[test]
fn ids_compare_by_value() {
    assert!(UserId::Label("a".to_string()).view_eq(&UserId::Label("a".to_string())));
    assert!(!UserId::Label("a".to_string()).view_eq(&UserId::Label("b".to_string())));
    assert!(UserId::TypeId(TypeId::of::<u8>()).view_eq(&UserId::TypeId(TypeId::of::<u8>())));
    assert!(!UserId::TypeId(TypeId::of::<u8>()).view_eq(&UserId::TypeId(TypeId::of::<u16>())));
    assert!(!UserId::Label("u8".to_string()).view_eq(&UserId::TypeId(TypeId::of::<u8>())));

    assert!(ProgramId::Label("p".to_string()).view_eq(&ProgramId::Label("p".to_string())));
    assert!(!ProgramId::Label("p".to_string()).view_eq(&ProgramId::TypeId(TypeId::of::<u8>())));
    assert!(ResourceId::TypeId(TypeId::of::<bool>()).view_eq(&ResourceId::TypeId(TypeId::of::<bool>())));
    assert!(!ResourceId::Label("r".to_string()).view_eq(&ResourceId::Label("s".to_string())));

    let registry_id = aion_program::registry_implementation::resource_id::ResourceId::Label("x".to_string());
    assert!(registry_id.view_eq(&aion_program::registry_implementation::resource_id::ResourceId::Label("x".to_string())));
}

#[test]
fn ids_clone_to_equal_ids() {
    let u = UserId::Label("alice".to_string());
    assert_eq!(u.clone(), u);
    let p = ProgramId::TypeId(TypeId::of::<u64>());
    assert_eq!(p.clone(), p);
    let r = ResourceId::Label("res".to_string());
    assert_eq!(r.clone(), r);
}

#[test]
fn passwords() {
    assert!(UserPassword::Number(3).view_eq(&UserPassword::Number(3)));
    assert!(!UserPassword::Number(3).view_eq(&UserPassword::Number(4)));
    assert!(!UserPassword::Number(3).view_eq(&UserPassword::Label("3".to_string())));
    assert_eq!(UserPassword::type_id::<u32>(), UserPassword::TypeId(TypeId::of::<u32>()));
    assert_ne!(UserPassword::type_id::<u32>(), UserPassword::type_id::<i32>());
    assert_eq!(UserPassword::Label("x".to_string()).clone(), UserPassword::Label("x".to_string()));

    let a = ValuePassword::from(10u64);
    assert_eq!(a, ValuePassword::from(10u64));
    assert_ne!(a, ValuePassword::from(11u64));
    assert!(a.view_eq(&a.clone()));
}

#[test]
fn stored_resource_keeps_its_value() {
    let mut stored = StoredResource::new(vec![1, 2, 3]);
    assert_eq!(stored.as_shared(), &vec![1, 2, 3]);
    stored.as_unique().push(4);
    assert_eq!(stored.into_inner(), vec![1, 2, 3, 4]);
}
