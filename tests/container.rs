use std::any::TypeId;

use shred::{
    BorrowError, BorrowFlag, Fetch, FetchMut, ResourceError, ResourceId, Resources, SystemData,
};

#[derive(Debug, PartialEq)]
struct Counter(u64);

#[test]
fn fetch_missing_fails() {
    let mut res = Resources::new();
    res.add_with_id(Counter(1), 0).unwrap();
    let id = ResourceId::new_with_id::<Counter>(3);
    assert!(matches!(
        res.fetch::<Counter>(3),
        Err(ResourceError::MissingResource(k)) if k == id
    ));
    assert!(matches!(
        res.fetch_mut::<Counter>(3),
        Err(ResourceError::MissingResource(k)) if k == id
    ));
    assert!(matches!(
        res.fetch::<u8>(0),
        Err(ResourceError::MissingResource(_))
    ));
    assert!(matches!(
        res.fetch_id(TypeId::of::<Counter>(), 7),
        Err(ResourceError::MissingResource(_))
    ));
}

#[test]
fn duplicate_registration_fails() {
    let mut res = Resources::new();
    assert!(res.add_with_id(Counter(1), 4).is_ok());
    assert_eq!(
        res.add_with_id(Counter(2), 4),
        Err(ResourceError::DuplicateRegistration(
            ResourceId::new_with_id::<Counter>(4)
        ))
    );
    let g = res.fetch::<Counter>(4).unwrap();
    assert_eq!(res.get(&g), Some(&Counter(1)));
}

#[test]
fn same_type_two_ids() {
    let mut res = Resources::new();
    assert!(res.add_with_id(Counter(1), 0).is_ok());
    assert!(res.add_with_id(Counter(2), 1).is_ok());
    let a = res.fetch_mut::<Counter>(0).unwrap();
    let b = res.fetch_mut::<Counter>(1).unwrap();
    assert_eq!(res.get_mut(&a).map(|c| c.0), Some(1));
    assert_eq!(res.get_mut(&b).map(|c| c.0), Some(2));
}

#[test]
fn exclusive_after_shared_release() {
    let mut res = Resources::new();
    res.add(Counter(0)).unwrap();
    let r = res.fetch::<Counter>(0).unwrap();
    assert!(matches!(
        res.fetch_mut::<Counter>(0),
        Err(ResourceError::BorrowConflict(_, BorrowError::AlreadyBorrowed))
    ));
    res.release(r);
    assert!(res.fetch_mut::<Counter>(0).is_ok());
}

#[test]
fn exclusive_blocks_then_frees() {
    let mut res = Resources::new();
    res.add(Counter(0)).unwrap();
    let w = res.fetch_mut::<Counter>(0).unwrap();
    assert!(matches!(
        res.fetch::<Counter>(0),
        Err(ResourceError::BorrowConflict(_, BorrowError::AlreadyBorrowedMutably))
    ));
    assert!(matches!(
        res.fetch_mut::<Counter>(0),
        Err(ResourceError::BorrowConflict(_, BorrowError::AlreadyBorrowedMutably))
    ));
    res.release_mut(w);
    let r = res.fetch::<Counter>(0).unwrap();
    res.release(r);
    assert!(res.fetch_mut::<Counter>(0).is_ok());
}

#[test]
fn many_shared_borrows() {
    let mut res = Resources::new();
    res.add(Counter(9)).unwrap();
    let a = res.fetch::<Counter>(0).unwrap();
    let b = res.fetch::<Counter>(0).unwrap();
    let c = res.fetch::<Counter>(0).unwrap();
    assert_eq!(res.get(&a), Some(&Counter(9)));
    assert_eq!(res.get(&b), Some(&Counter(9)));
    assert_eq!(res.get(&c), Some(&Counter(9)));
    res.release(a);
    res.release(b);
    assert!(res.fetch_mut::<Counter>(0).is_err());
    res.release(c);
    assert!(res.fetch_mut::<Counter>(0).is_ok());
}

#[test]
fn mutation_visible_after_release() {
    let mut res = Resources::new();
    res.add_with_id(5i32, 1).unwrap();
    let w = res.fetch_mut::<i32>(1).unwrap();
    *res.get_mut(&w).unwrap() *= 2;
    res.release_mut(w);
    let r = res.fetch::<i32>(1).unwrap();
    assert_eq!(res.get(&r), Some(&10));
}

#[test]
fn declarations_of_readers_and_writers() {
    assert_eq!(
        Fetch::<Counter>::reads(2),
        vec![ResourceId::new_with_id::<Counter>(2)]
    );
    assert!(Fetch::<Counter>::writes(2).is_empty());
    assert!(FetchMut::<Counter>::reads(3).is_empty());
    assert_eq!(
        FetchMut::<Counter>::writes(3),
        vec![ResourceId::new_with_id::<Counter>(3)]
    );
}

#[test]
fn dynamic_fetch_sees_static_value() {
    let mut res = Resources::new();
    res.add_with_id(Counter(42), 2).unwrap();
    let s = res.fetch::<Counter>(2).unwrap();
    let d = res.fetch_id(TypeId::of::<Counter>(), 2).unwrap();
    assert_eq!(d.id(), s.id());
    assert_eq!(res.get_id::<Counter>(&d), Some(&Counter(42)));
    assert_eq!(res.get(&s), res.get_id::<Counter>(&d));
    assert_eq!(res.get_id::<u32>(&d), None);
    res.release_id(d);
    res.release(s);

    let w = res.fetch_id_mut(TypeId::of::<Counter>(), 2).unwrap();
    assert!(res.fetch::<Counter>(2).is_err());
    res.get_id_mut::<Counter>(&w).unwrap().0 = 43;
    res.release_id_mut(w);
    let s = res.fetch::<Counter>(2).unwrap();
    assert_eq!(res.get(&s), Some(&Counter(43)));
}

#[test]
fn default_is_empty() {
    let res = Resources::default();
    assert!(!res.has_value(ResourceId::new::<Counter>()));
}

#[test]
fn borrow_flag_transitions() {
    let mut f = BorrowFlag::new();
    assert!(f.is_free());
    assert_eq!(f.try_borrow(), Ok(()));
    assert_eq!(f.try_borrow(), Ok(()));
    assert_eq!(f.shared_count(), 2);
    assert_eq!(f.try_borrow_mut(), Err(BorrowError::AlreadyBorrowed));
    f.release();
    assert_eq!(f.shared_count(), 1);
    f.release();
    assert!(f.is_free());
    assert_eq!(f.try_borrow_mut(), Ok(()));
    assert!(f.is_exclusive());
    assert_eq!(f.shared_count(), 0);
    assert_eq!(f.try_borrow(), Err(BorrowError::AlreadyBorrowedMutably));
    assert_eq!(f.try_borrow_mut(), Err(BorrowError::AlreadyBorrowedMutably));
    f.release_mut();
    assert!(f.is_free());
    f.release();
    assert!(f.is_free());
}
