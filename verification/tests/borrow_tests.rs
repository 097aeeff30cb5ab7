use ad_astra::borrow::{BorrowStack, BorrowTable, BORROW_LIMIT};
use ad_astra::error::RuntimeError;
use ad_astra::origin::{Origin, ScriptOrigin};

fn at(start: usize) -> Origin {
    Origin::Script(ScriptOrigin { id: 1, start, end: start + 1 })
}

#[test]
fn read_then_write_conflicts() {
    let mut table = BorrowTable::new();
    assert!(table.grant_value_ref(at(1)).is_ok());
    match table.grant_value_mut(at(2)) {
        Err(RuntimeError::ReadToWrite { access_origin, borrow_origin }) => {
            assert_eq!(access_origin, at(2));
            assert_eq!(borrow_origin, at(1));
        },
        _ => panic!("a write during a read must fail"),
    }
}

#[test]
fn write_blocks_reads_and_writes() {
    let mut table = BorrowTable::new();
    assert_eq!(table.grant_value_mut(at(1)).ok(), Some(0));
    match table.grant_value_ref(at(2)) {
        Err(RuntimeError::WriteToRead { access_origin, borrow_origin }) => {
            assert_eq!(access_origin, at(2));
            assert_eq!(borrow_origin, at(1));
        },
        _ => panic!("a read during a write must fail"),
    }
    match table.grant_value_mut(at(3)) {
        Err(RuntimeError::WriteToWrite { access_origin, borrow_origin }) => {
            assert_eq!(access_origin, at(3));
            assert_eq!(borrow_origin, at(1));
        },
        _ => panic!("a second write must fail"),
    }
    match table.grant_place_ref(at(4)) {
        Err(RuntimeError::WriteToRead { borrow_origin, .. }) => assert_eq!(borrow_origin, at(1)),
        _ => panic!("a place read during a write must fail"),
    }
    table.release_value_mut(0);
    assert!(table.grant_value_ref(at(5)).is_ok());
}

#[test]
fn reads_are_shared() {
    let mut table = BorrowTable::new();
    assert_eq!(table.grant_value_ref(at(1)).ok(), Some(0));
    assert_eq!(table.grant_value_ref(at(2)).ok(), Some(1));
    assert_eq!(table.get_value_ref(0), at(1));
    assert_eq!(table.get_value_ref(1), at(2));
}

#[test]
fn place_write_during_read_fails() {
    let mut table = BorrowTable::new();
    assert!(table.grant_value_ref(at(1)).is_ok());
    match table.grant_place_mut(at(2)) {
        Err(RuntimeError::ReadToWrite { borrow_origin, .. }) => assert_eq!(borrow_origin, at(1)),
        _ => panic!("a place write during a read must fail"),
    }
}

#[test]
fn place_write_blocks_value_reads() {
    let mut table = BorrowTable::new();
    assert_eq!(table.grant_place_mut(at(1)).ok(), Some(0));
    match table.grant_value_ref(at(2)) {
        Err(RuntimeError::WriteToRead { borrow_origin, .. }) => assert_eq!(borrow_origin, at(1)),
        _ => panic!("a read during a place write must fail"),
    }
    table.release_place_mut(0);
    assert!(table.grant_value_ref(at(3)).is_ok());
}

#[test]
fn grant_then_release_restores_the_stack() {
    let mut stack = BorrowStack::new();
    assert!(stack.is_empty());
    let index = stack.occupy(at(7)).unwrap();
    assert_eq!(stack.last(), Some(at(7)));
    assert_eq!(stack.release(index), at(7));
    assert!(stack.is_empty());
    assert_eq!(stack.last(), None);
}

#[test]
fn released_index_is_reused() {
    let mut stack = BorrowStack::new();
    let a = stack.occupy(at(1)).unwrap();
    let b = stack.occupy(at(2)).unwrap();
    assert_eq!((a, b), (0, 1));
    assert_eq!(stack.release(a), at(1));
    assert_eq!(stack.occupy(at(3)).ok(), Some(a));
    assert_eq!(stack.get(a), at(3));
    assert_eq!(stack.get(b), at(2));
}

#[test]
fn last_follows_the_newest_active_borrow() {
    let mut stack = BorrowStack::new();
    let a = stack.occupy(at(1)).unwrap();
    let b = stack.occupy(at(2)).unwrap();
    assert_eq!(stack.release(b), at(2));
    let c = stack.occupy(at(3)).unwrap();
    assert_eq!(stack.last(), Some(at(3)));
    assert_eq!(stack.release(a), at(1));
    assert_eq!(stack.last(), Some(at(3)));
    assert_eq!(stack.release(c), at(3));
    assert_eq!(stack.last(), None);
    assert!(stack.is_empty());
}

#[test]
fn release_in_the_middle_keeps_order() {
    let mut stack = BorrowStack::new();
    let a = stack.occupy(at(1)).unwrap();
    let b = stack.occupy(at(2)).unwrap();
    let c = stack.occupy(at(3)).unwrap();
    assert_eq!(stack.release(b), at(2));
    assert_eq!(stack.last(), Some(at(3)));
    assert_eq!(stack.release(c), at(3));
    assert_eq!(stack.last(), Some(at(1)));
    assert_eq!(stack.release(a), at(1));
    assert!(stack.is_empty());
}

#[test]
fn borrow_limit_is_enforced() {
    let mut stack = BorrowStack::new();
    for i in 0..BORROW_LIMIT {
        assert_eq!(stack.occupy(at(i as usize)).ok(), Some(i));
    }
    match stack.occupy(at(100)) {
        Err(RuntimeError::BorrowLimit { access_origin, limit }) => {
            assert_eq!(access_origin, at(100));
            assert_eq!(limit, BORROW_LIMIT as usize);
        },
        _ => panic!("the borrow beyond the limit must fail"),
    }
    assert_eq!(stack.last(), Some(at(BORROW_LIMIT as usize - 1)));
    stack.release(5);
    assert_eq!(stack.occupy(at(200)).ok(), Some(5));
}
