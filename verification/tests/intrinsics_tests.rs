use ad_astra::cell::Cell;
use ad_astra::error::RuntimeError;
use ad_astra::intrinsics::{script_assign, script_concat};
use ad_astra::invoke::Arg;
use ad_astra::memory::MemorySlice;
use ad_astra::origin::{Origin, ScriptOrigin};
use ad_astra::ty::{TypeMeta, USIZE_TYPE};

fn at(start: usize) -> Origin {
    Origin::Script(ScriptOrigin { id: 4, start, end: start + 1 })
}

fn numbers(mark: usize, length: usize) -> MemorySlice {
    MemorySlice::register_owned_slice(at(mark), TypeMeta::of_usize(), false, length, length)
}

#[test]
fn assign_checks_both_sides() {
    let ty = TypeMeta::of_usize();
    let mut target = numbers(1, 1);
    let mut source = numbers(2, 1);
    let lhs = Arg::new(at(10), Cell::from_slice(&target));
    let rhs = Arg::new(at(20), Cell::from_slice(&source));
    assert!(script_assign(ty, lhs, rhs, true, false, &mut source, &mut target).is_ok());
    assert!(target.grant_value_mut(at(30)).is_ok());

    let mut target = numbers(1, 1);
    let lhs = Arg::new(at(10), Cell::from_slice(&target));
    let nil = Arg::new(at(21), Cell::nil());
    let error = script_assign(ty, lhs, nil, true, true, &mut source, &mut target).err().unwrap();
    assert!(matches!(error, RuntimeError::TypeMismatch { access_origin, data_type, .. }
        if access_origin == at(21) && data_type.id == 0));

    let mut pair = numbers(2, 2);
    let rhs_pair = Arg::new(at(22), Cell::from_slice(&pair));
    assert!(script_assign(ty, lhs, rhs_pair, true, true, &mut pair, &mut target).is_ok());

    let mut empty = numbers(3, 0);
    let rhs_empty = Arg::new(at(23), Cell::from_slice(&empty));
    let error = script_assign(ty, lhs, rhs_empty, true, true, &mut empty, &mut target).err().unwrap();
    assert!(matches!(error, RuntimeError::NonSingleton { access_origin, actual }
        if access_origin == at(23) && actual == 0));

    let error = script_assign(ty, lhs, rhs, false, false, &mut source, &mut target).err().unwrap();
    assert!(matches!(error, RuntimeError::UndefinedOperator { access_origin, .. } if access_origin == at(20)));

    let held = source.grant_value_mut(at(41)).ok().unwrap();
    let lhs_borrow = target.grant_value_ref(at(42)).ok().unwrap();
    let error = script_assign(ty, lhs, rhs, false, true, &mut source, &mut target).err().unwrap();
    assert!(matches!(error, RuntimeError::WriteToRead { access_origin, borrow_origin }
        if access_origin == at(20) && borrow_origin == at(41)));
    source.release_grant(held);
    let error = script_assign(ty, lhs, rhs, false, true, &mut source, &mut target).err().unwrap();
    assert!(matches!(error, RuntimeError::ReadToWrite { access_origin, borrow_origin }
        if access_origin == at(10) && borrow_origin == at(42)));
    target.release_grant(lhs_borrow);

    let mut fixed = MemorySlice::register_raw_slice(at(3), ty, false, true, false, 1);
    let lhs = Arg::new(at(11), Cell::from_slice(&fixed));
    let error = script_assign(ty, lhs, rhs, true, true, &mut source, &mut fixed).err().unwrap();
    assert!(matches!(error, RuntimeError::ReadOnly { access_origin, data_origin }
        if access_origin == at(11) && data_origin == at(3)));

    let lhs = Arg::new(at(12), Cell::nil());
    let error = script_assign(ty, lhs, rhs, true, true, &mut source, &mut fixed).err().unwrap();
    assert!(matches!(error, RuntimeError::NonSingleton { access_origin, actual }
        if access_origin == at(12) && actual == 0));
}

#[test]
fn concat_appends_the_items() {
    let first = numbers(1, 2);
    let third = numbers(3, 3);
    let mut items = vec![
        Arg::new(at(1), Cell::from_slice(&first)),
        Arg::new(at(2), Cell::nil()),
        Arg::new(at(3), Cell::from_slice(&third)),
    ];
    let mut slices = vec![first, numbers(0, 0), third];
    let sole = vec![true, true, false];
    let (cell, slice) = script_concat(at(9), TypeMeta::of_usize(), &mut items, &sole, true, &mut slices).ok().unwrap();
    assert_eq!(cell.length(), 5);
    assert_eq!(cell.ty().id, USIZE_TYPE);
    assert_eq!(cell.origin(), at(9));
    assert!(slice.unwrap().is_owned());
    assert!(items.iter().all(|item| item.data.is_nil()));
    assert_eq!(items[2].origin, at(3));

    let mut empty = vec![Arg::new(at(1), Cell::nil())];
    let mut slices = vec![numbers(0, 0)];
    let (cell, slice) = script_concat(at(9), TypeMeta::of_usize(), &mut empty, &vec![true], true, &mut slices).ok().unwrap();
    assert!(cell.is_nil() && slice.is_none());
}

#[test]
fn concat_stops_at_a_mismatch() {
    let first = numbers(1, 2);
    let bytes = MemorySlice::register_owned_slice(at(5), TypeMeta::of_u8(), false, 1, 1);
    let third = numbers(3, 3);
    let mut items = vec![
        Arg::new(at(1), Cell::from_slice(&first)),
        Arg::new(at(2), Cell::from_slice(&bytes)),
        Arg::new(at(3), Cell::from_slice(&third)),
    ];
    let mut slices = vec![first, bytes, third];
    let sole = vec![true, true, true];
    let error = script_concat(at(9), TypeMeta::of_usize(), &mut items, &sole, true, &mut slices).err().unwrap();
    assert!(matches!(&error, RuntimeError::TypeMismatch { access_origin, data_type, expected_types }
        if *access_origin == at(2) && data_type.id == ad_astra::ty::U8_TYPE && expected_types[0].id == USIZE_TYPE));
    assert!(items[0].data.is_nil() && items[1].data.is_nil());
    assert_eq!(items[2].data.length(), 3);
}

#[test]
fn concat_stops_where_shared_data_cannot_be_cloned() {
    let first = numbers(1, 2);
    let mut second = numbers(2, 1);
    let held = second.grant_value_mut(at(40)).ok().unwrap();
    let mut items = vec![
        Arg::new(at(1), Cell::from_slice(&first)),
        Arg::new(at(2), Cell::from_slice(&second)),
    ];
    let mut slices = vec![first, second];
    let sole = vec![false, false];
    let error = script_concat(at(9), TypeMeta::of_usize(), &mut items, &sole, true, &mut slices).err().unwrap();
    assert!(matches!(error, RuntimeError::WriteToRead { access_origin, borrow_origin }
        if access_origin == at(2) && borrow_origin == at(40)));
    slices[1].release_grant(held);

    let first = numbers(1, 2);
    let mut items = vec![Arg::new(at(1), Cell::from_slice(&first))];
    let mut slices = vec![first];
    let error = script_concat(at(9), TypeMeta::of_usize(), &mut items, &vec![false], false, &mut slices).err().unwrap();
    assert!(matches!(error, RuntimeError::UndefinedOperator { access_origin, .. } if access_origin == at(1)));
}
