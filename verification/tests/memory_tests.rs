use ad_astra::cell::Cell;
use ad_astra::error::RuntimeError;
use ad_astra::memory::{Grant, MemorySlice};
use ad_astra::origin::{Origin, RustOrigin, ScriptOrigin};
use ad_astra::range::IndexRange;
use ad_astra::slicing::RangeBound;
use ad_astra::ty::{FamilyInfo, TypeMeta};

fn at(start: usize) -> Origin {
    Origin::Script(ScriptOrigin { id: 2, start, end: start + 2 })
}

fn int_type() -> TypeMeta {
    TypeMeta {
        id: 10,
        name: "i32",
        size: 4,
        family: FamilyInfo { id: 100, name: "number", len: 3, is_fn: false },
        origin: RustOrigin { file: 1, line: 2, column: 3 },
    }
}

fn unit_type() -> TypeMeta {
    TypeMeta {
        id: 11,
        name: "unit",
        size: 0,
        family: FamilyInfo { id: 101, name: "unit", len: 1, is_fn: false },
        origin: RustOrigin { file: 1, line: 5, column: 1 },
    }
}

#[test]
fn owned_slice_description() {
    let slice = MemorySlice::register_owned_slice(at(0), int_type(), false, 3, 8);
    let info = slice.describe();
    assert!(info.readable && info.mutable && info.owned && !info.unicode);
    assert_eq!(slice.length(), 3);
    assert_eq!(slice.ty().id, 10);
    assert_eq!(slice.data_origin(), at(0));
    assert!(slice.is_writeable() && slice.is_readable() && slice.is_owned());
    assert!(!slice.is_void());
}

#[test]
fn unicode_slice_is_not_writeable() {
    let slice = MemorySlice::register_owned_slice(at(0), TypeMeta::of_usize(), false, 1, 1);
    assert!(slice.is_writeable());
    let bytes = TypeMeta { id: ad_astra::ty::U8_TYPE, ..int_type() };
    let text = MemorySlice::register_raw_slice(at(0), bytes, true, true, false, 5);
    assert!(text.is_unicode() && !text.is_writeable() && text.is_readable() && !text.is_owned());
}

#[test]
fn void_slices_grant_everything() {
    let mut slice = MemorySlice::register_owned_slice(at(0), unit_type(), false, 4, 4);
    assert!(slice.is_void());
    assert_eq!(slice.grant_value_mut(at(1)).ok(), Some(Grant::ValueMut(0xFFFF_FFFF)));
    assert_eq!(slice.grant_value_mut(at(2)).ok(), Some(Grant::ValueMut(0xFFFF_FFFF)));
    assert_eq!(slice.grant_origin(&Grant::ValueMut(0xFFFF_FFFF)), at(0));
}

#[test]
fn grants_and_their_origins() {
    let mut slice = MemorySlice::register_owned_slice(at(0), int_type(), false, 2, 2);
    let read = slice.grant_value_ref(at(3)).unwrap();
    assert_eq!(read, Grant::ValueRef(0));
    assert_eq!(slice.grant_origin(&read), at(3));
    match slice.grant_value_mut(at(4)) {
        Err(RuntimeError::ReadToWrite { borrow_origin, .. }) => assert_eq!(borrow_origin, at(3)),
        _ => panic!("a write during a read must fail"),
    }
    slice.release_grant(read);
    let write = slice.grant_value_mut(at(5)).unwrap();
    assert_eq!(slice.grant_origin(&write), at(5));
}

#[test]
fn subslice_description() {
    let slice = MemorySlice::register_owned_slice(at(0), int_type(), false, 10, 10);
    let sub = slice.subslice(at(9), 2, 5).ok().unwrap();
    let info = sub.describe();
    assert_eq!(info.length, 3);
    assert_eq!(info.origin, at(9));
    assert!(!info.owned && info.readable && info.mutable);
}

#[test]
fn map_slice_within_bounds() {
    let mut slice = MemorySlice::register_owned_slice(at(0), int_type(), false, 10, 10);
    let sub = slice.map_slice(at(4), IndexRange { start: 2, end: 6 }).ok().unwrap().unwrap();
    assert_eq!(sub.length(), 4);
    assert!(slice.grant_value_mut(at(5)).is_ok());
}

#[test]
fn map_slice_past_the_end() {
    let mut slice = MemorySlice::register_owned_slice(at(0), int_type(), false, 3, 3);
    match slice.map_slice(at(4), IndexRange { start: 1, end: 5 }) {
        Err(RuntimeError::OutOfBounds { access_origin, index, length }) => {
            assert_eq!(access_origin, at(4));
            assert_eq!(index, 4);
            assert_eq!(length, 3);
        },
        _ => panic!("a range past the end must fail"),
    }
}

#[test]
fn map_slice_of_written_data_fails() {
    let mut slice = MemorySlice::register_owned_slice(at(0), int_type(), false, 3, 3);
    let write = slice.grant_value_mut(at(1)).unwrap();
    match slice.map_slice(at(2), IndexRange { start: 0, end: 2 }) {
        Err(RuntimeError::WriteToWrite { access_origin, borrow_origin }) => {
            assert_eq!(access_origin, at(2));
            assert_eq!(borrow_origin, at(1));
        },
        _ => panic!("mapping written data must fail"),
    }
    slice.release_grant(write);
}

#[test]
fn map_slice_of_inaccessible_data_is_nothing() {
    let mut slice = MemorySlice::register_raw_slice(at(0), int_type(), false, false, false, 3);
    assert!(slice.map_slice(at(1), IndexRange { start: 0, end: 1 }).ok().unwrap().is_none());
}

#[test]
fn cell_map_slice_resolves_bounds() {
    let mut slice = MemorySlice::register_owned_slice(at(0), int_type(), false, 10, 10);
    let cell = Cell::from_slice(&slice);
    let sub = cell
        .map_slice(at(1), RangeBound::Excluded(1), RangeBound::Included(4), &mut slice)
        .ok()
        .unwrap();
    assert_eq!(sub.length(), 3);
    let whole = cell
        .map_slice(at(1), RangeBound::Unbounded, RangeBound::Unbounded, &mut slice)
        .ok()
        .unwrap();
    assert_eq!(whole.length(), 10);
    match cell.map_slice(at(2), RangeBound::Included(5), RangeBound::Excluded(3), &mut slice) {
        Err(RuntimeError::MalformedRange { start_bound, end_bound, .. }) => {
            assert_eq!((start_bound, end_bound), (5, 3));
        },
        _ => panic!("a malformed range must fail"),
    }
    assert!(Cell::nil()
        .map_slice(at(3), RangeBound::Unbounded, RangeBound::Unbounded, &mut slice)
        .ok()
        .unwrap()
        .is_nil());
}

#[test]
fn cell_description() {
    let slice = MemorySlice::register_owned_slice(at(6), int_type(), false, 2, 2);
    let cell = Cell::from_slice(&slice);
    assert!(!cell.is_nil());
    assert_eq!(cell.length(), 2);
    assert_eq!(cell.origin(), at(6));
    assert_eq!(cell.ty().id, 10);
    assert!(cell.is(&int_type()));
    assert!(!cell.is(&unit_type()));
    let nil = Cell::nil();
    assert!(nil.is_nil());
    assert_eq!(nil.length(), 0);
    assert_eq!(nil.ty().name, "nil");
    assert!(nil.is(&TypeMeta::nil()));
}

#[test]
fn unicode_cell_is_a_string() {
    let bytes = TypeMeta { id: ad_astra::ty::U8_TYPE, name: "u8", ..int_type() };
    let slice = MemorySlice::register_raw_slice(at(0), bytes, true, true, false, 5);
    let cell = Cell::from_slice(&slice);
    assert_eq!(cell.ty().name, "str");
    assert!(cell.is(&TypeMeta::of_str()));
    assert!(cell.is(&bytes));
}

fn bytes_slice(unicode: bool, readable: bool, length: usize) -> MemorySlice {
    MemorySlice::register_raw_slice(at(0), TypeMeta::of_u8(), unicode, readable, false, length)
}

#[test]
fn borrow_str_of_valid_bytes() {
    let mut slice = bytes_slice(false, true, 3);
    let cell = Cell::from_slice(&slice);
    let (result, held) = cell.borrow_str(at(4), &mut slice, &b"abc".to_vec());
    assert!(result.is_ok());
    let grant = held.unwrap();
    assert_eq!(grant, Grant::ValueRef(0));
    assert_eq!(slice.grant_origin(&grant), at(4));
    let error = slice.grant_value_mut(at(6)).err().unwrap();
    assert!(matches!(error, RuntimeError::ReadToWrite { access_origin, borrow_origin }
        if access_origin == at(6) && borrow_origin == at(4)));
    slice.release_grant(grant);
    assert!(slice.grant_value_mut(at(8)).is_ok());
}

#[test]
fn borrow_str_refuses_invalid_utf8() {
    let mut slice = bytes_slice(false, true, 2);
    let cell = Cell::from_slice(&slice);
    let bytes = vec![0xffu8, 0x41];
    let (result, held) = cell.borrow_str(at(4), &mut slice, &bytes);
    let error = result.err().unwrap();
    let expected = std::str::from_utf8(&bytes).err().unwrap().to_string();
    assert!(matches!(&error, RuntimeError::Utf8Decoding { access_origin, cause }
        if *access_origin == at(4) && *cause == expected));
    let kept = held.unwrap();
    assert!(slice.grant_value_mut(at(6)).is_err());
    slice.release_grant(kept);
    assert!(slice.grant_value_mut(at(7)).is_ok());
}

#[test]
fn borrow_str_errors() {
    let mut slice = bytes_slice(false, true, 1);
    let nil = Cell::nil();
    let (result, held) = nil.borrow_str(at(1), &mut slice, &vec![0x41]);
    assert!(held.is_none());
    let error = result.err().unwrap();
    assert!(matches!(error, RuntimeError::Nil { access_origin } if access_origin == at(1)));

    let mut numbers = MemorySlice::register_owned_slice(at(0), int_type(), false, 1, 1);
    let cell = Cell::from_slice(&numbers);
    let (result, held) = cell.borrow_str(at(2), &mut numbers, &vec![]);
    assert!(held.is_none());
    let error = result.err().unwrap();
    assert!(matches!(&error, RuntimeError::TypeMismatch { access_origin, data_type, expected_types }
        if *access_origin == at(2) && data_type.id == 10 && expected_types.len() == 1
            && expected_types[0].id == ad_astra::ty::U8_TYPE));

    let mut hidden = bytes_slice(false, false, 1);
    let cell = Cell::from_slice(&hidden);
    let (result, held) = cell.borrow_str(at(3), &mut hidden, &vec![0x41]);
    assert!(held.is_none());
    let error = result.err().unwrap();
    assert!(matches!(error, RuntimeError::WriteOnly { access_origin, data_origin }
        if access_origin == at(3) && data_origin == at(0)));

    let mut written = MemorySlice::register_owned_slice(at(0), TypeMeta::of_u8(), false, 1, 1);
    let cell = Cell::from_slice(&written);
    let held = written.grant_value_mut(at(5)).ok().unwrap();
    let (result, kept) = cell.borrow_str(at(6), &mut written, &vec![0x41]);
    assert!(kept.is_none());
    let error = result.err().unwrap();
    assert!(matches!(error, RuntimeError::WriteToRead { access_origin, borrow_origin }
        if access_origin == at(6) && borrow_origin == at(5)));
    written.release_grant(held);
}

#[test]
fn map_str_projects_text() {
    let mut slice = MemorySlice::register_owned_slice(at(0), TypeMeta::of_u8(), false, 5, 5);
    let cell = Cell::from_slice(&slice);
    assert!(!cell.is(&TypeMeta::of_str()));
    let (text, grant) = cell.map_str(at(7), &mut slice, &b"hello".to_vec()).ok().unwrap();
    assert!(text.is(&TypeMeta::of_str()));
    assert_eq!(text.ty().id, ad_astra::ty::STR_TYPE);
    assert_eq!(text.length(), 5);
    assert_eq!(text.origin(), at(7));
    assert!(slice.grant_value_mut(at(9)).is_err());
    slice.release_grant(grant);
    assert!(slice.grant_value_mut(at(9)).is_ok());

    let mut bad = MemorySlice::register_owned_slice(at(0), TypeMeta::of_u8(), false, 1, 1);
    let cell = Cell::from_slice(&bad);
    assert!(matches!(cell.map_str(at(1), &mut bad, &vec![0xc3]).err().unwrap(),
        RuntimeError::Utf8Decoding { .. }));
    assert!(bad.grant_value_mut(at(2)).is_ok());
}

#[test]
fn map_ptr_projects_a_single_element() {
    let mut slice = MemorySlice::register_owned_slice(at(0), int_type(), false, 1, 1);
    let cell = Cell::from_slice(&slice);
    let projected = cell.map_ptr(at(3), int_type(), TypeMeta::of_usize(), true, true, &mut slice).ok().unwrap();
    let info = projected.ty();
    assert_eq!(info.id, ad_astra::ty::USIZE_TYPE);
    assert_eq!(projected.length(), 1);
    assert_eq!(projected.origin(), at(3));
    assert!(slice.grant_value_mut(at(4)).is_ok());

    let nothing = cell.map_ptr(at(3), int_type(), TypeMeta::of_usize(), false, false, &mut slice).ok().unwrap();
    assert!(nothing.is_nil());
}

#[test]
fn map_ptr_errors() {
    let mut slice = MemorySlice::register_owned_slice(at(0), int_type(), false, 2, 2);
    let pair = Cell::from_slice(&slice);
    let error = pair.map_ptr(at(1), int_type(), int_type(), true, false, &mut slice).err().unwrap();
    assert!(matches!(error, RuntimeError::NonSingleton { access_origin, actual }
        if access_origin == at(1) && actual == 2));

    let error = Cell::nil().map_ptr(at(2), int_type(), int_type(), true, false, &mut slice).err().unwrap();
    assert!(matches!(error, RuntimeError::Nil { access_origin } if access_origin == at(2)));

    let mut single = MemorySlice::register_owned_slice(at(0), int_type(), false, 1, 1);
    let cell = Cell::from_slice(&single);
    let error = cell.map_ptr(at(3), TypeMeta::of_usize(), int_type(), true, false, &mut single).err().unwrap();
    assert!(matches!(&error, RuntimeError::TypeMismatch { access_origin, data_type, expected_types }
        if *access_origin == at(3) && data_type.id == 10 && expected_types.len() == 1
            && expected_types[0].id == ad_astra::ty::USIZE_TYPE));

    let held = single.grant_value_mut(at(5)).ok().unwrap();
    let error = cell.map_ptr(at(6), int_type(), int_type(), true, false, &mut single).err().unwrap();
    assert!(matches!(error, RuntimeError::WriteToRead { access_origin, borrow_origin }
        if access_origin == at(6) && borrow_origin == at(5)));
    single.release_grant(held);
    let read = single.grant_value_ref(at(7)).ok().unwrap();
    let error = cell.map_ptr(at(8), int_type(), int_type(), false, true, &mut single).err().unwrap();
    assert!(matches!(error, RuntimeError::ReadToWrite { access_origin, borrow_origin }
        if access_origin == at(8) && borrow_origin == at(7)));
    single.release_grant(read);
}

#[test]
fn borrowing_single_elements() {
    let mut slice = MemorySlice::register_owned_slice(at(0), int_type(), false, 1, 1);
    let cell = Cell::from_slice(&slice);
    let read = cell.borrow_ref(at(1), int_type(), &mut slice).ok().unwrap();
    let error = cell.borrow_mut(at(2), int_type(), &mut slice).err().unwrap();
    assert!(matches!(error, RuntimeError::ReadToWrite { access_origin, borrow_origin }
        if access_origin == at(2) && borrow_origin == at(1)));
    slice.release_grant(read);
    let write = cell.borrow_mut(at(3), int_type(), &mut slice).ok().unwrap();
    let error = cell.borrow_slice_ref(at(4), int_type(), &mut slice).err().unwrap();
    assert!(matches!(error, RuntimeError::WriteToRead { access_origin, borrow_origin }
        if access_origin == at(4) && borrow_origin == at(3)));
    slice.release_grant(write);

    let error = Cell::nil().borrow_ref(at(5), int_type(), &mut slice).err().unwrap();
    assert!(matches!(error, RuntimeError::NonSingleton { access_origin, actual }
        if access_origin == at(5) && actual == 0));
    let error = Cell::nil().borrow_slice_ref(at(5), int_type(), &mut slice).err().unwrap();
    assert!(matches!(error, RuntimeError::Nil { access_origin } if access_origin == at(5)));
    let error = cell.borrow_slice_mut(at(6), TypeMeta::of_usize(), &mut slice).err().unwrap();
    assert!(matches!(error, RuntimeError::TypeMismatch { access_origin, .. } if access_origin == at(6)));

    let mut fixed = MemorySlice::register_raw_slice(at(7), int_type(), false, true, false, 3);
    let cell = Cell::from_slice(&fixed);
    let error = cell.borrow_slice_mut(at(8), int_type(), &mut fixed).err().unwrap();
    assert!(matches!(error, RuntimeError::ReadOnly { access_origin, data_origin }
        if access_origin == at(8) && data_origin == at(7)));
    assert!(cell.borrow_slice_ref(at(9), int_type(), &mut fixed).is_ok());
}

#[test]
fn give_vec_and_take_checks() {
    let (cell, slice) = Cell::give_vec(at(1), int_type(), 2, 4).ok().unwrap();
    let slice = slice.unwrap();
    assert!(slice.is_owned() && slice.is_writeable());
    assert_eq!(cell.length(), 2);
    assert_eq!(cell.origin(), at(1));
    let (cell_of_units, none) = Cell::give_vec(at(1), TypeMeta::nil(), 3, 3).ok().unwrap();
    assert!(cell_of_units.is_nil() && none.is_none());

    let mut slice = slice;
    assert!(cell.check_take(at(2), int_type(), true, false, &mut slice).is_ok());
    assert!(cell.check_take(at(2), int_type(), false, true, &mut slice).is_ok());
    assert!(Cell::nil().check_take(at(3), TypeMeta::nil(), false, false, &mut slice).is_ok());
    let (mut single, _) = Cell::give_vec(at(1), int_type(), 1, 1).ok().unwrap();
    assert!(single.check_take(at(4), int_type(), true, false, &mut slice).is_ok());
    single = Cell::nil();
    assert!(matches!(single.check_take(at(4), int_type(), true, false, &mut slice).err().unwrap(),
        RuntimeError::TypeMismatch { access_origin, data_type, .. } if access_origin == at(4) && data_type.id == 0));
}

#[test]
fn taking_needs_elements() {
    let (empty, slice) = Cell::give_vec(at(1), int_type(), 0, 0).ok().unwrap();
    let mut slice = slice.unwrap();
    let error = empty.check_take(at(2), int_type(), true, true, &mut slice).err().unwrap();
    assert!(matches!(error, RuntimeError::NonSingleton { access_origin, actual }
        if access_origin == at(2) && actual == 0));
    assert!(empty.check_take_vec(at(2), int_type(), true, true, &mut slice).is_ok());
    let (units, slice) = Cell::give_vec(at(1), unit_type(), 0, 0).ok().unwrap();
    let mut slice = slice.unwrap();
    assert!(units.check_take(at(3), unit_type(), true, true, &mut slice).is_ok());
}

#[test]
fn taking_shared_data_clones_it() {
    let (cell, slice) = Cell::give_vec(at(1), int_type(), 3, 3).ok().unwrap();
    let mut slice = slice.unwrap();
    let error = cell.check_take(at(2), int_type(), false, false, &mut slice).err().unwrap();
    assert!(matches!(error, RuntimeError::UndefinedOperator { access_origin, receiver_origin, receiver_type, .. }
        if access_origin == at(2) && receiver_origin == Some(at(1)) && receiver_type.id == 10));
    let held = slice.grant_value_mut(at(5)).ok().unwrap();
    let error = cell.check_take(at(6), int_type(), false, true, &mut slice).err().unwrap();
    assert!(matches!(error, RuntimeError::WriteToRead { access_origin, borrow_origin }
        if access_origin == at(6) && borrow_origin == at(5)));
    assert!(cell.check_take(at(6), int_type(), true, false, &mut slice).is_ok());
    slice.release_grant(held);
    assert!(cell.check_take_vec(at(7), int_type(), false, true, &mut slice).is_ok());
    assert!(slice.grant_value_mut(at(8)).is_ok());
}
