use ad_astra::slicing::{element_range, resolve_bounds, string_range, RangeBound, SliceBounds};
use ad_astra::error::RuntimeError;
use ad_astra::origin::{Origin, ScriptOrigin};
use ad_astra::range::IndexRange;
use ad_astra::text::{push_decimal, push_indented_lines, push_joined, push_signed_decimal, sort_texts, str_le};

fn at(start: usize) -> Origin {
    Origin::Script(ScriptOrigin { id: 4, start, end: start + 1 })
}

#[test]
fn decimal_notation() {
    let mut s = String::from("n=");
    push_decimal(&mut s, 0);
    push_decimal(&mut s, 1234567);
    assert_eq!(s, "n=01234567");
    let mut s = String::new();
    push_signed_decimal(&mut s, -45);
    push_signed_decimal(&mut s, isize::MIN);
    assert_eq!(s, format!("-45{}", isize::MIN));
}

#[test]
fn indented_lines() {
    let mut s = String::from("cause:");
    push_indented_lines(&mut s, "a\nb\n");
    assert_eq!(s, "cause:\n    a\n    b\n    ");
}

#[test]
fn lexicographic_order() {
    assert!(str_le("", ""));
    assert!(str_le("abc", "abd"));
    assert!(str_le("ab", "abc"));
    assert!(!str_le("abc", "ab"));
    assert!(!str_le("b", "abc"));
    assert!(str_le("Z", "a"));
    assert!(str_le("z", "\u{e9}"));
}

#[test]
fn sorting_texts() {
    let texts = vec![String::from("pear"), String::from("apple"), String::from("fig"), String::from("apple")];
    assert_eq!(sort_texts(&texts), vec!["apple", "apple", "fig", "pear"]);
    let mut expected = texts.clone();
    expected.sort();
    assert_eq!(sort_texts(&texts), expected);
}

#[test]
fn joining_texts() {
    let mut s = String::from("[");
    push_joined(&mut s, &vec![String::from("a"), String::from("b"), String::from("c")], ", or ");
    assert_eq!(s, "[a, or b, or c");
    let mut s = String::new();
    push_joined(&mut s, &vec![], ", ");
    assert_eq!(s, "");
}

#[test]
fn string_range_of_ascii_text() {
    let bounds = SliceBounds::Range(IndexRange { start: 1, end: 3 });
    assert_eq!(string_range(at(0), "hello", bounds).ok(), Some(IndexRange { start: 1, end: 3 }));
    let bounds = SliceBounds::Range(IndexRange { start: 2, end: 100 });
    assert_eq!(string_range(at(0), "hello", bounds).ok(), Some(IndexRange { start: 2, end: 5 }));
    let bounds = SliceBounds::Index(4);
    assert_eq!(string_range(at(0), "hello", bounds).ok(), Some(IndexRange { start: 4, end: 5 }));
}

#[test]
fn string_range_of_multibyte_text() {
    let text = "h\u{e9}\u{20ac}\u{1f600}!";
    let bounds = SliceBounds::Range(IndexRange { start: 1, end: 4 });
    let range = string_range(at(0), text, bounds).ok().unwrap();
    assert_eq!(range, IndexRange { start: 1, end: 10 });
    assert_eq!(&text[range.start..range.end], "\u{e9}\u{20ac}\u{1f600}");
    let range = string_range(at(0), text, SliceBounds::Index(3)).ok().unwrap();
    assert_eq!(&text[range.start..range.end], "\u{1f600}");
    let range = string_range(at(0), text, SliceBounds::Range(IndexRange { start: 5, end: 5 })).ok().unwrap();
    assert_eq!(range, IndexRange { start: 11, end: 11 });
}

#[test]
fn string_range_errors() {
    match string_range(at(3), "abc", SliceBounds::Range(IndexRange { start: 2, end: 1 })) {
        Err(RuntimeError::MalformedRange { access_origin, start_bound, end_bound }) => {
            assert_eq!((access_origin, start_bound, end_bound), (at(3), 2, 1));
        },
        _ => panic!("a malformed range must fail"),
    }
    match string_range(at(3), "abc", SliceBounds::Index(3)) {
        Err(RuntimeError::OutOfBounds { index, length, .. }) => assert_eq!((index, length), (3, 3)),
        _ => panic!("an index at the end must fail"),
    }
    match string_range(at(3), "abc", SliceBounds::Range(IndexRange { start: 4, end: 9 })) {
        Err(RuntimeError::OutOfBounds { index, length, .. }) => assert_eq!((index, length), (4, 3)),
        _ => panic!("a start past the end must fail"),
    }
    assert_eq!(
        string_range(at(3), "abc", SliceBounds::Range(IndexRange { start: 3, end: 3 })).ok(),
        Some(IndexRange { start: 3, end: 3 }),
    );
}

#[test]
fn element_ranges() {
    assert_eq!(element_range(SliceBounds::Index(2), 5), IndexRange { start: 2, end: 3 });
    assert_eq!(element_range(SliceBounds::Index(usize::MAX), 5), IndexRange { start: usize::MAX, end: usize::MAX });
    assert_eq!(
        element_range(SliceBounds::Range(IndexRange { start: 1, end: 9 }), 5),
        IndexRange { start: 1, end: 5 },
    );
    assert_eq!(
        element_range(SliceBounds::Range(IndexRange { start: 6, end: 9 }), 5),
        IndexRange { start: 6, end: 9 },
    );
    assert_eq!(
        element_range(SliceBounds::Range(IndexRange { start: 3, end: 3 }), 1),
        IndexRange { start: 3, end: 3 },
    );
}

#[test]
fn bound_resolution() {
    assert_eq!(
        resolve_bounds(at(0), RangeBound::Included(2), RangeBound::Excluded(5), 10).ok(),
        Some(IndexRange { start: 2, end: 5 }),
    );
    assert_eq!(
        resolve_bounds(at(0), RangeBound::Excluded(2), RangeBound::Included(5), 10).ok(),
        Some(IndexRange { start: 3, end: 6 }),
    );
    assert_eq!(
        resolve_bounds(at(0), RangeBound::Unbounded, RangeBound::Unbounded, 10).ok(),
        Some(IndexRange { start: 0, end: 10 }),
    );
    match resolve_bounds(at(7), RangeBound::Excluded(usize::MAX), RangeBound::Unbounded, 10) {
        Err(RuntimeError::NumericOperation { invoke_origin, lhs, rhs, .. }) => {
            assert_eq!(invoke_origin, at(7));
            assert_eq!(lhs.value, usize::MAX.to_string());
            assert_eq!(rhs.unwrap().value, "1");
        },
        _ => panic!("an overflowing bound must fail"),
    }
    match resolve_bounds(at(7), RangeBound::Included(0), RangeBound::Included(usize::MAX), 10) {
        Err(e) => assert_eq!(
            e.primary_description(),
            format!("cannot add 1usize to {}usize", usize::MAX),
        ),
        _ => panic!("an overflowing bound must fail"),
    }
    match resolve_bounds(at(7), RangeBound::Included(4), RangeBound::Excluded(2), 10) {
        Err(RuntimeError::MalformedRange { start_bound, end_bound, .. }) => {
            assert_eq!((start_bound, end_bound), (4, 2));
        },
        _ => panic!("a malformed range must fail"),
    }
}
