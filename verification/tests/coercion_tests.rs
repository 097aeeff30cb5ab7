use ad_astra::cell::Cell;
use ad_astra::coercion::Provider;
use ad_astra::error::RuntimeError;
use ad_astra::ident::RustIdent;
use ad_astra::invoke::Arg;
use ad_astra::memory::MemorySlice;
use ad_astra::origin::{Origin, RustOrigin, ScriptOrigin};
use ad_astra::ty::{FamilyInfo, TypeFamily, TypeMeta};

fn at(start: usize) -> Origin {
    Origin::Script(ScriptOrigin { id: 8, start, end: start + 1 })
}

fn number(id: u64, name: &'static str) -> TypeMeta {
    TypeMeta {
        id,
        name,
        size: 4,
        family: FamilyInfo { id: 900, name: "number", len: 2, is_fn: false },
        origin: RustOrigin { file: 3, line: 1, column: 1 },
    }
}

fn numbers() -> TypeFamily {
    TypeFamily { info: number(1, "i32").family, types: vec![number(1, "i32"), number(2, "i64")] }
}

fn cell_of(ty: TypeMeta) -> Cell {
    Cell::from_slice(&MemorySlice::register_owned_slice(at(1), ty, false, 1, 1))
}

#[test]
fn type_match_collects_expected_types() {
    let cell = cell_of(TypeMeta::of_usize());
    let mut matching = cell.type_match();
    assert!(!matching.is(&number(1, "i32")));
    assert!(!matching.belongs_to(&numbers()));
    assert!(matching.is(&TypeMeta::of_usize()));
    match matching.mismatch(at(5)) {
        RuntimeError::TypeMismatch { access_origin, data_type, expected_types } => {
            assert_eq!(access_origin, at(5));
            assert_eq!(data_type.name, "usize");
            let names: Vec<_> = expected_types.iter().map(|ty| ty.name).collect();
            assert_eq!(names, vec!["i32", "i32", "i64"]);
        },
        _ => panic!("expected a type mismatch"),
    }
}

#[test]
fn family_membership() {
    let cell = cell_of(number(2, "i64"));
    let mut matching = cell.type_match();
    assert!(matching.belongs_to(&numbers()));
    assert_eq!(matching.cell().length(), 1);
}

#[test]
fn providers() {
    let mut data = cell_of(number(1, "i32"));
    let provider = Provider::Borrowed(&mut data);
    assert_eq!(provider.as_ref().length(), 1);
    let owned = provider.to_owned();
    assert_eq!(owned.length(), 1);
    assert!(data.is_nil());
    let provider = Provider::Owned(owned);
    match provider.to_borrowed(&at(3)) {
        Err(RuntimeError::DowncastStatic { access_origin }) => assert_eq!(access_origin, at(3)),
        _ => panic!("an owned provider cannot be borrowed"),
    }
}

#[test]
fn arguments() {
    let mut args = [Arg::new(at(1), cell_of(number(1, "i32"))), Arg::new(at(2), cell_of(number(2, "i64")))];
    let taken = Arg::take(&mut args, 1);
    assert_eq!(taken.origin, at(2));
    assert_eq!(taken.data.ty().name, "i64");
    assert!(args[1].data.is_nil());
    assert_eq!(args[1].origin, Origin::nil());
    assert_eq!(args[0].origin, at(1));
    let (origin, data) = taken.split();
    assert_eq!((origin, data.length()), (at(2), 1));
    let mut arg = Arg::new(at(4), data);
    match arg.provider() {
        Provider::Borrowed(cell) => *cell = Cell::nil(),
        Provider::Owned(_) => panic!("an argument's provider borrows"),
    }
    assert!(arg.data.is_nil());
}

#[test]
fn rust_identifiers_compare_by_text() {
    let a = RustIdent { origin: RustOrigin { file: 1, line: 1, column: 1 }, string: "field" };
    let b = RustIdent { origin: RustOrigin { file: 2, line: 9, column: 4 }, string: "field" };
    let c = RustIdent { origin: RustOrigin { file: 1, line: 1, column: 1 }, string: "fields" };
    assert!(a == b);
    assert!(a != c);
}
