use ad_astra::cell::Cell;
use ad_astra::error::{OperatorKind, RuntimeError, RuntimeResult};
use ad_astra::invoke::Arg;
use ad_astra::memory::MemorySlice;
use ad_astra::object::Object;
use ad_astra::operators::{
    AddAssignOperator, AddOperator, AssignOperator, ConcatOperator, DefaultOperator, NegOperator,
    PartialEqOperator,
};
use ad_astra::origin::{Origin, RustOrigin, ScriptOrigin};
use ad_astra::ty::TypeMeta;
use std::cell::RefCell;
use std::cmp::Ordering;

fn at(start: usize) -> Origin {
    Origin::Script(ScriptOrigin { id: 6, start, end: start + 1 })
}

fn rust() -> RustOrigin {
    RustOrigin { file: 1, line: 1, column: 1 }
}

fn cell(mark: usize, length: usize) -> Cell {
    Cell::from_slice(&MemorySlice::register_owned_slice(at(mark), TypeMeta::of_usize(), false, length, length))
}

fn object() -> Object {
    Object { receiver: cell(1, 1), ty: TypeMeta::of_usize() }
}

fn undefined(error: RuntimeError) -> (Origin, Option<Origin>, OperatorKind) {
    match error {
        RuntimeError::UndefinedOperator { access_origin, receiver_origin, operator, .. } => {
            (access_origin, receiver_origin, operator)
        },
        _ => panic!("expected an undefined operator error"),
    }
}

#[test]
fn instantiate_with_and_without_constructor() {
    let constructor = DefaultOperator { origin: rust(), invoke: |origin: Origin| -> RuntimeResult<Cell> {
        assert_eq!(origin, at(3));
        Ok(cell(9, 2))
    } };
    let made = TypeMeta::of_usize().instantiate(at(3), Some(&constructor)).ok().unwrap();
    assert_eq!(made.length(), 2);
    let none: Option<&DefaultOperator<fn(Origin) -> RuntimeResult<Cell>>> = None;
    let error = TypeMeta::of_usize().instantiate(at(4), none).err().unwrap();
    assert_eq!(undefined(error), (at(4), None, OperatorKind::Default));
}

#[test]
fn concat_passes_the_items() {
    let operator = ConcatOperator {
        origin: rust(),
        invoke: |_origin: Origin, items: &mut [Arg]| -> RuntimeResult<Cell> {
            let total: usize = items.iter().map(|item| item.data.length()).sum();
            for item in items.iter_mut() {
                *item = Arg::default();
            }
            Ok(cell(5, total))
        },
        hint_result: TypeMeta::of_usize(),
    };
    let mut items = vec![Arg::new(at(1), cell(1, 2)), Arg::new(at(2), cell(2, 3))];
    let result = TypeMeta::of_usize().concat(at(0), &mut items, Some(&operator)).ok().unwrap();
    assert_eq!(result.length(), 5);
    assert!(items.iter().all(|item| item.data.is_nil()));
    type Concat = fn(Origin, &mut [Arg]) -> RuntimeResult<Cell>;
    let mut items = vec![Arg::new(at(1), cell(1, 2))];
    let error = TypeMeta::of_usize().concat(at(0), &mut items, None::<&ConcatOperator<Concat>>).err().unwrap();
    assert_eq!(undefined(error), (at(0), None, OperatorKind::Concat));
    assert_eq!(items[0].data.length(), 2);
}

type Binary = fn(Origin, Arg, Arg) -> RuntimeResult<Cell>;
type Assign = fn(Origin, Arg, Arg) -> RuntimeResult<()>;

#[test]
fn binary_operator_dispatch() {
    let add = AddOperator {
        origin: rust(),
        invoke: |_: Origin, lhs: Arg, rhs: Arg| -> RuntimeResult<Cell> {
            Ok(cell(7, lhs.data.length() + rhs.data.length()))
        },
        hint_rhs: TypeMeta::of_usize(),
        hint_result: TypeMeta::of_usize(),
    };
    let sum = object().add(at(0), at(1), Arg::new(at(2), cell(2, 4)), Some(&add)).ok().unwrap();
    assert_eq!(sum.length(), 5);
    let error = object().add(at(0), at(1), Arg::new(at(2), cell(2, 4)), None::<&AddOperator<Binary>>).err().unwrap();
    assert_eq!(undefined(error), (at(0), Some(at(1)), OperatorKind::Add));
}

#[test]
fn unary_and_equality_dispatch() {
    let neg = NegOperator {
        origin: rust(),
        invoke: |_: Origin, rhs: Arg| -> RuntimeResult<Cell> { Ok(cell(8, rhs.data.length() * 10)) },
        hint_result: TypeMeta::of_usize(),
    };
    assert_eq!(object().neg(at(0), at(1), Some(&neg)).ok().unwrap().length(), 10);
    let eq = PartialEqOperator {
        origin: rust(),
        invoke: |_: Origin, lhs: Arg, rhs: Arg| -> RuntimeResult<bool> { Ok(lhs.data.length() == rhs.data.length()) },
        hint_rhs: TypeMeta::of_usize(),
    };
    assert_eq!(object().partial_eq(at(0), at(1), Arg::new(at(2), cell(2, 1)), Some(&eq)).ok(), Some(true));
    assert_eq!(object().partial_eq(at(0), at(1), Arg::new(at(2), cell(2, 3)), Some(&eq)).ok(), Some(false));
}

#[test]
fn compound_assignment_prefers_its_own_operator() {
    let calls = RefCell::new(Vec::new());
    let add_assign = AddAssignOperator {
        origin: rust(),
        invoke: |_: Origin, _: Arg, _: Arg| -> RuntimeResult<()> {
            calls.borrow_mut().push("add_assign");
            Ok(())
        },
        hint_rhs: TypeMeta::of_usize(),
    };
    let assign = AssignOperator {
        origin: rust(),
        invoke: |_: Origin, _: Arg, _: Arg| -> RuntimeResult<()> {
            calls.borrow_mut().push("assign");
            Ok(())
        },
        hint_rhs: TypeMeta::of_usize(),
    };
    let add = AddOperator {
        origin: rust(),
        invoke: |_: Origin, _: Arg, _: Arg| -> RuntimeResult<Cell> {
            calls.borrow_mut().push("add");
            Ok(Cell::nil())
        },
        hint_rhs: TypeMeta::of_usize(),
        hint_result: TypeMeta::of_usize(),
    };
    let rhs = Arg::new(at(2), cell(2, 1));
    assert!(object().add_assign_fallback(at(0), at(1), rhs, Some(&add_assign), Some(&assign), Some(&add)).is_ok());
    assert_eq!(*calls.borrow(), vec!["add_assign"]);
}

#[test]
fn compound_assignment_falls_back() {
    let assigned = RefCell::new(None);
    let assign = AssignOperator {
        origin: rust(),
        invoke: |_: Origin, lhs: Arg, rhs: Arg| -> RuntimeResult<()> {
            *assigned.borrow_mut() = Some((lhs.origin, rhs.origin, rhs.data.length()));
            Ok(())
        },
        hint_rhs: TypeMeta::of_usize(),
    };
    let add = AddOperator {
        origin: rust(),
        invoke: |_: Origin, lhs: Arg, rhs: Arg| -> RuntimeResult<Cell> {
            Ok(cell(7, lhs.data.length() + rhs.data.length()))
        },
        hint_rhs: TypeMeta::of_usize(),
        hint_result: TypeMeta::of_usize(),
    };
    let rhs = Arg::new(at(2), cell(2, 4));
    assert!(object()
        .add_assign_fallback(at(0), at(1), rhs, None::<&AddAssignOperator<Assign>>, Some(&assign), Some(&add))
        .is_ok());
    assert_eq!(*assigned.borrow(), Some((at(1), at(2), 5)));
}

#[test]
fn compound_assignment_stops_at_the_binary_error() {
    let assign = AssignOperator {
        origin: rust(),
        invoke: |_: Origin, _: Arg, _: Arg| -> RuntimeResult<()> { panic!("must not assign") },
        hint_rhs: TypeMeta::of_usize(),
    };
    let sub = ad_astra::operators::SubOperator {
        origin: rust(),
        invoke: |origin: Origin, _: Arg, _: Arg| -> RuntimeResult<Cell> {
            Err(RuntimeError::Interrupted { origin })
        },
        hint_rhs: TypeMeta::of_usize(),
        hint_result: TypeMeta::of_usize(),
    };
    let rhs = Arg::new(at(2), cell(2, 4));
    let error = object()
        .sub_assign_fallback(
            at(9),
            at(1),
            rhs,
            None::<&ad_astra::operators::SubAssignOperator<Assign>>,
            Some(&assign),
            Some(&sub),
        )
        .err()
        .unwrap();
    assert!(matches!(error, RuntimeError::Interrupted { origin } if origin == at(9)));
}

#[test]
fn compound_assignment_without_operators_fails() {
    let rhs = Arg::new(at(2), cell(2, 4));
    let error = object()
        .mul_assign_fallback(
            at(0),
            at(1),
            rhs,
            None::<&ad_astra::operators::MulAssignOperator<Assign>>,
            None::<&AssignOperator<Assign>>,
            None::<&ad_astra::operators::MulOperator<Binary>>,
        )
        .err()
        .unwrap();
    assert_eq!(undefined(error), (at(0), Some(at(1)), OperatorKind::MulAssign));
}

type Full = fn(Origin, Arg, Arg) -> RuntimeResult<std::cmp::Ordering>;
type Partial = fn(Origin, Arg, Arg) -> RuntimeResult<Option<std::cmp::Ordering>>;

#[test]
fn full_ordering_falls_back_to_partial() {

    let ord = ad_astra::operators::OrdOperator {
        origin: rust(),
        invoke: |_: Origin, _: Arg, _: Arg| -> RuntimeResult<Ordering> { Ok(Ordering::Less) },
    };
    let partial = |answer: Option<Ordering>| ad_astra::operators::PartialOrdOperator {
        origin: rust(),
        invoke: move |_: Origin, _: Arg, _: Arg| -> RuntimeResult<Option<Ordering>> { Ok(answer) },
        hint_rhs: TypeMeta::of_usize(),
    };
    let rhs = Arg::new(at(2), cell(2, 1));
    let greater = partial(Some(Ordering::Greater));
    assert_eq!(object().ord_fallback(at(0), at(1), rhs, Some(&ord), Some(&greater)).ok(), Some(Ordering::Less));
    assert_eq!(
        object().ord_fallback(at(0), at(1), rhs, None::<&ad_astra::operators::OrdOperator<Full>>, Some(&greater)).ok(),
        Some(Ordering::Greater),
    );
    let unordered = partial(None);
    let error = object()
        .ord_fallback(at(0), at(1), rhs, None::<&ad_astra::operators::OrdOperator<Full>>, Some(&unordered))
        .err()
        .unwrap();
    assert_eq!(undefined(error), (at(0), Some(at(1)), OperatorKind::Ord));
    let error = object()
        .ord_fallback(
            at(0),
            at(1),
            rhs,
            None::<&ad_astra::operators::OrdOperator<Full>>,
            None::<&ad_astra::operators::PartialOrdOperator<Partial>>,
        )
        .err()
        .unwrap();
    assert_eq!(undefined(error), (at(0), Some(at(1)), OperatorKind::Ord));
    assert_eq!(object().partial_ord(at(0), at(1), rhs, Some(&unordered)).ok(), Some(None));
}

#[test]
fn objects_of_cells() {
    let data = cell(3, 4);
    let object = data.into_object();
    assert_eq!(object.ty().name, "usize");
    assert_eq!(object.cell().length(), 4);
    assert_eq!(object.into_cell().origin(), at(3));
    assert!(Cell::nil().into_object().ty().name == "nil");
    let mut args = [Arg::new(at(1), cell(1, 1))];
    let taken = Arg::take_unchecked(&mut args, 0);
    assert_eq!(taken.origin, at(1));
    assert!(args[0].data.is_nil());
}
