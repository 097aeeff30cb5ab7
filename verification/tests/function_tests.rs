use ad_astra::assembly::Assembly;
use ad_astra::cell::Cell;
use ad_astra::error::RuntimeError;
use ad_astra::function::ScriptFn;
use ad_astra::invoke::Arg;
use ad_astra::memory::MemorySlice;
use ad_astra::origin::{Origin, ScriptOrigin};
use ad_astra::stack::Stack;
use ad_astra::ty::TypeMeta;

fn at(start: usize) -> Origin {
    Origin::Script(ScriptOrigin { id: 10, start, end: start + 1 })
}

fn cell(mark: usize) -> Cell {
    Cell::from_slice(&MemorySlice::register_owned_slice(at(mark), TypeMeta::of_usize(), false, 1, 1))
}

fn function(arity: usize, closures: usize) -> ScriptFn {
    ScriptFn {
        assembly: Assembly::new(false, arity, closures, 0, at(100)),
        closures: vec![Cell::nil(); closures + 1],
        subroutines: vec![],
    }
}

#[test]
fn context_of_a_function() {
    let mut f = function(0, 0);
    assert!(f.get_context().is_nil());
    f.bind(cell(3));
    assert_eq!(f.get_context().origin(), at(3));
    f.bind(cell(4));
    assert_eq!(f.get_context().origin(), at(3));
    f.set_context(cell(5));
    assert_eq!(f.get_context().origin(), at(3));
    let mut g = function(0, 0);
    g.set_context(cell(7));
    g.set_context(cell(8));
    assert_eq!(g.get_context().origin(), at(7));
    let mut bare = ScriptFn { assembly: Assembly::new(false, 0, 0, 0, at(0)), closures: vec![], subroutines: vec![] };
    bare.set_context(cell(6));
    bare.bind(cell(6));
    assert!(bare.get_context().is_nil());
}

#[test]
fn nil_context_binds_nothing() {
    let mut f = function(0, 0);
    f.bind(Cell::nil());
    assert!(f.get_context().is_nil());
}

#[test]
fn running_needs_no_parameters() {
    assert!(function(0, 0).check_run().is_ok());
    match function(2, 0).check_run() {
        Err(RuntimeError::ArityMismatch { invocation_origin, function_origin, parameters, arguments }) => {
            assert_eq!((invocation_origin, function_origin, parameters, arguments), (Origin::nil(), at(100), 2, 0));
        },
        _ => panic!("a function with parameters cannot run without arguments"),
    }
}

#[test]
fn arguments_move_onto_the_stack() {
    let f = function(2, 0);
    let mut stack = Stack::new();
    let mut args = vec![Arg::new(at(1), cell(1)), Arg::new(at(2), cell(2))];
    assert!(f.push_arguments(at(9), &mut args, &mut stack).is_ok());
    assert!(args.iter().all(|arg| arg.data.is_nil()));
    assert_eq!(args[1].origin, at(2));
    assert_eq!(stack.pop_1(0).origin(), at(2));
    assert_eq!(stack.pop_1(0).origin(), at(1));
    let mut args = vec![Arg::new(at(1), cell(1))];
    match f.push_arguments(at(9), &mut args, &mut stack) {
        Err(RuntimeError::ArityMismatch { invocation_origin, parameters, arguments, .. }) => {
            assert_eq!((invocation_origin, parameters, arguments), (at(9), 2, 1));
        },
        _ => panic!("a wrong number of arguments must fail"),
    }
    assert!(!args[0].data.is_nil());
    assert!(stack.pop_1(0).is_nil());
}
