use ad_astra::assembly::{Assembly, Cmd};
use ad_astra::cell::Cell;
use ad_astra::engine::{check_arity, concat_arguments, invocation_origins, Engine};
use ad_astra::error::RuntimeError;
use ad_astra::memory::MemorySlice;
use ad_astra::origin::{Origin, ScriptOrigin};
use ad_astra::stack::{Stack, LIMIT};
use ad_astra::ty::TypeMeta;

fn at(start: usize) -> Origin {
    Origin::Script(ScriptOrigin { id: 9, start, end: start + 1 })
}

fn cell(mark: usize) -> Cell {
    Cell::from_slice(&MemorySlice::register_owned_slice(at(mark), TypeMeta::of_usize(), false, 1, 1))
}

fn mark(cell: Cell) -> Option<usize> {
    match (cell.is_nil(), cell.origin()) {
        (false, Origin::Script(origin)) => Some(origin.start),
        _ => None,
    }
}

#[test]
fn start_enters_the_frame() {
    let mut stack = Stack::new();
    stack.push(cell(1));
    stack.push(cell(2));
    stack.push(cell(3));
    let assembly = Assembly::new(false, 2, 0, 0, at(50));
    let engine = Engine::start(&assembly, &mut stack, true).ok().unwrap();
    assert_eq!(engine.frame_begin, 1);
    assert_eq!(engine.cmd_index, 0);
    assert_eq!(engine.cmd_origin, at(50));
}

#[test]
fn start_overflows_the_stack() {
    let mut stack = Stack::new();
    let assembly = Assembly::new(false, 0, 0, 0, at(51));
    let mut big = assembly.clone();
    big.frame = LIMIT + 1;
    match Engine::start(&big, &mut stack, false) {
        Err(RuntimeError::StackOverflow { origin }) => assert_eq!(origin, at(51)),
        _ => panic!("a frame beyond the limit must overflow"),
    }
}

#[test]
fn finish_keeps_the_result_or_pushes_nil() {
    let mut stack = Stack::new();
    stack.push(cell(1));
    let engine = Engine { frame_begin: 1, cmd_index: 0, cmd_origin: at(0), trusted: true };
    stack.push(cell(2));
    stack.push(cell(3));
    engine.finish(&mut stack, true);
    assert_eq!(stack.pop_many(0, 10).into_iter().map(mark).collect::<Vec<_>>(), vec![Some(1), Some(2)]);
    stack.push(cell(1));
    stack.push(cell(2));
    stack.push(cell(3));
    engine.finish(&mut stack, false);
    assert_eq!(stack.pop_many(0, 10).into_iter().map(mark).collect::<Vec<_>>(), vec![Some(1), None]);
}

#[test]
fn control_flow() {
    let mut engine = Engine { frame_begin: 0, cmd_index: 4, cmd_origin: at(0), trusted: false };
    engine.execute_if_true(9, at(7), true);
    assert_eq!((engine.cmd_index, engine.cmd_origin), (5, at(7)));
    engine.execute_if_true(9, at(8), false);
    assert_eq!(engine.cmd_index, 9);
    engine.execute_if_false(2, at(9), true);
    assert_eq!(engine.cmd_index, 2);
    engine.execute_if_false(2, at(9), false);
    assert_eq!(engine.cmd_index, 3);
    engine.execute_jump(0);
    assert_eq!(engine.cmd_index, 0);
    let mut trusted = Engine { trusted: true, ..engine };
    trusted.execute_if_true(1, at(30), true);
    assert_eq!(trusted.cmd_origin, at(9));
}

#[test]
fn stack_commands() {
    let mut stack = Stack::new();
    stack.push(cell(0));
    stack.push(cell(1));
    stack.push(cell(2));
    let mut engine = Engine { frame_begin: 1, cmd_index: 0, cmd_origin: at(0), trusted: true };
    engine.execute_dup(&mut stack, 0);
    engine.execute_swap(&mut stack, 1);
    engine.execute_lift(&mut stack, 0);
    engine.execute_push_nil(&mut stack);
    assert_eq!(engine.cmd_index, 4);
    let all = stack.pop_many(0, 10).into_iter().map(mark).collect::<Vec<_>>();
    assert_eq!(all, vec![Some(0), None, Some(1), Some(2), Some(1), None]);
    stack.push(cell(5));
    stack.push(cell(6));
    engine.execute_shrink(&mut stack, 0);
    assert_eq!(stack.pop_many(0, 10).into_iter().map(mark).collect::<Vec<_>>(), vec![Some(5)]);
}

#[test]
fn arity_checks() {
    let callee = Assembly::new(false, 2, 0, 0, at(40));
    assert!(check_arity(at(1), &callee, 2).is_ok());
    match check_arity(at(1), &callee, 3) {
        Err(RuntimeError::ArityMismatch { invocation_origin, function_origin, parameters, arguments }) => {
            assert_eq!((invocation_origin, function_origin, parameters, arguments), (at(1), at(40), 2, 3));
        },
        _ => panic!("a wrong number of arguments must fail"),
    }
}

#[test]
fn origins_of_an_invocation() {
    let origins = vec![at(1), at(2), at(3), at(4)];
    let (invocation, lhs, args) = invocation_origins(&origins, at(0), 3);
    assert_eq!((invocation, lhs), (at(4), at(3)));
    assert_eq!(args, vec![at(1), at(2), at(4)]);
    let (invocation, lhs, args) = invocation_origins(&vec![], at(0), 2);
    assert_eq!((invocation, lhs), (at(0), at(0)));
    assert_eq!(args, vec![at(0), at(0)]);
}

#[test]
fn array_construction_parts() {

    let origins = vec![at(1), at(2), at(9)];
    let cells = vec![Cell::nil(), cell(4), cell(5)];
    let (array, args, receiver) = concat_arguments(&origins, at(0), &cells);
    assert_eq!(array, at(9));
    assert_eq!(args.iter().map(|arg| arg.origin).collect::<Vec<_>>(), vec![at(1), at(2), Origin::nil()]);
    assert_eq!(args.iter().map(|arg| mark(arg.data)).collect::<Vec<_>>(), vec![None, Some(4), Some(5)]);
    assert_eq!(receiver.map(|ty| ty.name), Some("usize"));
    let (array, args, receiver) = concat_arguments(&vec![], at(0), &vec![Cell::nil()]);
    assert_eq!(array, at(0));
    assert_eq!(args.len(), 1);
    assert!(receiver.is_none());
}

#[test]
fn step_begin_asks_the_hook() {
    let mut assembly = Assembly::new(false, 0, 0, 0, at(60));
    assembly.commands.push(Cmd::PushNil);
    let engine = Engine { frame_begin: 0, cmd_index: 0, cmd_origin: at(61), trusted: false };
    match engine.step_begin(&assembly, false) {
        Some(Err(RuntimeError::Interrupted { origin })) => assert_eq!(origin, at(61)),
        _ => panic!("a refusing hook interrupts the run"),
    }
    assert!(engine.step_begin(&assembly, true).is_none());
    let trusted = Engine { trusted: true, ..engine };
    assert!(trusted.step_begin(&assembly, false).is_none());
    let done = Engine { cmd_index: 1, ..trusted };
    assert!(matches!(done.step_begin(&assembly, false), Some(Ok(()))));
    let past = Engine { cmd_index: 1, ..engine };
    assert!(matches!(past.step_begin(&assembly, true), Some(Ok(()))));
}

#[test]
fn dispatch_runs_stack_commands() {
    let mut assembly = Assembly::new(false, 0, 0, 0, at(70));
    assembly.commands.push(Cmd::PushNil);
    assembly.commands.push(Cmd::Dup { depth: 0 });
    assembly.commands.push(Cmd::Jump { command: 7 });
    assembly.commands.push(Cmd::Len);
    assembly.commands.push(Cmd::PushClosure { index: 0 });
    assembly.commands.push(Cmd::PushClosure { index: 1 });
    let closures = vec![cell(8)];
    let mut stack = Stack::new();
    stack.push(cell(1));
    let mut engine = Engine { frame_begin: 0, cmd_index: 0, cmd_origin: at(0), trusted: true };
    assert!(engine.dispatch(&assembly, &closures, &mut stack));
    assert_eq!(engine.cmd_index, 1);
    assert!(engine.dispatch(&assembly, &closures, &mut stack));
    assert_eq!(engine.cmd_index, 2);
    assert_eq!(stack.pop_many(0, 10).into_iter().map(mark).collect::<Vec<_>>(), vec![Some(1), None, Some(1)]);
    assert!(engine.dispatch(&assembly, &closures, &mut stack));
    assert_eq!(engine.cmd_index, 7);
    engine.cmd_index = 3;
    assert!(!engine.dispatch(&assembly, &closures, &mut stack));
    assert_eq!(engine.cmd_index, 3);
    engine.cmd_index = 4;
    assert!(engine.dispatch(&assembly, &closures, &mut stack));
    assert!(engine.dispatch(&assembly, &closures, &mut stack));
    assert_eq!(engine.cmd_index, 6);
    assert_eq!(stack.pop_many(0, 10).into_iter().map(mark).collect::<Vec<_>>(), vec![Some(8), None]);
}

#[test]
fn conditions_must_be_single_bools() {
    let engine = Engine { frame_begin: 0, cmd_index: 0, cmd_origin: at(0), trusted: true };
    let mut stack = Stack::new();
    let mut spare = MemorySlice::register_owned_slice(at(90), TypeMeta::of_bool(), false, 1, 1);
    let (popped, result) = engine.pop_condition(&mut stack, at(3), false, true, &mut spare);
    assert!(popped.is_nil());
    assert!(matches!(result, Err(RuntimeError::TypeMismatch { access_origin, data_type, expected_types })
        if access_origin == at(3) && data_type.id == 0 && expected_types[0].id == ad_astra::ty::BOOL_TYPE));
    let mut numbers = MemorySlice::register_owned_slice(at(1), TypeMeta::of_usize(), false, 1, 1);
    stack.push(Cell::from_slice(&numbers));
    let (popped, result) = engine.pop_condition(&mut stack, at(4), true, true, &mut numbers);
    assert_eq!(mark(popped), Some(1));
    assert!(matches!(result, Err(RuntimeError::TypeMismatch { data_type, .. })
        if data_type.id == ad_astra::ty::USIZE_TYPE));
    let mut pair = MemorySlice::register_owned_slice(at(5), TypeMeta::of_bool(), false, 2, 2);
    stack.push(Cell::from_slice(&pair));
    let (_, result) = engine.pop_condition(&mut stack, at(6), true, true, &mut pair);
    assert!(result.is_ok());
    let mut none = MemorySlice::register_owned_slice(at(6), TypeMeta::of_bool(), false, 0, 0);
    stack.push(Cell::from_slice(&none));
    let (_, result) = engine.pop_condition(&mut stack, at(6), true, true, &mut none);
    assert!(matches!(result, Err(RuntimeError::NonSingleton { access_origin, actual })
        if access_origin == at(6) && actual == 0));
    let mut single = MemorySlice::register_owned_slice(at(7), TypeMeta::of_bool(), false, 1, 1);
    stack.push(Cell::from_slice(&single));
    let held = single.grant_value_mut(at(9)).ok().unwrap();
    let (_, result) = engine.pop_condition(&mut stack, at(8), false, true, &mut single);
    assert!(matches!(result, Err(RuntimeError::WriteToRead { borrow_origin, .. }) if borrow_origin == at(9)));
    single.release_grant(held);
    stack.push(Cell::from_slice(&single));
    let (popped, result) = engine.pop_condition(&mut stack, at(8), false, true, &mut single);
    assert!(result.is_ok());
    assert_eq!(mark(popped), Some(7));
    assert!(stack.pop_many(0, 10).is_empty());
}
