use ad_astra::cell::Cell;
use ad_astra::memory::MemorySlice;
use ad_astra::origin::{Origin, ScriptOrigin};
use ad_astra::stack::{Stack, LIMIT};
use ad_astra::ty::TypeMeta;

fn at(start: usize) -> Origin {
    Origin::Script(ScriptOrigin { id: 5, start, end: start + 1 })
}

fn cell(mark: usize) -> Cell {
    Cell::from_slice(&MemorySlice::register_owned_slice(at(mark), TypeMeta::of_usize(), false, 1, 1))
}

fn mark(cell: Cell) -> Option<usize> {
    if cell.is_nil() {
        return None;
    }
    match cell.origin() {
        Origin::Script(origin) => Some(origin.start),
        Origin::Rust(_) => None,
    }
}

#[test]
fn push_then_pop_gives_the_cell_back() {
    let mut stack = Stack::new();
    stack.push(cell(1));
    stack.push(cell(2));
    assert_eq!(mark(stack.peek_1(0)), Some(2));
    assert_eq!(mark(stack.pop_1(0)), Some(2));
    assert_eq!(mark(stack.pop_1(0)), Some(1));
    assert_eq!(mark(stack.pop_1(0)), None);
}

#[test]
fn frames_protect_the_cells_below() {
    let mut stack = Stack::new();
    stack.push(cell(1));
    stack.push(cell(2));
    assert_eq!(mark(stack.pop_1(2)), None);
    assert_eq!(mark(stack.peek_1(2)), None);
    let (a, b) = stack.pop_2(1);
    assert_eq!((mark(a), mark(b)), (None, Some(2)));
    assert_eq!(mark(stack.peek_1(0)), Some(1));
}

#[test]
fn pop_two_in_stack_order() {
    let mut stack = Stack::new();
    stack.push(cell(1));
    stack.push(cell(2));
    stack.push(cell(3));
    let (a, b) = stack.pop_2(0);
    assert_eq!((mark(a), mark(b)), (Some(2), Some(3)));
    let rest = stack.pop_many(0, 5);
    assert_eq!(rest.into_iter().map(mark).collect::<Vec<_>>(), vec![Some(1)]);
}

#[test]
fn pop_many_stops_at_the_frame() {
    let mut stack = Stack::new();
    for i in 0..5 {
        stack.push(cell(i));
    }
    let popped = stack.pop_many(3, 4);
    assert_eq!(popped.into_iter().map(mark).collect::<Vec<_>>(), vec![Some(3), Some(4)]);
    let popped = stack.pop_many(0, 2);
    assert_eq!(popped.into_iter().map(mark).collect::<Vec<_>>(), vec![Some(1), Some(2)]);
    assert!(stack.pop_many(4, 1).is_empty());
}

#[test]
fn lift_moves_a_cell_to_the_top() {
    let mut stack = Stack::new();
    stack.push(cell(1));
    stack.push(cell(2));
    stack.lift(0, 0);
    assert_eq!(mark(stack.pop_1(0)), Some(1));
    assert_eq!(mark(stack.pop_1(0)), Some(2));
    assert_eq!(mark(stack.pop_1(0)), None);
    stack.lift(0, 7);
    assert!(stack.pop_1(0).is_nil());
}

#[test]
fn swap_and_dup() {
    let mut stack = Stack::new();
    stack.push(cell(1));
    stack.push(cell(2));
    stack.push(cell(3));
    stack.swap(0, 0);
    stack.dup(0, 1);
    assert_eq!(mark(stack.pop_1(0)), Some(2));
    assert_eq!(mark(stack.pop_1(0)), Some(1));
    assert_eq!(mark(stack.pop_1(0)), Some(2));
    assert_eq!(mark(stack.pop_1(0)), Some(3));
}

#[test]
fn swap_twice_restores() {
    let mut stack = Stack::new();
    stack.push(cell(1));
    stack.push(cell(2));
    stack.push(cell(3));
    stack.swap(0, 0);
    stack.swap(0, 0);
    let all = stack.pop_many(0, 3);
    assert_eq!(all.into_iter().map(mark).collect::<Vec<_>>(), vec![Some(1), Some(2), Some(3)]);
}

#[test]
fn shrink_keeps_the_bottom() {
    let mut stack = Stack::new();
    for i in 0..4 {
        stack.push(cell(i));
    }
    stack.shrink(1, 1);
    let all = stack.pop_many(0, 10);
    assert_eq!(all.into_iter().map(mark).collect::<Vec<_>>(), vec![Some(0), Some(1)]);
}

#[test]
fn entering_and_leaving_frames() {
    let mut stack = Stack::new();
    stack.push(cell(1));
    stack.push(cell(2));
    assert_eq!(stack.enter_frame(4, 2), Some(0));
    assert_eq!(stack.enter_frame(LIMIT, 0), None);
    stack.push_nil();
    stack.leave_frame(1);
    assert_eq!(mark(stack.pop_1(0)), Some(1));
    assert!(stack.pop_1(0).is_nil());
}
