use vstd::prelude::*;

use crate::cell::Cell;

verus! {

/// The maximum number of cells on the interpreter stack.
pub const LIMIT: usize = 10_000;

/// The capacity above which a left frame gives memory back.
pub const CAPACITY: usize = 1_000;

/// A stack depth, counted in cells from the bottom of the stack.
pub type StackDepth = usize;

/// The capacity of the vector's allocation (`Vec::capacity`), which is at
/// least its length.
#[verifier::external_body]
fn vec_capacity(cells: &Vec<Cell>) -> (r: usize)
    ensures
        r >= cells@.len(),
{
    cells.capacity()
}

/// Gives memory of the vector's allocation back with `Vec::shrink_to`,
/// keeping room for at least `min` elements; the contents are kept.
#[verifier::external_body]
fn vec_shrink_to(cells: &mut Vec<Cell>, min: usize)
    ensures
        final(cells)@ == old(cells)@,
{
    cells.shrink_to(min)
}

/// How [Stack::pop_1] changes the cells `s0` into `s1` and what it returns:
/// the top cell when the frame that begins at `frame` holds one, else Nil.
pub open spec fn pop_1_post(s0: Seq<Cell>, s1: Seq<Cell>, frame: int, r: Cell) -> bool {
    if s0.len() <= frame {
        r.spec_is_nil() && s1 == s0
    } else {
        r == s0.last() && s1 == s0.drop_last()
    }
}

/// How [Stack::pop_many] changes the cells `s0` into `s1` and what it
/// returns: up to `length` top cells of the frame that begins at `frame`.
pub open spec fn pop_many_post(s0: Seq<Cell>, s1: Seq<Cell>, frame: int, length: int, r: Seq<Cell>) -> bool {
    let n = s0.len();
    let at = if n >= length { n - length } else { 0 };
    let at = if at < frame { frame } else { at };
    if at > n {
        r == Seq::<Cell>::empty() && s1 == s0
    } else {
        r == s0.subrange(at, n as int) && s1 == s0.subrange(0, at)
    }
}

/// The cells `s` with the cell at `d` and the top cell exchanged, if there
/// is a cell at `d`.
pub open spec fn swapped(s: Seq<Cell>, d: int) -> Seq<Cell> {
    if 0 <= d < s.len() {
        s.update(d, s.last()).update(s.len() - 1, s[d])
    } else {
        s
    }
}

/// The cells `s` cut down to the first `d` ones.
pub open spec fn truncated(s: Seq<Cell>, d: int) -> Seq<Cell> {
    if d <= s.len() {
        s.subrange(0, d)
    } else {
        s
    }
}

/// The interpreter's stack of cells.
///
/// The stack is divided into frames: a frame starts at some depth
/// (`frame_begin`), and the operations of a frame never remove cells below
/// its start.
pub struct Stack {
    cells: Vec<Cell>,
    max_depth: usize,
    min_capacity: usize,
    max_capacity: usize,
}

impl Stack {
    /// The cells on the stack, bottom first.
    pub closed spec fn cells(&self) -> Seq<Cell> {
        self.cells@
    }

    /// The number of cells the stack may hold.
    pub closed spec fn max_depth(&self) -> nat {
        self.max_depth as nat
    }

    /// An empty stack.
    pub fn new() -> (s: Self)
        ensures
            s.cells() == Seq::<Cell>::empty(),
            s.max_depth() == LIMIT,
    {
        Stack { cells: Vec::new(), max_depth: LIMIT, min_capacity: CAPACITY / 2, max_capacity: CAPACITY }
    }

    /// Enters a frame of a function with `arity` parameters that needs
    /// `frame` cells (its parameters included), whose arguments are on the
    /// top of the stack. Returns the depth where the frame begins, or None if
    /// the frame would exceed the stack limit.
    pub fn enter_frame(&mut self, frame: StackDepth, arity: StackDepth) -> (r: Option<StackDepth>)
        ensures
            final(self).cells() == old(self).cells(),
            final(self).max_depth() == old(self).max_depth(),
            ({
                let diff = if frame >= arity { frame - arity } else { 0 };
                let depth = old(self).cells().len();
                if depth + diff > old(self).max_depth() {
                    r is None
                } else {
                    r == Some((if depth >= arity { depth - arity } else { 0 }) as usize)
                }
            }),
    {
        let diff = frame.checked_sub(arity).unwrap_or_default();
        let depth = self.cells.len();
        if diff > self.max_depth || depth > self.max_depth - diff {
            return None;
        }
        self.cells.reserve(diff);
        Some(depth.checked_sub(arity).unwrap_or_default())
    }

    /// Leaves the frame that begins at `begin`, dropping the cells above it.
    pub fn leave_frame(&mut self, begin: StackDepth)
        ensures
            final(self).cells() == (if begin <= old(self).cells().len() {
                old(self).cells().subrange(0, begin as int)
            } else {
                old(self).cells()
            }),
            final(self).max_depth() == old(self).max_depth(),
    {
        self.cells.truncate(begin);
        if vec_capacity(&self.cells) > self.max_capacity {
            vec_shrink_to(&mut self.cells, self.min_capacity);
        }
    }

    /// Pushes a Nil cell.
    pub fn push_nil(&mut self)
        ensures
            final(self).cells().len() == old(self).cells().len() + 1,
            final(self).cells().drop_last() == old(self).cells(),
            final(self).cells().last().spec_is_nil(),
            final(self).max_depth() == old(self).max_depth(),
    {
        self.cells.push(Cell::nil());
        proof {
            assert(self.cells@.drop_last() =~= old(self).cells@);
        }
    }

    /// Pushes `cell`.
    pub fn push(&mut self, cell: Cell)
        ensures
            final(self).cells() == old(self).cells().push(cell),
            final(self).max_depth() == old(self).max_depth(),
    {
        self.cells.push(cell);
    }

    /// Pops the top cell of the frame that begins at `frame_begin`; Nil if
    /// the frame is empty.
    pub fn pop_1(&mut self, frame_begin: StackDepth) -> (r: Cell)
        ensures
            final(self).max_depth() == old(self).max_depth(),
            pop_1_post(old(self).cells(), final(self).cells(), frame_begin as int, r),
    {
        if self.cells.len() <= frame_begin {
            return Cell::nil();
        }
        match self.cells.pop() {
            Some(cell) => cell,
            None => Cell::nil(),
        }
    }

    /// Pops the two top cells of the frame that begins at `frame_begin`,
    /// returning them in stack order (the lower one first); missing cells
    /// are Nil.
    pub fn pop_2(&mut self, frame_begin: StackDepth) -> (r: (Cell, Cell))
        ensures
            final(self).max_depth() == old(self).max_depth(),
            ({
                let s = old(self).cells();
                let n = s.len();
                let available = if n > frame_begin { n - frame_begin } else { 0 };
                if available >= 2 {
                    r.0 == s[n - 2] && r.1 == s[n - 1] && final(self).cells() == s.subrange(0, n - 2)
                } else if available == 1 {
                    r.0.spec_is_nil() && r.1 == s[n - 1] && final(self).cells() == s.drop_last()
                } else {
                    r.0.spec_is_nil() && r.1.spec_is_nil() && final(self).cells() == s
                }
            }),
    {
        let cell_2 = if self.cells.len() <= frame_begin {
            Cell::nil()
        } else {
            match self.cells.pop() {
                Some(cell) => cell,
                None => Cell::nil(),
            }
        };
        let cell_1 = if self.cells.len() <= frame_begin {
            Cell::nil()
        } else {
            match self.cells.pop() {
                Some(cell) => cell,
                None => Cell::nil(),
            }
        };
        proof {
            let s = old(self).cells@;
            let n = s.len();
            if n >= frame_begin + 2 {
                assert(s.drop_last().drop_last() =~= s.subrange(0, n - 2));
            }
        }
        (cell_1, cell_2)
    }

    /// Pops up to `length` top cells of the frame that begins at
    /// `frame_begin`, returning them in stack order.
    pub fn pop_many(&mut self, frame_begin: StackDepth, length: StackDepth) -> (r: Vec<Cell>)
        ensures
            final(self).max_depth() == old(self).max_depth(),
            pop_many_post(old(self).cells(), final(self).cells(), frame_begin as int, length as int, r@),
    {
        let mut at = self.cells.len().checked_sub(length).unwrap_or_default();
        if at < frame_begin {
            at = frame_begin;
        }
        if at > self.cells.len() {
            return Vec::new();
        }
        self.cells.split_off(at)
    }

    /// A copy of the top cell of the frame that begins at `frame_begin`;
    /// Nil if the frame is empty.
    pub fn peek_1(&self, frame_begin: StackDepth) -> (r: Cell)
        ensures
            self.cells().len() <= frame_begin ==> r.spec_is_nil(),
            self.cells().len() > frame_begin ==> r == self.cells().last(),
    {
        if self.cells.len() <= frame_begin {
            return Cell::nil();
        }
        self.cells[self.cells.len() - 1]
    }

    /// Moves the cell at `depth` of the frame that begins at `frame_begin`
    /// to the top of the stack, leaving Nil in its place; pushes Nil if
    /// there is no such cell.
    pub fn lift(&mut self, frame_begin: StackDepth, depth: StackDepth)
        requires
            frame_begin + depth <= usize::MAX,
        ensures
            final(self).max_depth() == old(self).max_depth(),
            ({
                let d = frame_begin + depth;
                let s = old(self).cells();
                if d < s.len() {
                    final(self).cells().len() == s.len() + 1
                        && final(self).cells().last() == s[d]
                        && final(self).cells()[d].spec_is_nil()
                        && forall|i: int|
                        0 <= i < s.len() && i != d ==> #[trigger] final(self).cells()[i] == s[i]
                } else {
                    final(self).cells().len() == s.len() + 1
                        && final(self).cells().drop_last() == s
                        && final(self).cells().last().spec_is_nil()
                }
            }),
    {
        let depth = depth + frame_begin;
        let cell = if depth < self.cells.len() {
            let cell = self.cells[depth];
            self.cells.set(depth, Cell::nil());
            cell
        } else {
            Cell::nil()
        };
        self.cells.push(cell);
        proof {
            if depth >= old(self).cells@.len() {
                assert(self.cells@.drop_last() =~= old(self).cells@);
            }
        }
    }

    /// Exchanges the cell at `depth` of the frame that begins at
    /// `frame_begin` with the top cell; does nothing if there is no such
    /// cell.
    pub fn swap(&mut self, frame_begin: StackDepth, depth: StackDepth)
        requires
            frame_begin + depth <= usize::MAX,
        ensures
            final(self).max_depth() == old(self).max_depth(),
            final(self).cells() == swapped(old(self).cells(), frame_begin + depth),
    {
        let depth = depth + frame_begin;
        if depth >= self.cells.len() {
            return;
        }
        let last = self.cells.len() - 1;
        let top = self.cells[last];
        let cell = self.cells[depth];
        self.cells.set(depth, top);
        self.cells.set(last, cell);
    }

    /// Pushes a copy of the cell at `depth` of the frame that begins at
    /// `frame_begin`; pushes Nil if there is no such cell.
    pub fn dup(&mut self, frame_begin: StackDepth, depth: StackDepth)
        requires
            frame_begin + depth <= usize::MAX,
        ensures
            final(self).max_depth() == old(self).max_depth(),
            final(self).cells().len() == old(self).cells().len() + 1,
            final(self).cells().drop_last() == old(self).cells(),
            frame_begin + depth < old(self).cells().len() ==> final(self).cells().last() == old(self).cells()[frame_begin + depth],
            frame_begin + depth >= old(self).cells().len() ==> final(self).cells().last().spec_is_nil(),
    {
        let depth = depth + frame_begin;
        let cell = if depth < self.cells.len() {
            self.cells[depth]
        } else {
            Cell::nil()
        };
        self.cells.push(cell);
        proof {
            assert(self.cells@.drop_last() =~= old(self).cells@);
        }
    }

    /// Drops the cells of the frame that begins at `frame_begin` above
    /// `depth`.
    pub fn shrink(&mut self, frame_begin: StackDepth, depth: StackDepth)
        requires
            frame_begin + depth <= usize::MAX,
        ensures
            final(self).max_depth() == old(self).max_depth(),
            final(self).cells() == truncated(old(self).cells(), frame_begin + depth),
    {
        self.cells.truncate(frame_begin + depth)
    }
}

/// Popping the cell that was just pushed gives it back and leaves the
/// stack as it was, for any frame that began below it.
pub proof fn law_push_then_pop(s0: Seq<Cell>, cell: Cell, s2: Seq<Cell>, frame: int, r: Cell)
    requires
        frame <= s0.len(),
        pop_1_post(s0.push(cell), s2, frame, r),
    ensures
        r == cell,
        s2 == s0,
{
    assert(s0.push(cell).drop_last() =~= s0);
}

/// Swapping the same cell with the top twice leaves the stack as it was.
pub proof fn law_swap_twice(s: Seq<Cell>, d: int)
    ensures
        swapped(swapped(s, d), d) == s,
{
    if 0 <= d < s.len() {
        assert(swapped(swapped(s, d), d) =~= s);
    }
}

/// The operations of a frame never change the cells below the frame's
/// beginning.
pub proof fn law_frame_keeps_lower_cells(
    s: Seq<Cell>,
    frame: int,
    depth: int,
    length: int,
    popped_1: (Seq<Cell>, Cell),
    popped_many: (Seq<Cell>, Seq<Cell>),
)
    requires
        0 <= frame,
        0 <= depth,
        pop_1_post(s, popped_1.0, frame, popped_1.1),
        pop_many_post(s, popped_many.0, frame, length, popped_many.1),
    ensures
        forall|i: int|
            0 <= i < frame && i < s.len() ==> {
                &&& popped_1.0[i] == s[i]
                &&& popped_many.0[i] == s[i]
                &&& #[trigger] swapped(s, frame + depth)[i] == s[i]
                &&& truncated(s, frame + depth)[i] == s[i]
            },
{
}

} // verus!
