use vstd::prelude::*;

use crate::assembly::{Assembly, Cmd, CmdIndex};
use crate::cell::{take_post, takeable, Cell};
use crate::memory::{same_borrows, MemorySlice};
use crate::invoke::Arg;
use crate::ty::TypeMeta;
use crate::error::{RuntimeError, RuntimeResult};
use crate::origin::Origin;
use crate::stack::{pop_1_post, swapped, truncated, Stack, StackDepth};

verus! {

/// The interpreter's position in the assembly of the function it runs.
#[derive(Clone, Copy, Debug)]
pub struct Engine {
    /// The depth where the function's stack frame begins.
    pub frame_begin: StackDepth,
    /// The command to run next; an index past the commands returns.
    pub cmd_index: CmdIndex,
    /// Roughly where in the source code the evaluation is.
    pub cmd_origin: Origin,
    /// Whether the evaluation runs without a hook, in which case the origin
    /// is not tracked.
    pub trusted: bool,
}

impl Engine {
    /// Starts running the function `assembly`: enters its frame, or fails
    /// with a stack overflow at the function's declaration.
    pub fn start(assembly: &Assembly, stack: &mut Stack, trusted: bool) -> (r: RuntimeResult<Engine>)
        ensures
            final(stack).cells() == old(stack).cells(),
            final(stack).max_depth() == old(stack).max_depth(),
            ({
                let diff = if assembly.frame >= assembly.arity { assembly.frame - assembly.arity } else { 0 };
                let depth = old(stack).cells().len();
                if depth + diff > old(stack).max_depth() {
                    r == Err::<Engine, RuntimeError>(
                        RuntimeError::StackOverflow { origin: assembly.spec_decl_origin() },
                    )
                } else {
                    r == Ok::<Engine, RuntimeError>(
                        Engine {
                            frame_begin: (if depth >= assembly.arity { depth - assembly.arity } else { 0 }) as usize,
                            cmd_index: 0,
                            cmd_origin: assembly.spec_decl_origin(),
                            trusted,
                        },
                    )
                }
            }),
    {
        let origin = assembly.decl_origin();
        match stack.enter_frame(assembly.frame, assembly.arity) {
            None => Err(RuntimeError::StackOverflow { origin }),
            Some(frame_begin) => Ok(Engine { frame_begin, cmd_index: 0, cmd_origin: origin, trusted }),
        }
    }

    /// Ends the run: on success the frame is left keeping the one result
    /// cell at its beginning; on failure the whole frame is left and a Nil
    /// result is pushed in its place.
    pub fn finish(&self, stack: &mut Stack, succeeded: bool)
        requires
            self.frame_begin < usize::MAX,
        ensures
            final(stack).max_depth() == old(stack).max_depth(),
            succeeded ==> final(stack).cells() == truncated(old(stack).cells(), self.frame_begin + 1),
            !succeeded ==> final(stack).cells().len() == truncated(old(stack).cells(), self.frame_begin as int).len()
                + 1 && final(stack).cells().drop_last() == truncated(old(stack).cells(), self.frame_begin as int)
                && final(stack).cells().last().spec_is_nil(),
    {
        if succeeded {
            stack.leave_frame(self.frame_begin + 1);
        } else {
            stack.leave_frame(self.frame_begin);
            stack.push_nil();
        }
    }

    /// The engine moved on to the next command.
    pub open spec fn next(self) -> Engine {
        Engine { cmd_index: (self.cmd_index + 1) as usize, ..self }
    }

    /// Begins a turn of the interpreter loop. Unless the engine is trusted,
    /// `proceed` is the hook's answer to the question whether to go on at
    /// `cmd_origin`; when it says no, the run is interrupted there. A
    /// position past the last command ends the run successfully. Otherwise
    /// the command at `cmd_index` is to be run next, and `None` is returned.
    pub fn step_begin(&self, assembly: &Assembly, proceed: bool) -> (r: Option<RuntimeResult<()>>)
        ensures
            !self.trusted && !proceed ==> r == Some(
                Err::<(), RuntimeError>(RuntimeError::Interrupted { origin: self.cmd_origin }),
            ),
            (self.trusted || proceed) && self.cmd_index >= assembly.commands@.len() ==> r == Some(
                Ok::<(), RuntimeError>(()),
            ),
            (self.trusted || proceed) && self.cmd_index < assembly.commands@.len() ==> r is None,
    {
        if !self.trusted && !proceed {
            return Some(Err(RuntimeError::Interrupted { origin: self.cmd_origin }));
        }
        if self.cmd_index >= assembly.commands.len() {
            return Some(Ok(()));
        }
        None
    }

    /// Whether the command `cmd` addresses frame depths that fit in the
    /// address space, counted from `frame_begin`.
    pub open spec fn depths_fit(cmd: Cmd, frame_begin: StackDepth) -> bool {
        match cmd {
            Cmd::Lift { depth } | Cmd::Swap { depth } | Cmd::Dup { depth } | Cmd::Shrink { depth } => frame_begin
                + depth <= usize::MAX,
            _ => true,
        }
    }

    /// How one dispatched command `cmd` changes the engine `e0` into `e1`
    /// and the stack `s0` into `s1`; `r` tells whether the engine ran it.
    /// The commands that only move or copy cells (of the stack or of the
    /// function's `closures`) or change the position are run by their
    /// `execute_` functions; the others are left to the host, with nothing
    /// changed.
    pub open spec fn dispatch_post(
        cmd: Cmd,
        closures: Seq<Cell>,
        e0: Engine,
        e1: Engine,
        s0: Stack,
        s1: Stack,
        r: bool,
    ) -> bool {
        match cmd {
            Cmd::Jump { command } => r && e1 == (Engine { cmd_index: command, ..e0 }) && s1 == s0,
            Cmd::Lift { depth } => r && e1 == e0.next() && lift_post(e0.frame_begin, depth, s0, s1),
            Cmd::Swap { depth } => r && e1 == e0.next() && swap_post(e0.frame_begin, depth, s0, s1),
            Cmd::Dup { depth } => r && e1 == e0.next() && dup_post(e0.frame_begin, depth, s0, s1),
            Cmd::Shrink { depth } => r && e1 == e0.next() && shrink_post(e0.frame_begin, depth, s0, s1),
            Cmd::PushNil => r && e1 == e0.next() && push_nil_post(s0, s1),
            Cmd::PushClosure { index } => r && e1 == e0.next() && push_closure_post(closures, index, s0, s1),
            _ => !r && e1 == e0 && s1 == s0,
        }
    }

    /// Runs the command at `cmd_index` of the function whose assembly is
    /// `assembly` and whose closures are `closures`, when it is one that the
    /// engine runs by itself (see [Engine::dispatch_post]); gives `false`
    /// and changes nothing for the others, which the host runs.
    pub fn dispatch(&mut self, assembly: &Assembly, closures: &Vec<Cell>, stack: &mut Stack) -> (r: bool)
        requires
            old(self).cmd_index < assembly.commands@.len(),
            old(self).cmd_index < usize::MAX,
            Engine::depths_fit(assembly.commands@[old(self).cmd_index as int], old(self).frame_begin),
        ensures
            Engine::dispatch_post(
                assembly.commands@[old(self).cmd_index as int],
                closures@,
                *old(self),
                *final(self),
                *old(stack),
                *final(stack),
                r,
            ),
    {
        let cmd = assembly.commands[self.cmd_index];
        match cmd {
            Cmd::Jump { command } => {
                self.execute_jump(command);
                true
            },
            Cmd::Lift { depth } => {
                self.execute_lift(stack, depth);
                true
            },
            Cmd::Swap { depth } => {
                self.execute_swap(stack, depth);
                true
            },
            Cmd::Dup { depth } => {
                self.execute_dup(stack, depth);
                true
            },
            Cmd::Shrink { depth } => {
                self.execute_shrink(stack, depth);
                true
            },
            Cmd::PushNil => {
                self.execute_push_nil(stack);
                true
            },
            Cmd::PushClosure { index } => {
                self.execute_push_closure(stack, closures, index);
                true
            },
            _ => false,
        }
    }

    /// Jumps to `command`.
    pub fn execute_jump(&mut self, command: CmdIndex)
        ensures
            *final(self) == (Engine { cmd_index: command, ..*old(self) }),
    {
        self.cmd_index = command;
    }

    /// Pops the condition of a conditional jump at `origin`: the frame's
    /// top cell (Nil when the frame is empty), from which a `bool` must be
    /// taken (see [Cell::check_take]; `slice` is the allocation of the top
    /// cell's data, `sole` and `clones` as there). The popped cell is
    /// returned beside the check's outcome; the host reads the value from
    /// it and hands it to [Engine::execute_if_true] or
    /// [Engine::execute_if_false].
    pub fn pop_condition(
        &self,
        stack: &mut Stack,
        origin: Origin,
        sole: bool,
        clones: bool,
        slice: &mut MemorySlice,
    ) -> (r: (Cell, RuntimeResult<()>))
        requires
            old(slice).wf(),
            old(stack).cells().len() > self.frame_begin ==> (old(stack).cells().last().target() matches Some(info)
                ==> old(slice).info() == info && takeable(info, sole)),
        ensures
            final(stack).max_depth() == old(stack).max_depth(),
            pop_1_post(old(stack).cells(), final(stack).cells(), self.frame_begin as int, r.0),
            final(slice).wf(),
            final(slice).info() == old(slice).info(),
            same_borrows(old(slice).table(), final(slice).table()),
            take_post(r.0.target(), old(slice).table(), origin, TypeMeta::spec_bool(), true, sole, clones, r.1),
    {
        let cell = stack.pop_1(self.frame_begin);
        let checked = cell.check_take(origin, TypeMeta::of_bool(), sole, clones, slice);
        (cell, checked)
    }

    /// Goes on with the next command when the popped `condition` is true,
    /// else jumps to `otherwise`; `condition_origin` is where the condition
    /// comes from.
    pub fn execute_if_true(&mut self, otherwise: CmdIndex, condition_origin: Origin, condition: bool)
        requires
            old(self).cmd_index < usize::MAX,
        ensures
            final(self).frame_begin == old(self).frame_begin,
            final(self).trusted == old(self).trusted,
            final(self).cmd_origin == if old(self).trusted { old(self).cmd_origin } else { condition_origin },
            final(self).cmd_index == if condition { (old(self).cmd_index + 1) as usize } else { otherwise },
    {
        if !self.trusted {
            self.cmd_origin = condition_origin;
        }
        if condition {
            self.cmd_index = self.cmd_index + 1;
        } else {
            self.cmd_index = otherwise;
        }
    }

    /// Goes on with the next command when the popped `condition` is false,
    /// else jumps to `otherwise`; `condition_origin` is where the condition
    /// comes from.
    pub fn execute_if_false(&mut self, otherwise: CmdIndex, condition_origin: Origin, condition: bool)
        requires
            old(self).cmd_index < usize::MAX,
        ensures
            final(self).frame_begin == old(self).frame_begin,
            final(self).trusted == old(self).trusted,
            final(self).cmd_origin == if old(self).trusted { old(self).cmd_origin } else { condition_origin },
            final(self).cmd_index == if condition { otherwise } else { (old(self).cmd_index + 1) as usize },
    {
        if !self.trusted {
            self.cmd_origin = condition_origin;
        }
        if condition {
            self.cmd_index = otherwise;
        } else {
            self.cmd_index = self.cmd_index + 1;
        }
    }

    /// Moves the frame's cell at `depth` to the top of the stack.
    pub fn execute_lift(&mut self, stack: &mut Stack, depth: StackDepth)
        requires
            old(self).frame_begin + depth <= usize::MAX,
            old(self).cmd_index < usize::MAX,
        ensures
            *final(self) == old(self).next(),
            lift_post(old(self).frame_begin, depth, *old(stack), *final(stack)),
    {
        stack.lift(self.frame_begin, depth);
        proof {
            let d = self.frame_begin + depth;
            let s = old(stack).cells();
            if d < s.len() {
                assert(stack.cells() =~= s.update(d, stack.cells()[d]).push(s[d]));
            }
        }
        self.cmd_index = self.cmd_index + 1;
    }

    /// Exchanges the frame's cell at `depth` with the top cell.
    pub fn execute_swap(&mut self, stack: &mut Stack, depth: StackDepth)
        requires
            old(self).frame_begin + depth <= usize::MAX,
            old(self).cmd_index < usize::MAX,
        ensures
            *final(self) == old(self).next(),
            swap_post(old(self).frame_begin, depth, *old(stack), *final(stack)),
    {
        stack.swap(self.frame_begin, depth);
        self.cmd_index = self.cmd_index + 1;
    }

    /// Pushes a copy of the frame's cell at `depth`.
    pub fn execute_dup(&mut self, stack: &mut Stack, depth: StackDepth)
        requires
            old(self).frame_begin + depth <= usize::MAX,
            old(self).cmd_index < usize::MAX,
        ensures
            *final(self) == old(self).next(),
            dup_post(old(self).frame_begin, depth, *old(stack), *final(stack)),
    {
        stack.dup(self.frame_begin, depth);
        self.cmd_index = self.cmd_index + 1;
    }

    /// Drops the frame's cells above `depth`.
    pub fn execute_shrink(&mut self, stack: &mut Stack, depth: StackDepth)
        requires
            old(self).frame_begin + depth <= usize::MAX,
            old(self).cmd_index < usize::MAX,
        ensures
            *final(self) == old(self).next(),
            shrink_post(old(self).frame_begin, depth, *old(stack), *final(stack)),
    {
        stack.shrink(self.frame_begin, depth);
        self.cmd_index = self.cmd_index + 1;
    }

    /// Pushes a copy of the closure at `index` of `closures`, or Nil when
    /// there is no such closure.
    pub fn execute_push_closure(&mut self, stack: &mut Stack, closures: &Vec<Cell>, index: usize)
        requires
            old(self).cmd_index < usize::MAX,
        ensures
            *final(self) == old(self).next(),
            push_closure_post(closures@, index, *old(stack), *final(stack)),
    {
        if index < closures.len() {
            stack.push(closures[index]);
            assert(stack.cells().drop_last() =~= old(stack).cells());
        } else {
            stack.push_nil();
        }
        self.cmd_index = self.cmd_index + 1;
    }

    /// Pushes Nil.
    pub fn execute_push_nil(&mut self, stack: &mut Stack)
        requires
            old(self).cmd_index < usize::MAX,
        ensures
            *final(self) == old(self).next(),
            push_nil_post(*old(stack), *final(stack)),
    {
        stack.push_nil();
        self.cmd_index = self.cmd_index + 1;
    }
}

/// How [Engine::execute_lift] changes the stack `s0` into `s1`: the
/// frame's cell at `depth` (counted from `frame_begin`) moves to the top
/// and Nil takes its place; past the top, Nil is pushed.
pub open spec fn lift_post(frame_begin: StackDepth, depth: StackDepth, s0: Stack, s1: Stack) -> bool {
    let d = frame_begin + depth;
    let s = s0.cells();
    &&& s1.max_depth() == s0.max_depth()
    &&& if d < s.len() {
        s1.cells() == s.update(d, s1.cells()[d]).push(s[d]) && s1.cells()[d].spec_is_nil()
    } else {
        s1.cells().len() == s.len() + 1 && s1.cells().drop_last() == s && s1.cells().last().spec_is_nil()
    }
}

/// How [Engine::execute_swap] changes the stack `s0` into `s1`.
pub open spec fn swap_post(frame_begin: StackDepth, depth: StackDepth, s0: Stack, s1: Stack) -> bool {
    &&& s1.max_depth() == s0.max_depth()
    &&& s1.cells() == swapped(s0.cells(), frame_begin + depth)
}

/// How [Engine::execute_dup] changes the stack `s0` into `s1`: a copy of
/// the frame's cell at `depth` is pushed, or Nil past the top.
pub open spec fn dup_post(frame_begin: StackDepth, depth: StackDepth, s0: Stack, s1: Stack) -> bool {
    &&& s1.max_depth() == s0.max_depth()
    &&& s1.cells().len() == s0.cells().len() + 1
    &&& s1.cells().drop_last() == s0.cells()
    &&& frame_begin + depth < s0.cells().len() ==> s1.cells().last() == s0.cells()[frame_begin + depth]
    &&& frame_begin + depth >= s0.cells().len() ==> s1.cells().last().spec_is_nil()
}

/// How [Engine::execute_shrink] changes the stack `s0` into `s1`.
pub open spec fn shrink_post(frame_begin: StackDepth, depth: StackDepth, s0: Stack, s1: Stack) -> bool {
    &&& s1.max_depth() == s0.max_depth()
    &&& s1.cells() == truncated(s0.cells(), frame_begin + depth)
}

/// How [Engine::execute_push_closure] changes the stack `s0` into `s1`:
/// the closure at `index` of `closures` is pushed, or Nil past their end.
pub open spec fn push_closure_post(closures: Seq<Cell>, index: usize, s0: Stack, s1: Stack) -> bool {
    &&& s1.max_depth() == s0.max_depth()
    &&& s1.cells().len() == s0.cells().len() + 1
    &&& s1.cells().drop_last() == s0.cells()
    &&& index < closures.len() ==> s1.cells().last() == closures[index as int]
    &&& index >= closures.len() ==> s1.cells().last().spec_is_nil()
}

/// How [Engine::execute_push_nil] changes the stack `s0` into `s1`.
pub open spec fn push_nil_post(s0: Stack, s1: Stack) -> bool {
    &&& s1.max_depth() == s0.max_depth()
    &&& s1.cells().len() == s0.cells().len() + 1
    &&& s1.cells().drop_last() == s0.cells()
    &&& s1.cells().last().spec_is_nil()
}

/// The error of a script function invoked with `arguments` arguments, if
/// the function, `callee`, has a different number of parameters.
pub fn check_arity(invocation_origin: Origin, callee: &Assembly, arguments: usize) -> (r: RuntimeResult<()>)
    ensures
        callee.arity == arguments ==> r is Ok,
        callee.arity != arguments ==> r == Err::<(), RuntimeError>(
            RuntimeError::ArityMismatch {
                invocation_origin,
                function_origin: callee.spec_decl_origin(),
                parameters: callee.arity,
                arguments,
            },
        ),
{
    if callee.arity != arguments {
        return Err(
            RuntimeError::ArityMismatch {
                invocation_origin,
                function_origin: callee.decl_origin(),
                parameters: callee.arity,
                arguments,
            },
        );
    }
    Ok(())
}

/// The origins of an invocation from the origins of its command, `origins`:
/// the last one is the invocation's, the one before the invoked value's
/// (both default to `decl_origin`), and the rest belong to the `count`
/// arguments in order, the invocation's origin standing in for missing
/// ones.
pub fn invocation_origins(origins: &Vec<Origin>, decl_origin: Origin, count: usize) -> (r: (
    Origin,
    Origin,
    Vec<Origin>,
))
    ensures
        ({
            let n = origins@.len();
            let invocation = if n >= 1 { origins@[n - 1] } else { decl_origin };
            let lhs = if n >= 2 { origins@[n - 2] } else { decl_origin };
            let rest = if n >= 2 { n - 2 } else { 0 };
            &&& r.0 == invocation
            &&& r.1 == lhs
            &&& r.2@.len() == count
            &&& forall|i: int|
                0 <= i < count ==> #[trigger] r.2@[i] == if i < rest { origins@[i] } else { invocation }
        }),
{
    let n = origins.len();
    let invocation = if n >= 1 {
        origins[n - 1]
    } else {
        decl_origin
    };
    let lhs = if n >= 2 {
        origins[n - 2]
    } else {
        decl_origin
    };
    let rest = if n >= 2 {
        n - 2
    } else {
        0
    };
    let mut args: Vec<Origin> = Vec::new();
    let mut i: usize = 0;
    while i < count
        invariant
            i <= count,
            n == origins@.len(),
            rest <= n,
            args@.len() == i,
            forall|k: int| 0 <= k < i ==> #[trigger] args@[k] == if k < rest { origins@[k] } else { invocation },
        decreases count - i,
    {
        if i < rest {
            args.push(origins[i]);
        } else {
            args.push(invocation);
        }
        i = i + 1;
    }
    (invocation, lhs, args)
}

} // verus!

verus! {

/// The type of the first cell of `cells` that is not Nil.
pub open spec fn first_data_type(cells: Seq<Cell>) -> Option<TypeMeta>
    decreases cells.len(),
{
    if cells.len() == 0 {
        None
    } else {
        match first_data_type(cells.drop_last()) {
            Some(ty) => Some(ty),
            None => if cells.last().spec_is_nil() {
                None
            } else {
                Some(cells.last().spec_ty())
            },
        }
    }
}

/// The parts of an array construction from the origins of its command,
/// `origins`, and the item cells: the array's origin (the last origin, or
/// `decl_origin`), the items as arguments with the preceding origins in
/// order (the nil origin for missing ones), and the type of the first item
/// that is not Nil, which constructs the array.
pub fn concat_arguments(origins: &Vec<Origin>, decl_origin: Origin, cells: &Vec<Cell>) -> (r: (
    Origin,
    Vec<Arg>,
    Option<TypeMeta>,
))
    ensures
        r.0 == if origins@.len() >= 1 { origins@[origins@.len() - 1] } else { decl_origin },
        r.1@.len() == cells@.len(),
        forall|i: int|
            0 <= i < cells@.len() ==> #[trigger] r.1@[i] == (Arg {
                origin: if i + 1 < origins@.len() { origins@[i] } else { Origin::spec_nil() },
                data: cells@[i],
            }),
        r.2 == first_data_type(cells@),
{
    let n = origins.len();
    let array_origin = if n >= 1 {
        origins[n - 1]
    } else {
        decl_origin
    };
    let items = if n >= 1 {
        n - 1
    } else {
        0
    };
    let mut args: Vec<Arg> = Vec::new();
    let mut receiver: Option<TypeMeta> = None;
    let mut i: usize = 0;
    while i < cells.len()
        invariant
            i <= cells@.len(),
            n == origins@.len(),
            items == if n >= 1 { n - 1 } else { 0 },
            args@.len() == i,
            forall|k: int|
                0 <= k < i ==> #[trigger] args@[k] == (Arg {
                    origin: if k + 1 < n { origins@[k] } else { Origin::spec_nil() },
                    data: cells@[k],
                }),
            receiver == first_data_type(cells@.subrange(0, i as int)),
        decreases cells.len() - i,
    {
        let data = cells[i];
        proof {
            assert(cells@.subrange(0, i + 1).drop_last() =~= cells@.subrange(0, i as int));
        }
        if receiver.is_none() && !data.is_nil() {
            receiver = Some(data.ty());
        }
        let origin = if i < items {
            origins[i]
        } else {
            Origin::nil()
        };
        args.push(Arg { origin, data });
        i = i + 1;
    }
    proof {
        assert(cells@.subrange(0, cells@.len() as int) =~= cells@);
    }
    (array_origin, args, receiver)
}

} // verus!

verus! {

/// Dispatching a lift moves the frame's cell at `depth` to the top of the
/// stack and leaves Nil in its place; the other cells stay where they are.
pub proof fn law_dispatched_lift_moves_the_cell(
    depth: StackDepth,
    closures: Seq<Cell>,
    e0: Engine,
    e1: Engine,
    s0: Stack,
    s1: Stack,
    r: bool,
)
    requires
        Engine::dispatch_post(Cmd::Lift { depth }, closures, e0, e1, s0, s1, r),
        e0.cmd_index < usize::MAX,
        e0.frame_begin + depth < s0.cells().len(),
    ensures
        r,
        e1.cmd_index == e0.cmd_index + 1,
        s1.cells().len() == s0.cells().len() + 1,
        s1.cells()[e0.frame_begin + depth].spec_is_nil(),
        s1.cells().last() == s0.cells()[e0.frame_begin + depth],
        forall|i: int|
            0 <= i < s0.cells().len() && i != e0.frame_begin + depth ==> #[trigger] s1.cells()[i] == s0.cells()[i],
{
    let d = e0.frame_begin + depth;
    assert(s1.cells().len() == s0.cells().len() + 1);
    assert forall|i: int| 0 <= i < s0.cells().len() && i != d implies #[trigger] s1.cells()[i] == s0.cells()[i] by {
        assert(s1.cells()[i] == s0.cells().update(d, s1.cells()[d]).push(s0.cells()[d])[i]);
    }
    assert(s1.cells()[s1.cells().len() - 1] == s0.cells().update(d, s1.cells()[d]).push(s0.cells()[d])[s0.cells().len() as int]);
}

/// Dispatching a lift past the top of the stack pushes Nil.
pub proof fn law_dispatched_lift_past_the_top(
    depth: StackDepth,
    closures: Seq<Cell>,
    e0: Engine,
    e1: Engine,
    s0: Stack,
    s1: Stack,
    r: bool,
)
    requires
        Engine::dispatch_post(Cmd::Lift { depth }, closures, e0, e1, s0, s1, r),
        e0.frame_begin + depth >= s0.cells().len(),
    ensures
        r,
        s1.cells().len() == s0.cells().len() + 1,
        s1.cells().last().spec_is_nil(),
        forall|i: int| 0 <= i < s0.cells().len() ==> #[trigger] s1.cells()[i] == s0.cells()[i],
{
    assert forall|i: int| 0 <= i < s0.cells().len() implies #[trigger] s1.cells()[i] == s0.cells()[i] by {
        assert(s1.cells().drop_last()[i] == s1.cells()[i]);
    }
}

/// Dispatching a swap exchanges the frame's cell at `depth` with the top
/// cell; the other cells stay where they are.
pub proof fn law_dispatched_swap_exchanges(
    depth: StackDepth,
    closures: Seq<Cell>,
    e0: Engine,
    e1: Engine,
    s0: Stack,
    s1: Stack,
    r: bool,
)
    requires
        Engine::dispatch_post(Cmd::Swap { depth }, closures, e0, e1, s0, s1, r),
        e0.cmd_index < usize::MAX,
        e0.frame_begin + depth < s0.cells().len(),
    ensures
        r,
        e1.cmd_index == e0.cmd_index + 1,
        s1.cells().len() == s0.cells().len(),
        s1.cells()[e0.frame_begin + depth] == s0.cells().last(),
        s1.cells().last() == s0.cells()[e0.frame_begin + depth],
        forall|i: int|
            0 <= i < s0.cells().len() - 1 && i != e0.frame_begin + depth ==> #[trigger] s1.cells()[i]
                == s0.cells()[i],
{
}

/// Dispatching a dup pushes a copy of the frame's cell at `depth` (Nil past
/// the top) and keeps every cell below.
pub proof fn law_dispatched_dup_copies(
    depth: StackDepth,
    closures: Seq<Cell>,
    e0: Engine,
    e1: Engine,
    s0: Stack,
    s1: Stack,
    r: bool,
)
    requires
        Engine::dispatch_post(Cmd::Dup { depth }, closures, e0, e1, s0, s1, r),
        e0.cmd_index < usize::MAX,
    ensures
        r,
        e1.cmd_index == e0.cmd_index + 1,
        s1.cells().len() == s0.cells().len() + 1,
        forall|i: int| 0 <= i < s0.cells().len() ==> #[trigger] s1.cells()[i] == s0.cells()[i],
        e0.frame_begin + depth < s0.cells().len() ==> s1.cells().last() == s0.cells()[e0.frame_begin + depth],
        e0.frame_begin + depth >= s0.cells().len() ==> s1.cells().last().spec_is_nil(),
{
    assert forall|i: int| 0 <= i < s0.cells().len() implies #[trigger] s1.cells()[i] == s0.cells()[i] by {
        assert(s1.cells().drop_last()[i] == s1.cells()[i]);
    }
}

/// Dispatching a shrink keeps exactly the cells below the frame's `depth`.
pub proof fn law_dispatched_shrink_truncates(
    depth: StackDepth,
    closures: Seq<Cell>,
    e0: Engine,
    e1: Engine,
    s0: Stack,
    s1: Stack,
    r: bool,
)
    requires
        Engine::dispatch_post(Cmd::Shrink { depth }, closures, e0, e1, s0, s1, r),
        e0.cmd_index < usize::MAX,
    ensures
        r,
        e1.cmd_index == e0.cmd_index + 1,
        e0.frame_begin + depth <= s0.cells().len() ==> s1.cells().len() == e0.frame_begin + depth,
        e0.frame_begin + depth > s0.cells().len() ==> s1.cells().len() == s0.cells().len(),
        forall|i: int| 0 <= i < s1.cells().len() ==> #[trigger] s1.cells()[i] == s0.cells()[i],
{
}

/// Dispatching a push of Nil or of a closure grows the stack by that cell
/// (Nil for a closure past the function's closures), and a jump only moves
/// the position.
pub proof fn law_dispatched_pushes_and_jumps(
    cmd: Cmd,
    closures: Seq<Cell>,
    e0: Engine,
    e1: Engine,
    s0: Stack,
    s1: Stack,
    r: bool,
)
    requires
        Engine::dispatch_post(cmd, closures, e0, e1, s0, s1, r),
    ensures
        cmd is PushNil ==> r && s1.cells().len() == s0.cells().len() + 1 && s1.cells().last().spec_is_nil(),
        cmd matches Cmd::PushClosure { index } ==> r && s1.cells().len() == s0.cells().len() + 1 && (
        index < closures.len() ==> s1.cells().last() == closures[index as int]) && (index >= closures.len()
            ==> s1.cells().last().spec_is_nil()),
        cmd is PushNil || cmd is PushClosure ==> forall|i: int|
            0 <= i < s0.cells().len() ==> #[trigger] s1.cells()[i] == s0.cells()[i],
        cmd matches Cmd::Jump { command } ==> r && e1.cmd_index == command && e1.frame_begin == e0.frame_begin
            && s1 == s0,
{
    if cmd is PushNil || cmd is PushClosure {
        assert forall|i: int| 0 <= i < s0.cells().len() implies #[trigger] s1.cells()[i] == s0.cells()[i] by {
            assert(s1.cells().drop_last()[i] == s1.cells()[i]);
        }
    }
}

/// The commands the engine does not run itself are left to the host with
/// the engine and the stack unchanged.
pub proof fn law_host_commands_change_nothing(
    cmd: Cmd,
    closures: Seq<Cell>,
    e0: Engine,
    e1: Engine,
    s0: Stack,
    s1: Stack,
    r: bool,
)
    requires
        Engine::dispatch_post(cmd, closures, e0, e1, s0, s1, r),
        !r,
    ensures
        e1 == e0,
        s1 == s0,
        !(cmd is Jump || cmd is Lift || cmd is Swap || cmd is Dup || cmd is Shrink || cmd is PushNil
            || cmd is PushClosure),
{
}

/// The type that constructs an array is that of its first item that is not
/// Nil.
pub proof fn law_first_item_constructs(cells: Seq<Cell>, k: int)
    requires
        0 <= k < cells.len(),
        !cells[k].spec_is_nil(),
        forall|j: int| 0 <= j < k ==> (#[trigger] cells[j]).spec_is_nil(),
    ensures
        first_data_type(cells) == Some(cells[k].spec_ty()),
    decreases cells.len(),
{
    if k == cells.len() - 1 {
        law_nil_items_construct_nothing(cells.drop_last());
    } else {
        law_first_item_constructs(cells.drop_last(), k);
    }
}

/// An array of Nil items has no constructing type.
pub proof fn law_nil_items_construct_nothing(cells: Seq<Cell>)
    requires
        forall|j: int| 0 <= j < cells.len() ==> (#[trigger] cells[j]).spec_is_nil(),
    ensures
        first_data_type(cells) is None,
    decreases cells.len(),
{
    if cells.len() > 0 {
        law_nil_items_construct_nothing(cells.drop_last());
    }
}

} // verus!
