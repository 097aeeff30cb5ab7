use vstd::prelude::*;

use crate::assembly::Assembly;
use crate::cell::Cell;
use crate::error::{RuntimeError, RuntimeResult};
use crate::invoke::Arg;
use crate::origin::Origin;
use crate::stack::Stack;

verus! {

/// The closures `closures` after setting the context to `context`: only a
/// Nil context is replaced.
pub open spec fn with_context(closures: Seq<Cell>, context: Cell) -> Seq<Cell> {
    if closures.len() > 0 && closures[0].spec_is_nil() {
        closures.update(0, context)
    } else {
        closures
    }
}

/// The context of a function can be set only once: once it is set to data,
/// setting it again changes nothing.
pub proof fn law_context_set_once(closures: Seq<Cell>, first: Cell, second: Cell)
    requires
        !first.spec_is_nil(),
    ensures
        with_context(with_context(closures, first), second) == with_context(closures, first),
{
}

/// A compiled script function: its assembly, the cells of its closures (the
/// first one is the function's context, the `self` of a method), and its
/// subroutines.
pub struct ScriptFn {
    pub assembly: Assembly,
    pub closures: Vec<Cell>,
    pub subroutines: Vec<ScriptFn>,
}

impl ScriptFn {
    /// The function's context: its first closure, or Nil when it has none.
    pub open spec fn spec_context(&self) -> Option<Cell> {
        if self.closures@.len() > 0 {
            Some(self.closures@[0])
        } else {
            None
        }
    }

    /// Sets the function's context, if the function has a context closure.
    /// The context can be set only once: a function whose context is no
    /// longer Nil keeps it.
    pub fn set_context(&mut self, context: Cell)
        ensures
            final(self).assembly == old(self).assembly,
            final(self).subroutines@ == old(self).subroutines@,
            final(self).closures@ == with_context(old(self).closures@, context),
    {
        if self.closures.len() > 0 && self.closures[0].is_nil() {
            self.closures.set(0, context);
        }
    }

    /// The function's context; Nil when the function has no context
    /// closure.
    pub fn get_context(&self) -> (r: Cell)
        ensures
            match self.spec_context() {
                Some(context) => r == context,
                None => r.spec_is_nil(),
            },
    {
        if self.closures.len() > 0 {
            self.closures[0]
        } else {
            Cell::nil()
        }
    }

    /// Binds the function to the context `context`: a function whose context
    /// is still Nil takes it; a Nil context binds nothing, and a bound
    /// function keeps its context.
    pub fn bind(&mut self, context: Cell)
        ensures
            final(self).assembly == old(self).assembly,
            final(self).subroutines@ == old(self).subroutines@,
            final(self).closures@ == if !context.spec_is_nil() && old(self).closures@.len() > 0
                && old(self).closures@[0].spec_is_nil() {
                old(self).closures@.update(0, context)
            } else {
                old(self).closures@
            },
    {
        if context.is_nil() {
            return;
        }
        if self.closures.len() > 0 && self.closures[0].is_nil() {
            self.closures.set(0, context);
        }
    }

    /// Whether the function can run without arguments: a function with
    /// parameters fails with an arity error that has no invocation origin.
    pub fn check_run(&self) -> (r: RuntimeResult<()>)
        ensures
            self.assembly.arity == 0 ==> r is Ok,
            self.assembly.arity > 0 ==> r == Err::<(), RuntimeError>(
                RuntimeError::ArityMismatch {
                    invocation_origin: Origin::spec_nil(),
                    function_origin: self.assembly.spec_decl_origin(),
                    parameters: self.assembly.arity,
                    arguments: 0,
                },
            ),
    {
        let parameters = self.assembly.arity;
        if parameters > 0 {
            return Err(
                RuntimeError::ArityMismatch {
                    invocation_origin: Origin::nil(),
                    function_origin: self.assembly.decl_origin(),
                    parameters,
                    arguments: 0,
                },
            );
        }
        Ok(())
    }

    /// Hands the function its `arguments` as invoked at `origin`: when their
    /// number matches the function's parameters, their cells are moved onto
    /// the stack in order, leaving Nil behind; otherwise the arity error is
    /// returned and nothing changes.
    pub fn push_arguments(&self, origin: Origin, arguments: &mut [Arg], stack: &mut Stack) -> (r:
        RuntimeResult<()>)
        ensures
            final(stack).max_depth() == old(stack).max_depth(),
            final(arguments)@.len() == old(arguments)@.len(),
            old(arguments)@.len() != self.assembly.arity ==> {
                &&& r == Err::<(), RuntimeError>(
                    RuntimeError::ArityMismatch {
                        invocation_origin: origin,
                        function_origin: self.assembly.spec_decl_origin(),
                        parameters: self.assembly.arity,
                        arguments: old(arguments)@.len() as usize,
                    },
                )
                &&& final(arguments)@ == old(arguments)@
                &&& final(stack).cells() == old(stack).cells()
            },
            old(arguments)@.len() == self.assembly.arity ==> {
                &&& r is Ok
                &&& final(stack).cells() == old(stack).cells() + old(arguments)@.map_values(
                    |a: Arg| a.data,
                )
                &&& forall|i: int|
                    0 <= i < old(arguments)@.len() ==> (#[trigger] final(arguments)@[i]).data.spec_is_nil()
                        && final(arguments)@[i].origin == old(arguments)@[i].origin
            },
    {
        let count = arguments.len();
        let parameters = self.assembly.arity;
        if count != parameters {
            return Err(
                RuntimeError::ArityMismatch {
                    invocation_origin: origin,
                    function_origin: self.assembly.decl_origin(),
                    parameters,
                    arguments: count,
                },
            );
        }
        let ghost given = arguments@;
        let ghost below = stack.cells();
        let mut i: usize = 0;
        while i < count
            invariant
                count == arguments@.len(),
                given.len() == count,
                i <= count,
                stack.max_depth() == old(stack).max_depth(),
                below == old(stack).cells(),
                stack.cells() == below + given.subrange(0, i as int).map_values(|a: Arg| a.data),
                forall|k: int| 0 <= k < i ==> (#[trigger] arguments@[k]).data.spec_is_nil()
                    && arguments@[k].origin == given[k].origin,
                forall|k: int| i <= k < count ==> #[trigger] arguments@[k] == given[k],
            decreases count - i,
        {
            let cell = arguments[i].data;
            arguments[i].data = Cell::nil();
            stack.push(cell);
            proof {
                assert(given.subrange(0, i + 1).map_values(|a: Arg| a.data) =~= given.subrange(
                    0,
                    i as int,
                ).map_values(|a: Arg| a.data).push(given[i as int].data));
            }
            i = i + 1;
        }
        proof {
            assert(given.subrange(0, count as int) =~= given);
        }
        Ok(())
    }
}

} // verus!
