use vstd::prelude::*;

use crate::cell::Cell;
use crate::coercion::Provider;
use crate::origin::Origin;

verus! {

/// An argument of a function or an operator: the data and where it comes
/// from in the source code.
#[derive(Clone, Copy, Debug)]
pub struct Arg {
    pub origin: Origin,
    pub data: Cell,
}

impl Default for Arg {
    /// A Nil argument without an origin.
    fn default() -> (a: Self)
        ensures
            a.origin == Origin::spec_nil(),
            a.data.spec_is_nil(),
    {
        Arg { origin: Origin::nil(), data: Cell::nil() }
    }
}

impl Arg {
    /// An argument with the given `origin` and `data`.
    pub fn new(origin: Origin, data: Cell) -> (a: Self)
        ensures
            a.origin == origin,
            a.data == data,
    {
        Arg { origin, data }
    }

    /// A provider that borrows the argument's data.
    pub fn provider(&mut self) -> (p: Provider)
        ensures
            p matches Provider::Borrowed(cell) && *cell == old(self).data && final(self).data == *final(cell),
            final(self).origin == old(self).origin,
    {
        Provider::Borrowed(&mut self.data)
    }

    /// A provider that owns the argument's data.
    pub fn into_provider<'a>(self) -> (p: Provider<'a>)
        ensures
            p == Provider::<'a>::Owned(self.data),
    {
        Provider::Owned(self.data)
    }

    /// The argument's origin and data.
    pub fn split(self) -> (r: (Origin, Cell))
        ensures
            r == (self.origin, self.data),
    {
        (self.origin, self.data)
    }

    /// Takes the argument at `index` out of `arguments`, leaving a Nil
    /// argument without an origin in its place.
    pub fn take(arguments: &mut [Arg], index: usize) -> (r: Arg)
        requires
            index < old(arguments)@.len(),
        ensures
            r == old(arguments)@[index as int],
            final(arguments)@.len() == old(arguments)@.len(),
            final(arguments)@[index as int].origin == Origin::spec_nil(),
            final(arguments)@[index as int].data.spec_is_nil(),
            forall|i: int|
                0 <= i < old(arguments)@.len() && i != index ==> #[trigger] final(arguments)@[i]
                    == old(arguments)@[i],
    {
        let taken = arguments[index];
        arguments[index] = Arg::default();
        taken
    }

    /// Takes the argument at `index` out of `arguments` when the caller has
    /// already made sure that the index is within bounds; the same as
    /// [Arg::take].
    pub fn take_unchecked(arguments: &mut [Arg], index: usize) -> (r: Arg)
        requires
            index < old(arguments)@.len(),
        ensures
            r == old(arguments)@[index as int],
            final(arguments)@.len() == old(arguments)@.len(),
            final(arguments)@[index as int].origin == Origin::spec_nil(),
            final(arguments)@[index as int].data.spec_is_nil(),
            forall|i: int|
                0 <= i < old(arguments)@.len() && i != index ==> #[trigger] final(arguments)@[i]
                    == old(arguments)@[i],
    {
        Arg::take(arguments, index)
    }
}

} // verus!
