use vstd::prelude::*;

use crate::cell::Cell;
use crate::error::{RuntimeError, RuntimeResult};
use crate::memory::MemorySlice;
use crate::origin::Origin;
use crate::ty::{TypeFamily, TypeMeta};

verus! {

/// A cell handed to a conversion, either owned or borrowed.
///
/// An owned cell can only be taken; a borrowed cell can also be accessed in
/// place.
pub enum Provider<'a> {
    Owned(Cell),
    Borrowed(&'a mut Cell),
}

impl<'a> Provider<'a> {
    /// The cell of the provider.
    pub open spec fn spec_cell(&self) -> Cell {
        match self {
            Provider::Owned(cell) => *cell,
            Provider::Borrowed(cell) => **cell,
        }
    }

    /// The cell of the provider.
    pub fn as_ref(&self) -> (r: &Cell)
        ensures
            *r == self.spec_cell(),
    {
        match self {
            Provider::Owned(cell) => cell,
            Provider::Borrowed(cell) => cell,
        }
    }

    /// A type matcher over the provider's cell.
    pub fn type_match(&'a self) -> (r: TypeMatch<'a>)
        ensures
            *r.spec_cell() == self.spec_cell(),
            r.expected() == Seq::<TypeMeta>::empty(),
    {
        match self {
            Provider::Owned(cell) => TypeMatch { cell, expected: Vec::new() },
            Provider::Borrowed(cell) => TypeMatch { cell, expected: Vec::new() },
        }
    }

    /// Takes the provider's cell; a borrowed cell is left Nil.
    pub fn to_owned(self) -> (r: Cell)
        ensures
            r == self.spec_cell(),
            match self {
                Provider::Borrowed(cell) => final(cell).spec_is_nil(),
                Provider::Owned(_) => true,
            },
    {
        match self {
            Provider::Owned(cell) => cell,
            Provider::Borrowed(cell) => {
                let taken = *cell;
                *cell = Cell::nil();
                taken
            },
        }
    }

    /// The borrowed cell; an owned cell cannot be accessed in place and
    /// gives [RuntimeError::DowncastStatic] at `origin`.
    pub fn to_borrowed(self, origin: &Origin) -> (r: RuntimeResult<&'a mut Cell>)
        ensures
            match self {
                Provider::Owned(_) => r == Err::<&'a mut Cell, RuntimeError>(
                    RuntimeError::DowncastStatic { access_origin: *origin },
                ),
                Provider::Borrowed(cell) => r matches Ok(c) && *c == *cell,
            },
    {
        match self {
            Provider::Owned(_) => Err(RuntimeError::DowncastStatic { access_origin: *origin }),
            Provider::Borrowed(cell) => Ok(cell),
        }
    }
}

/// A helper that matches a cell's type against the types a conversion
/// supports, remembering the types it tried.
pub struct TypeMatch<'a> {
    cell: &'a Cell,
    expected: Vec<TypeMeta>,
}

impl<'a> TypeMatch<'a> {
    pub closed spec fn spec_cell(&self) -> &'a Cell {
        self.cell
    }

    /// The types tried so far without success, in order.
    pub closed spec fn expected(&self) -> Seq<TypeMeta> {
        self.expected@
    }

    /// Whether the cell's data is of type `ty`; if not, `ty` is remembered
    /// as expected.
    pub fn is(&mut self, ty: &TypeMeta) -> (r: bool)
        ensures
            r == old(self).spec_cell().spec_is(*ty),
            final(self).spec_cell() == old(self).spec_cell(),
            final(self).expected() == (if r {
                old(self).expected()
            } else {
                old(self).expected().push(*ty)
            }),
    {
        if self.cell.is(ty) {
            return true;
        }
        self.expected.push(*ty);
        false
    }

    /// Whether the cell's type belongs to `family`; if not, all types of the
    /// family are remembered as expected.
    pub fn belongs_to(&mut self, family: &TypeFamily) -> (r: bool)
        ensures
            r == (old(self).spec_cell().spec_ty().family.id == family.info.id),
            final(self).spec_cell() == old(self).spec_cell(),
            final(self).expected() == (if r {
                old(self).expected()
            } else {
                old(self).expected() + family.types@
            }),
    {
        if self.cell.ty().family.id == family.info.id {
            return true;
        }
        let mut i: usize = 0;
        while i < family.types.len()
            invariant
                i <= family.types@.len(),
                self.cell == old(self).cell,
                self.expected@ == old(self).expected@ + family.types@.subrange(0, i as int),
            decreases family.types@.len() - i,
        {
            self.expected.push(family.types[i]);
            proof {
                assert(family.types@.subrange(0, i + 1) =~= family.types@.subrange(0, i as int).push(family.types@[i as int]));
            }
            i = i + 1;
        }
        proof {
            assert(family.types@.subrange(0, family.types@.len() as int) =~= family.types@);
        }
        false
    }

    /// The cell being matched.
    pub fn cell(&self) -> (r: &'a Cell)
        ensures
            r == self.spec_cell(),
    {
        self.cell
    }

    /// The error saying that the cell's type is none of the types tried.
    pub fn mismatch(self, origin: Origin) -> (r: RuntimeError)
        ensures
            r matches RuntimeError::TypeMismatch { access_origin, data_type, expected_types }
                && access_origin == origin && data_type == self.spec_cell().spec_ty()
                && expected_types@ == self.expected(),
    {
        RuntimeError::TypeMismatch { access_origin: origin, data_type: self.cell.ty(), expected_types: self.expected }
    }
}

impl Cell {
    /// A type matcher over this cell.
    pub fn type_match(&self) -> (r: TypeMatch)
        ensures
            *r.spec_cell() == *self,
            r.expected() == Seq::<TypeMeta>::empty(),
    {
        TypeMatch { cell: self, expected: Vec::new() }
    }
}

/// The result of handing Rust data over to the Script Engine: either an
/// allocation to point a new cell to, or a ready cell.
pub enum UpcastedChain {
    Slice(MemorySlice),
    Cell(Cell),
}

/// Data that can be handed over to the Script Engine.
pub trait Upcasted: Sized {
    /// Whether `r` is what handing this data over at `origin` gives.
    spec fn upcasts_to(self, origin: Origin, r: RuntimeResult<UpcastedChain>) -> bool;

    /// Hands the data over to the Script Engine.
    fn into_chain(self, origin: Origin) -> (r: RuntimeResult<UpcastedChain>)
        ensures
            self.upcasts_to(origin, r),
    ;
}

impl Upcasted for () {
    /// The unit value becomes the Nil cell.
    open spec fn upcasts_to(self, origin: Origin, r: RuntimeResult<UpcastedChain>) -> bool {
        r matches Ok(UpcastedChain::Cell(c)) && c.spec_is_nil()
    }

    /// The unit value becomes the Nil cell.
    fn into_chain(self, origin: Origin) -> (r: RuntimeResult<UpcastedChain>) {
        Ok(UpcastedChain::Cell(Cell::nil()))
    }
}

impl Upcasted for Cell {
    /// A cell is handed over as it is.
    open spec fn upcasts_to(self, origin: Origin, r: RuntimeResult<UpcastedChain>) -> bool {
        r == Ok::<UpcastedChain, RuntimeError>(UpcastedChain::Cell(self))
    }

    /// A cell is handed over as it is.
    fn into_chain(self, origin: Origin) -> (r: RuntimeResult<UpcastedChain>) {
        Ok(UpcastedChain::Cell(self))
    }
}

/// One of two kinds of data that can be handed over.
pub enum Either<L: Upcasted, R: Upcasted> {
    Left(L),
    Right(R),
}

impl<L: Upcasted, R: Upcasted> Upcasted for Either<L, R> {
    /// Whichever side is present is handed over.
    open spec fn upcasts_to(self, origin: Origin, r: RuntimeResult<UpcastedChain>) -> bool {
        match self {
            Either::Left(left) => left.upcasts_to(origin, r),
            Either::Right(right) => right.upcasts_to(origin, r),
        }
    }

    /// Hands over whichever side is present.
    fn into_chain(self, origin: Origin) -> (r: RuntimeResult<UpcastedChain>) {
        match self {
            Either::Left(left) => left.into_chain(origin),
            Either::Right(right) => right.into_chain(origin),
        }
    }
}

} // verus!
