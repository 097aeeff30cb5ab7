use vstd::prelude::*;

use crate::borrow::{law_grant_release_restores, BorrowTable, BORROW_LIMIT};
use crate::error::{OperatorKind, RuntimeError, RuntimeResult};
use crate::memory::{
    grant_index, lemma_same_borrows_refuse_alike, same_borrows, table_result, value_mut_refusal, value_ref_refusal,
    Grant, MemorySlice, SliceInfo, VOID_GRANT,
};
use crate::text::{utf8_error, utf8_error_text};
use crate::slicing::{end_position, resolve_bounds, start_position, RangeBound};
use crate::origin::Origin;
use crate::ty::{TypeMeta, NIL_TYPE, STR_TYPE, U8_TYPE};

verus! {

/// A pointer to an array of elements managed by the Script Engine, or the
/// Nil pointer that points to no data.
///
/// The cell knows the description of the allocation it points to: the type
/// and number of its elements, where the data was created, and how it may
/// be accessed.
#[derive(Clone, Copy, Debug)]
pub struct Cell(Option<SliceInfo>);

impl Cell {
    /// The allocation the cell points to, if any.
    pub closed spec fn target(&self) -> Option<SliceInfo> {
        self.0
    }

    pub open spec fn spec_is_nil(&self) -> bool {
        self.target() is None
    }

    /// The type the cell reports: `()` for Nil, `str` for a UTF-8 byte
    /// string, and the element type otherwise.
    pub open spec fn spec_ty(&self) -> TypeMeta {
        match self.target() {
            None => TypeMeta::spec_nil(),
            Some(info) => if info.unicode && info.ty.id == U8_TYPE {
                TypeMeta::spec_str()
            } else {
                info.ty
            },
        }
    }

    /// Whether the cell's data has the type `ty`: a UTF-8 byte string is
    /// both of type `u8` and `str`, Nil is of type `()`.
    pub open spec fn spec_is(&self, ty: TypeMeta) -> bool {
        match self.target() {
            None => ty.id == NIL_TYPE,
            Some(info) => info.ty.id == ty.id || (info.unicode && info.ty.id == U8_TYPE && ty.id
                == STR_TYPE),
        }
    }

    pub open spec fn spec_length(&self) -> usize {
        match self.target() {
            None => 0,
            Some(info) => info.length,
        }
    }

    pub open spec fn spec_origin(&self) -> Origin {
        match self.target() {
            None => Origin::Rust(TypeMeta::spec_nil().origin),
            Some(info) => info.origin,
        }
    }

    /// The cell that points to no data.
    pub fn nil() -> (c: Self)
        ensures
            c.spec_is_nil(),
    {
        Cell(None)
    }

    /// A cell that points to the allocation `slice`.
    pub fn from_slice(slice: &MemorySlice) -> (c: Self)
        ensures
            c.target() == Some(slice.info()),
    {
        Cell(Some(slice.describe()))
    }

    /// Whether this is the Nil cell.
    pub fn is_nil(&self) -> (r: bool)
        ensures
            r == self.spec_is_nil(),
    {
        self.0.is_none()
    }

    /// Where the cell's data was created; for Nil, where the unit type was
    /// declared.
    pub fn origin(&self) -> (r: Origin)
        ensures
            r == self.spec_origin(),
    {
        match &self.0 {
            None => Origin::Rust(TypeMeta::nil().origin),
            Some(info) => info.origin,
        }
    }

    /// The type of the cell's data.
    pub fn ty(&self) -> (r: TypeMeta)
        ensures
            r == self.spec_ty(),
    {
        match &self.0 {
            None => TypeMeta::nil(),
            Some(info) => {
                if info.unicode && info.ty.id == U8_TYPE {
                    TypeMeta::of_str()
                } else {
                    info.ty
                }
            },
        }
    }

    /// The element type of the cell's allocation; `()` for Nil. Unlike
    /// [Cell::spec_ty], a UTF-8 byte string reports `u8`.
    pub open spec fn spec_data_type(&self) -> TypeMeta {
        match self.target() {
            None => TypeMeta::spec_nil(),
            Some(info) => info.ty,
        }
    }

    /// The element type of the cell's allocation; `()` for Nil. Unlike
    /// [Cell::ty], a UTF-8 byte string reports `u8`.
    pub fn data_type(&self) -> (r: TypeMeta)
        ensures
            r == self.spec_data_type(),
    {
        match &self.0 {
            None => TypeMeta::nil(),
            Some(info) => info.ty,
        }
    }

    /// Whether the cell's data has the type `ty`.
    pub fn is(&self, ty: &TypeMeta) -> (r: bool)
        ensures
            r == self.spec_is(*ty),
    {
        match &self.0 {
            None => ty.id == NIL_TYPE,
            Some(info) => {
                if info.ty.id == ty.id {
                    return true;
                }
                info.unicode && info.ty.id == U8_TYPE && ty.id == STR_TYPE
            },
        }
    }

    /// The number of elements the cell points to; 0 for Nil.
    pub fn length(&self) -> (r: usize)
        ensures
            r == self.spec_length(),
    {
        match &self.0 {
            None => 0,
            Some(info) => info.length,
        }
    }
}

impl Cell {
    /// A cell that points to the elements between `start` and `end` of this
    /// cell's data, whose allocation is `slice`. The bounds are resolved
    /// against the cell's length first, so their errors come before all
    /// others; a Nil cell maps to Nil. Then [MemorySlice::map_slice] decides.
    pub fn map_slice(
        self,
        origin: Origin,
        start: RangeBound,
        end: RangeBound,
        slice: &mut MemorySlice,
    ) -> (r: RuntimeResult<Cell>)
        requires
            old(slice).wf(),
            self.target() matches Some(info) ==> old(slice).info() == info,
        ensures
            final(slice).wf(),
            final(slice).info() == old(slice).info(),
            self.spec_is_nil() ==> final(slice).table() == old(slice).table(),
            !self.spec_is_nil() ==> crate::memory::same_borrows(old(slice).table(), final(slice).table()),
            start_position(start) is None ==> (r matches Err(e) && crate::slicing::is_bound_overflow(
                e,
                origin,
                crate::slicing::bound_value(start),
            )),
            start_position(start) is Some && end_position(end, self.spec_length()) is None ==> (r matches Err(
                e,
            ) && crate::slicing::is_bound_overflow(e, origin, crate::slicing::bound_value(end))),
            start_position(start) matches Some(first) ==> (end_position(end, self.spec_length())
                matches Some(after) ==> {
                if first > after {
                    r == Err::<Cell, crate::error::RuntimeError>(
                        crate::error::RuntimeError::MalformedRange {
                            access_origin: origin,
                            start_bound: first,
                            end_bound: after,
                        },
                    )
                } else if self.spec_is_nil() {
                    r matches Ok(c) && c.spec_is_nil()
                } else {
                    match (
                        r,
                        MemorySlice::map_slice_result(
                            old(slice).info(),
                            old(slice).table(),
                            origin,
                            crate::range::IndexRange { start: first, end: after },
                        ),
                    ) {
                        (Ok(c), Ok(Some(info))) => c.target() == Some(info),
                        (Ok(c), Ok(None)) => c.spec_is_nil(),
                        (Err(e), Err(f)) => e == f,
                        _ => false,
                    }
                }
            }),
    {
        let range = match resolve_bounds(origin, start, end, self.length()) {
            Ok(range) => range,
            Err(e) => return Err(e),
        };
        if self.is_nil() {
            return Ok(Cell::nil());
        }
        match slice.map_slice(origin, range) {
            Ok(Some(sub)) => Ok(Cell::from_slice(&sub)),
            Ok(None) => Ok(Cell::nil()),
            Err(e) => Err(e),
        }
    }
}

/// How borrowing the data of a cell that points to `target` for reading
/// (or for writing, if `write`) as elements of type `expected` ends, with
/// `t0` the borrowing state of the allocation before the call and `t1`
/// after it.
pub open spec fn borrow_slice_post(
    target: Option<SliceInfo>,
    t0: BorrowTable,
    t1: BorrowTable,
    origin: Origin,
    expected: TypeMeta,
    write: bool,
    r: RuntimeResult<Grant>,
) -> bool {
    match target {
        None => r == Err::<Grant, RuntimeError>(RuntimeError::Nil { access_origin: origin }) && t1 == t0,
        Some(info) => if info.ty.id != expected.id {
            &&& r matches Err(RuntimeError::TypeMismatch { access_origin, data_type, expected_types })
                && access_origin == origin && data_type == info.ty && expected_types@ == seq![expected]
            &&& t1 == t0
        } else if !write && !info.readable {
            &&& r == Err::<Grant, RuntimeError>(
                RuntimeError::WriteOnly { access_origin: origin, data_origin: info.origin },
            )
            &&& t1 == t0
        } else if write && !(info.mutable && !info.unicode) {
            &&& r == Err::<Grant, RuntimeError>(
                RuntimeError::ReadOnly { access_origin: origin, data_origin: info.origin },
            )
            &&& t1 == t0
        } else if info.length == 0 || info.ty.size == 0 {
            &&& r == Ok::<Grant, RuntimeError>(
                if write { Grant::ValueMut(VOID_GRANT) } else { Grant::ValueRef(VOID_GRANT) },
            )
            &&& t1 == t0
        } else if write {
            &&& BorrowTable::grant_value_mut_post(t0, t1, origin, table_result(r))
            &&& r matches Ok(g) ==> g is ValueMut
        } else {
            &&& BorrowTable::grant_value_ref_post(t0, t1, origin, table_result(r))
            &&& r matches Ok(g) ==> g is ValueRef
        },
    }
}

/// Whether the data of a cell that points to `target`, whose allocation
/// has the borrowing state `t`, would be borrowed for reading (for writing
/// if `write`) as elements of type `expected` at `origin`.
pub open spec fn borrow_slice_granted(
    target: Option<SliceInfo>,
    t: BorrowTable,
    origin: Origin,
    expected: TypeMeta,
    write: bool,
) -> bool {
    match target {
        None => false,
        Some(info) => {
            &&& info.ty.id == expected.id
            &&& if write { info.mutable && !info.unicode } else { info.readable }
            &&& info.length == 0 || info.ty.size == 0 || (if write {
                value_mut_refusal(t, origin)
            } else {
                value_ref_refusal(t, origin)
            }) is None
        },
    }
}

impl Cell {
    /// Borrows the cell's data for reading, or for writing if `write`, as
    /// elements of type `expected`; `slice` is the data's allocation.
    fn borrow_slice(&self, origin: Origin, expected: TypeMeta, write: bool, slice: &mut MemorySlice) -> (r:
        RuntimeResult<Grant>)
        requires
            old(slice).wf(),
            self.target() matches Some(info) ==> old(slice).info() == info,
        ensures
            final(slice).wf(),
            final(slice).info() == old(slice).info(),
            borrow_slice_post(self.target(), old(slice).table(), final(slice).table(), origin, expected, write, r),
            r is Ok <==> borrow_slice_granted(self.target(), old(slice).table(), origin, expected, write),
            r matches Ok(g) ==> final(slice).holds(g),
    {
        if self.is_nil() {
            return Err(RuntimeError::Nil { access_origin: origin });
        }
        let data_type = slice.ty();
        if data_type.id != expected.id {
            let mut expected_types: Vec<TypeMeta> = Vec::new();
            expected_types.push(expected);
            return Err(RuntimeError::TypeMismatch { access_origin: origin, data_type, expected_types });
        }
        if !write && !slice.is_readable() {
            return Err(RuntimeError::WriteOnly { access_origin: origin, data_origin: slice.data_origin() });
        }
        if write && !slice.is_writeable() {
            return Err(RuntimeError::ReadOnly { access_origin: origin, data_origin: slice.data_origin() });
        }
        let ghost t0 = slice.table();
        proof {
            t0.value_refs().lemma_bounds();
            t0.place_refs().lemma_bounds();
            t0.place_muts().lemma_bounds();
        }
        let grant = if write {
            slice.grant_value_mut(origin)
        } else {
            slice.grant_value_ref(origin)
        };
        proof {
            if !write && !slice.spec_is_void() {
                if let Ok(g) = grant {
                    slice.table().value_refs().lemma_bounds();
                    let a = slice.table().value_refs().active();
                    assert(a[a.len() - 1] == grant_index(g));
                }
            }
        }
        grant
    }

    /// Borrows the cell's data, all of its elements, for reading as
    /// elements of type `expected`; `slice` is the data's allocation. The
    /// granted access is returned; the caller releases it when done.
    pub fn borrow_slice_ref(&self, origin: Origin, expected: TypeMeta, slice: &mut MemorySlice) -> (r:
        RuntimeResult<Grant>)
        requires
            old(slice).wf(),
            self.target() matches Some(info) ==> old(slice).info() == info,
        ensures
            final(slice).wf(),
            final(slice).info() == old(slice).info(),
            borrow_slice_post(self.target(), old(slice).table(), final(slice).table(), origin, expected, false, r),
            r matches Ok(g) ==> final(slice).holds(g),
    {
        self.borrow_slice(origin, expected, false, slice)
    }

    /// Borrows the cell's data, all of its elements, for writing as
    /// elements of type `expected`; `slice` is the data's allocation. The
    /// granted access is returned; the caller releases it when done.
    pub fn borrow_slice_mut(&self, origin: Origin, expected: TypeMeta, slice: &mut MemorySlice) -> (r:
        RuntimeResult<Grant>)
        requires
            old(slice).wf(),
            self.target() matches Some(info) ==> old(slice).info() == info,
        ensures
            final(slice).wf(),
            final(slice).info() == old(slice).info(),
            borrow_slice_post(self.target(), old(slice).table(), final(slice).table(), origin, expected, true, r),
            r matches Ok(g) ==> final(slice).holds(g),
    {
        self.borrow_slice(origin, expected, true, slice)
    }

    /// Borrows the cell's single element for reading as a value of type
    /// `expected`: the data must be an array of exactly one element (Nil has
    /// none), then it is borrowed as [Cell::borrow_slice_ref] borrows it.
    pub fn borrow_ref(&self, origin: Origin, expected: TypeMeta, slice: &mut MemorySlice) -> (r: RuntimeResult<Grant>)
        requires
            old(slice).wf(),
            self.target() matches Some(info) ==> old(slice).info() == info,
        ensures
            final(slice).wf(),
            final(slice).info() == old(slice).info(),
            self.spec_length() != 1 ==> r == Err::<Grant, RuntimeError>(
                RuntimeError::NonSingleton { access_origin: origin, actual: self.spec_length() },
            ) && final(slice).table() == old(slice).table(),
            self.spec_length() == 1 ==> borrow_slice_post(
                self.target(),
                old(slice).table(),
                final(slice).table(),
                origin,
                expected,
                false,
                r,
            ),
            r matches Ok(g) ==> final(slice).holds(g),
    {
        let length = self.length();
        if length != 1 {
            return Err(RuntimeError::NonSingleton { access_origin: origin, actual: length });
        }
        self.borrow_slice(origin, expected, false, slice)
    }

    /// Borrows the cell's single element for writing as a value of type
    /// `expected`: the data must be an array of exactly one element (Nil has
    /// none), then it is borrowed as [Cell::borrow_slice_mut] borrows it.
    pub fn borrow_mut(&self, origin: Origin, expected: TypeMeta, slice: &mut MemorySlice) -> (r: RuntimeResult<Grant>)
        requires
            old(slice).wf(),
            self.target() matches Some(info) ==> old(slice).info() == info,
        ensures
            final(slice).wf(),
            final(slice).info() == old(slice).info(),
            self.spec_length() != 1 ==> r == Err::<Grant, RuntimeError>(
                RuntimeError::NonSingleton { access_origin: origin, actual: self.spec_length() },
            ) && final(slice).table() == old(slice).table(),
            self.spec_length() == 1 ==> borrow_slice_post(
                self.target(),
                old(slice).table(),
                final(slice).table(),
                origin,
                expected,
                true,
                r,
            ),
            r matches Ok(g) ==> final(slice).holds(g),
    {
        let length = self.length();
        if length != 1 {
            return Err(RuntimeError::NonSingleton { access_origin: origin, actual: length });
        }
        self.borrow_slice(origin, expected, true, slice)
    }
}

/// Whether taking data out of a cell that points to an allocation
/// described by `info` is allowed for the caller's claims: data that is
/// moved out (`sole`) is owned by the Script Engine, and data that is
/// cloned can be read or written.
pub open spec fn takeable(info: SliceInfo, sole: bool) -> bool {
    &&& sole ==> info.owned
    &&& info.readable || (info.mutable && !info.unicode)
}

/// What taking the data of a cell that points to `target` out as values of
/// type `expected` reports at `origin`: one value if `single`
/// ([Cell::check_take]), all of them otherwise ([Cell::check_take_vec]).
///
/// Nil holds the unit value and nothing else. Data of another type is a
/// type mismatch. When the cell is the only reference to data that the
/// Script Engine owns (`sole`), the data is moved out as it is. Otherwise
/// it is cloned: the allocation, whose borrowing state is `t`, must grant
/// access to it (for reading, or for writing when it cannot be read), and
/// the type must implement the clone operator (`clones`). A single value
/// needs at least one element, unless the elements are zero-sized; of more
/// elements the first is taken.
pub open spec fn take_post(
    target: Option<SliceInfo>,
    t: BorrowTable,
    origin: Origin,
    expected: TypeMeta,
    single: bool,
    sole: bool,
    clones: bool,
    r: RuntimeResult<()>,
) -> bool {
    match target {
        None => if expected.id == NIL_TYPE {
            r is Ok
        } else {
            r matches Err(RuntimeError::TypeMismatch { access_origin, data_type, expected_types })
                && access_origin == origin && data_type == TypeMeta::spec_nil() && expected_types@ == seq![expected]
        },
        Some(info) => {
            let empty = single && info.length == 0 && info.ty.size > 0;
            let void = info.length == 0 || info.ty.size == 0;
            let refusal = if void {
                None
            } else if info.readable {
                value_ref_refusal(t, origin)
            } else {
                value_mut_refusal(t, origin)
            };
            if info.ty.id != expected.id {
                r matches Err(RuntimeError::TypeMismatch { access_origin, data_type, expected_types })
                    && access_origin == origin && data_type == info.ty && expected_types@ == seq![expected]
            } else if !sole && refusal is Some {
                r == Err::<(), RuntimeError>(refusal.unwrap())
            } else if !sole && !clones {
                r == Err::<(), RuntimeError>(
                    RuntimeError::UndefinedOperator {
                        access_origin: origin,
                        receiver_origin: Some(info.origin),
                        receiver_type: expected,
                        operator: OperatorKind::Clone,
                    },
                )
            } else if empty {
                r == Err::<(), RuntimeError>(RuntimeError::NonSingleton { access_origin: origin, actual: 0 })
            } else {
                r is Ok
            }
        },
    }
}

impl Cell {
    /// Checks that the cell's data, whose allocation is `slice`, can be
    /// taken out as values of type `expected` (see [take_post]); a cloning
    /// take borrows the data and gives the access back. Reading or moving
    /// the values is the host's.
    fn check_take_as(
        &self,
        origin: Origin,
        expected: TypeMeta,
        single: bool,
        sole: bool,
        clones: bool,
        slice: &mut MemorySlice,
    ) -> (r: RuntimeResult<()>)
        requires
            old(slice).wf(),
            self.target() matches Some(info) ==> old(slice).info() == info && takeable(info, sole),
        ensures
            final(slice).wf(),
            final(slice).info() == old(slice).info(),
            same_borrows(old(slice).table(), final(slice).table()),
            take_post(self.target(), old(slice).table(), origin, expected, single, sole, clones, r),
    {
        if self.is_nil() {
            if expected.id == NIL_TYPE {
                return Ok(());
            }
            let mut expected_types: Vec<TypeMeta> = Vec::new();
            expected_types.push(expected);
            return Err(RuntimeError::TypeMismatch { access_origin: origin, data_type: TypeMeta::nil(), expected_types });
        }
        let data_type = self.data_type();
        if data_type.id != expected.id {
            let mut expected_types: Vec<TypeMeta> = Vec::new();
            expected_types.push(expected);
            return Err(RuntimeError::TypeMismatch { access_origin: origin, data_type, expected_types });
        }
        let empty = single && self.length() == 0 && data_type.size > 0;
        if !sole {
            let write = !slice.is_readable();
            match slice.probe_value(origin, write) {
                Ok(()) => {},
                Err(e) => return Err(e),
            }
            if !clones {
                return Err(
                    RuntimeError::UndefinedOperator {
                        access_origin: origin,
                        receiver_origin: Some(slice.data_origin()),
                        receiver_type: expected,
                        operator: OperatorKind::Clone,
                    },
                );
            }
        }
        if empty {
            return Err(RuntimeError::NonSingleton { access_origin: origin, actual: 0 });
        }
        Ok(())
    }

    /// Checks that a single value of type `expected` can be taken out of
    /// the cell's data, whose allocation is `slice` (see [take_post]):
    /// `sole` tells whether the cell is the only reference to data that the
    /// Script Engine owns, and `clones` whether the type implements the
    /// clone operator. Of an array of more than one element, the host takes
    /// the first.
    pub fn check_take(&self, origin: Origin, expected: TypeMeta, sole: bool, clones: bool, slice: &mut MemorySlice) -> (r:
        RuntimeResult<()>)
        requires
            old(slice).wf(),
            self.target() matches Some(info) ==> old(slice).info() == info && takeable(info, sole),
        ensures
            final(slice).wf(),
            final(slice).info() == old(slice).info(),
            same_borrows(old(slice).table(), final(slice).table()),
            take_post(self.target(), old(slice).table(), origin, expected, true, sole, clones, r),
    {
        self.check_take_as(origin, expected, true, sole, clones, slice)
    }

    /// Checks that all the elements of the cell's data, whose allocation is
    /// `slice`, can be taken out as values of type `expected` (see
    /// [take_post]); an empty array is taken as it is.
    pub fn check_take_vec(
        &self,
        origin: Origin,
        expected: TypeMeta,
        sole: bool,
        clones: bool,
        slice: &mut MemorySlice,
    ) -> (r: RuntimeResult<()>)
        requires
            old(slice).wf(),
            self.target() matches Some(info) ==> old(slice).info() == info && takeable(info, sole),
        ensures
            final(slice).wf(),
            final(slice).info() == old(slice).info(),
            same_borrows(old(slice).table(), final(slice).table()),
            take_post(self.target(), old(slice).table(), origin, expected, false, sole, clones, r),
    {
        self.check_take_as(origin, expected, false, sole, clones, slice)
    }

    /// Hands an owned array of `length` elements of type `ty`, with room
    /// for `capacity` elements, over to the Script Engine: the cell that
    /// points to it and its allocation. An array of unit values is Nil and
    /// has no allocation.
    pub fn give_vec(origin: Origin, ty: TypeMeta, length: usize, capacity: usize) -> (r: RuntimeResult<
        (Cell, Option<MemorySlice>),
    >)
        requires
            length <= capacity,
        ensures
            ty.id == NIL_TYPE ==> (r matches Ok((c, s)) && c.spec_is_nil() && s is None),
            ty.id != NIL_TYPE ==> (r matches Ok((c, Some(s))) && s.wf() && s.table().is_free() && s.info() == (
            SliceInfo { unicode: false, origin, ty, readable: true, mutable: true, length, owned: true })
                && c.target() == Some(s.info())),
    {
        if ty.id == NIL_TYPE {
            return Ok((Cell::nil(), None));
        }
        let slice = MemorySlice::register_owned_slice(origin, ty, false, length, capacity);
        Ok((Cell::from_slice(&slice), Some(slice)))
    }
}

/// The error of decoding `bytes` as UTF-8 text at `origin`, when they are
/// not a UTF-8 encoding.
pub open spec fn is_utf8_refusal<T>(r: RuntimeResult<T>, origin: Origin, bytes: Seq<u8>) -> bool {
    r matches Err(RuntimeError::Utf8Decoding { access_origin, cause }) && access_origin == origin
        && cause@ == utf8_error_text(bytes)
}

/// Whether the data of a cell that points to `target`, whose bytes are
/// `bytes`, decodes as UTF-8 text: it is marked as such, or it is a valid
/// encoding.
pub open spec fn decodes(target: Option<SliceInfo>, bytes: Seq<u8>) -> bool {
    target.unwrap().unicode || vstd::utf8::valid_utf8(bytes)
}

/// How [Cell::borrow_str] ends for a cell that points to `target`, whose
/// data is `bytes`, with `t0` the borrowing state of the allocation before
/// the call and `t1` after it: `r` is the outcome and `held` the read
/// access that the cell keeps. The data is borrowed for reading as `u8`
/// elements; once the access is granted the cell keeps it, also when the
/// bytes then fail to decode.
pub open spec fn borrow_str_post(
    target: Option<SliceInfo>,
    t0: BorrowTable,
    t1: BorrowTable,
    origin: Origin,
    bytes: Seq<u8>,
    r: RuntimeResult<()>,
    held: Option<Grant>,
) -> bool {
    if !borrow_slice_granted(target, t0, origin, TypeMeta::spec_u8(), false) {
        &&& held is None
        &&& r matches Err(e) && borrow_slice_post(target, t0, t1, origin, TypeMeta::spec_u8(), false, Err(e))
    } else {
        &&& held matches Some(g) && borrow_slice_post(target, t0, t1, origin, TypeMeta::spec_u8(), false, Ok(g))
        &&& if decodes(target, bytes) {
            r is Ok
        } else {
            is_utf8_refusal(r, origin, bytes)
        }
    }
}

impl Cell {
    /// Borrows the cell's data, whose allocation is `slice` and whose bytes
    /// are `bytes`, for reading as UTF-8 text. The data must be of type
    /// `u8` and readable; bytes that are not marked as UTF-8 text are
    /// decoded. The granted read access is returned beside the outcome: the
    /// cell keeps it, also when the bytes do not decode, and the caller
    /// releases it when it is done with the cell.
    pub fn borrow_str(&self, origin: Origin, slice: &mut MemorySlice, bytes: &Vec<u8>) -> (r: (
        RuntimeResult<()>,
        Option<Grant>,
    ))
        requires
            old(slice).wf(),
            self.target() matches Some(info) ==> old(slice).info() == info,
            old(slice).info().ty.id == U8_TYPE ==> bytes@.len() == old(slice).info().length,
            old(slice).info().unicode ==> vstd::utf8::valid_utf8(bytes@),
        ensures
            final(slice).wf(),
            final(slice).info() == old(slice).info(),
            borrow_str_post(self.target(), old(slice).table(), final(slice).table(), origin, bytes@, r.0, r.1),
            r.1 matches Some(g) ==> final(slice).holds(g),
    {
        let grant = match self.borrow_slice(origin, TypeMeta::of_u8(), false, slice) {
            Ok(grant) => grant,
            Err(e) => return (Err(e), None),
        };
        if slice.is_unicode() {
            return (Ok(()), Some(grant));
        }
        match utf8_error(bytes) {
            None => (Ok(()), Some(grant)),
            Some(cause) => (Err(RuntimeError::Utf8Decoding { access_origin: origin, cause }), Some(grant)),
        }
    }
}

/// The description of the text that [Cell::map_str] projects `length`
/// bytes into at `origin`: a read-only UTF-8 byte string that the Script
/// Engine does not own.
pub open spec fn str_projection(origin: Origin, length: usize) -> SliceInfo {
    SliceInfo {
        unicode: true,
        origin,
        ty: TypeMeta::spec_u8(),
        readable: true,
        mutable: false,
        length,
        owned: false,
    }
}

/// How [Cell::map_str] ends for a cell that points to `target`, whose data
/// is `bytes`, with `t0` the borrowing state of the allocation before the
/// call and `t1` after it. The data is borrowed as [Cell::borrow_str]
/// borrows it; when the bytes do not decode, the consumed cell gives the
/// access back.
pub open spec fn map_str_post(
    target: Option<SliceInfo>,
    t0: BorrowTable,
    t1: BorrowTable,
    origin: Origin,
    bytes: Seq<u8>,
    r: RuntimeResult<(Cell, Grant)>,
) -> bool {
    if !borrow_slice_granted(target, t0, origin, TypeMeta::spec_u8(), false) {
        r matches Err(e) && borrow_slice_post(target, t0, t1, origin, TypeMeta::spec_u8(), false, Err(e))
    } else if !decodes(target, bytes) {
        is_utf8_refusal(r, origin, bytes) && same_borrows(t0, t1)
    } else {
        r matches Ok((c, g)) && borrow_slice_post(target, t0, t1, origin, TypeMeta::spec_u8(), false, Ok(g))
            && c.target() == Some(str_projection(origin, target.unwrap().length))
    }
}

impl Cell {
    /// Projects the cell's data into a cell that points to a valid UTF-8
    /// encoding of a string, with the same number of bytes. The data is
    /// borrowed for reading as [Cell::borrow_str] borrows it, with the same
    /// errors; the read access stays granted for as long as the projected
    /// cell is in use, and is returned beside it for the caller to release.
    pub fn map_str(self, origin: Origin, slice: &mut MemorySlice, bytes: &Vec<u8>) -> (r: RuntimeResult<(Cell, Grant)>)
        requires
            old(slice).wf(),
            self.target() matches Some(info) ==> old(slice).info() == info,
            old(slice).info().ty.id == U8_TYPE ==> bytes@.len() == old(slice).info().length,
            old(slice).info().unicode ==> vstd::utf8::valid_utf8(bytes@),
        ensures
            final(slice).wf(),
            final(slice).info() == old(slice).info(),
            map_str_post(self.target(), old(slice).table(), final(slice).table(), origin, bytes@, r),
            r matches Ok((c, g)) ==> {
                &&& c.spec_is(TypeMeta::spec_str())
                &&& c.spec_length() == self.spec_length()
                &&& final(slice).holds(g)
            },
    {
        let ghost t0 = slice.table();
        proof {
            t0.value_refs().lemma_bounds();
            t0.place_refs().lemma_bounds();
            t0.place_muts().lemma_bounds();
        }
        let (decoded, held) = self.borrow_str(origin, slice, bytes);
        let grant = match held {
            Some(grant) => grant,
            None => return Err(decoded.unwrap_err()),
        };
        let ghost t1 = slice.table();
        match decoded {
            Ok(()) => {},
            Err(e) => {
                proof {
                    if !slice.spec_is_void() {
                        t1.value_refs().lemma_bounds();
                        let a = t1.value_refs().active();
                        assert(a[a.len() - 1] == grant_index(grant));
                    }
                }
                slice.release_grant(grant);
                proof {
                    if !slice.spec_is_void() {
                        law_grant_release_restores(
                            t0.value_refs(),
                            t1.value_refs(),
                            slice.table().value_refs(),
                            origin,
                            grant_index(grant),
                            t1.value_refs().origin_of(grant_index(grant)),
                        );
                    }
                }
                return Err(e);
            },
        }
        let text = MemorySlice::register_raw_slice(origin, TypeMeta::of_u8(), true, true, false, bytes.len());
        Ok((Cell::from_slice(&text), grant))
    }
}

/// The description of the single element of type `to` that [Cell::map_ptr]
/// projects into at `origin`, readable if `reads` and writeable if
/// `writes`.
pub open spec fn ptr_projection(origin: Origin, to: TypeMeta, reads: bool, writes: bool) -> SliceInfo {
    SliceInfo { unicode: false, origin, ty: to, readable: reads, mutable: writes, length: 1, owned: false }
}

/// How [Cell::map_ptr] ends for a cell that points to `target`, whose
/// allocation is `slice` before the call.
pub open spec fn map_ptr_post(
    target: Option<SliceInfo>,
    slice: MemorySlice,
    origin: Origin,
    from: TypeMeta,
    to: TypeMeta,
    by_ref: bool,
    by_mut: bool,
    r: RuntimeResult<Cell>,
) -> bool {
    match target {
        None => r == Err::<Cell, RuntimeError>(RuntimeError::Nil { access_origin: origin }),
        Some(info) => if info.length != 1 {
            r == Err::<Cell, RuntimeError>(RuntimeError::NonSingleton { access_origin: origin, actual: info.length })
        } else if info.ty.id != from.id {
            r matches Err(RuntimeError::TypeMismatch { access_origin, data_type, expected_types })
                && access_origin == origin && data_type == info.ty && expected_types@ == seq![from]
        } else {
            let reads = by_ref && info.readable;
            let writes = by_mut && info.mutable && !info.unicode;
            let read_refusal = if reads { slice.place_refusal(origin, false) } else { None };
            let write_refusal = if writes { slice.place_refusal(origin, true) } else { None };
            match (read_refusal, write_refusal) {
                (Some(e), _) | (None, Some(e)) => r == Err::<Cell, RuntimeError>(e),
                (None, None) => if !reads && !writes {
                    r matches Ok(c) && c.spec_is_nil()
                } else {
                    r matches Ok(c) && c.target() == Some(ptr_projection(origin, to, reads, writes))
                },
            }
        },
    }
}

impl Cell {
    /// Projects the cell's single element of type `from` into an element of
    /// type `to` that another pointer reaches; `by_ref` and `by_mut` tell
    /// whether the projection is given for reading and for writing. The
    /// cell must point to exactly one element of type `from`. Reading is
    /// projected when it is given and the data is readable, writing when it
    /// is given and the data is writeable; each needs the allocation to
    /// grant access to the place of the data at that moment. With neither,
    /// the projection is Nil. The host applies the pointer projections.
    pub fn map_ptr(
        self,
        origin: Origin,
        from: TypeMeta,
        to: TypeMeta,
        by_ref: bool,
        by_mut: bool,
        slice: &mut MemorySlice,
    ) -> (r: RuntimeResult<Cell>)
        requires
            old(slice).wf(),
            self.target() matches Some(info) ==> old(slice).info() == info,
        ensures
            final(slice).wf(),
            final(slice).info() == old(slice).info(),
            same_borrows(old(slice).table(), final(slice).table()),
            map_ptr_post(self.target(), *old(slice), origin, from, to, by_ref, by_mut, r),
    {
        if self.is_nil() {
            return Err(RuntimeError::Nil { access_origin: origin });
        }
        let length = self.length();
        if length != 1 {
            return Err(RuntimeError::NonSingleton { access_origin: origin, actual: length });
        }
        let data_type = self.data_type();
        if data_type.id != from.id {
            let mut expected_types: Vec<TypeMeta> = Vec::new();
            expected_types.push(from);
            return Err(RuntimeError::TypeMismatch { access_origin: origin, data_type, expected_types });
        }
        let reads = by_ref && slice.is_readable();
        let writes = by_mut && slice.is_writeable();
        let ghost t0 = slice.table();
        if reads {
            match slice.probe_place(origin, false) {
                Ok(()) => {},
                Err(e) => return Err(e),
            }
        }
        proof {
            lemma_same_borrows_refuse_alike(t0, slice.table(), origin);
        }
        if writes {
            match slice.probe_place(origin, true) {
                Ok(()) => {},
                Err(e) => return Err(e),
            }
        }
        if !reads && !writes {
            return Ok(Cell::nil());
        }
        let target = MemorySlice::register_raw_slice(origin, to, false, reads, writes, 1);
        Ok(Cell::from_slice(&target))
    }
}

impl Default for Cell {
    fn default() -> (c: Self)
        ensures
            c.spec_is_nil(),
    {
        Cell::nil()
    }
}

} // verus!

verus! {

/// A successful pointer projection of a cell's single element can be read
/// exactly when reading was asked for (`by_ref`) and the data can be read,
/// and written exactly when writing was asked for (`by_mut`) and the data
/// can be written; with neither, the projection is Nil. The projection is
/// one element of type `to`, created at `origin`, owned by no one.
pub proof fn law_map_ptr_access(
    info: SliceInfo,
    slice: MemorySlice,
    origin: Origin,
    from: TypeMeta,
    to: TypeMeta,
    by_ref: bool,
    by_mut: bool,
    c: Cell,
)
    requires
        map_ptr_post(Some(info), slice, origin, from, to, by_ref, by_mut, Ok(c)),
    ensures
        info.length == 1,
        info.ty.id == from.id,
        c.spec_is_nil() <==> !(by_ref && info.readable) && !(by_mut && info.mutable && !info.unicode),
        !c.spec_is_nil() ==> {
            let p = c.target().unwrap();
            &&& p.readable == (by_ref && info.readable)
            &&& p.mutable == (by_mut && info.mutable && !info.unicode)
            &&& p.ty == to
            &&& p.length == 1
            &&& p.origin == origin
            &&& !p.owned
            &&& !p.unicode
        },
{
}

/// A successful projection into UTF-8 text points to read-only text, owned
/// by no one, of as many bytes as the data, created at `origin`, and the
/// read access it holds was granted at `origin` on data of type `u8`.
pub proof fn law_map_str_text(
    info: SliceInfo,
    t0: BorrowTable,
    t1: BorrowTable,
    origin: Origin,
    bytes: Seq<u8>,
    c: Cell,
    g: Grant,
)
    requires
        map_str_post(Some(info), t0, t1, origin, bytes, Ok((c, g))),
    ensures
        info.ty.id == U8_TYPE,
        info.readable,
        info.unicode || vstd::utf8::valid_utf8(bytes),
        g is ValueRef,
        c.target() matches Some(p) && p.unicode && p.readable && !p.mutable && !p.owned && p.length == info.length
            && p.origin == origin && p.ty.id == U8_TYPE,
        c.spec_is(TypeMeta::spec_str()),
{
}

} // verus!

verus! {

/// Taking data of the expected type: from the only reference to owned data
/// it is moved out and succeeds unless one value is asked of an empty array
/// of sized elements (an array of more elements gives its first); shared
/// data is cloned, which is refused while the data is being written and
/// needs the clone operator.
pub proof fn law_take_outcomes(
    info: SliceInfo,
    t: BorrowTable,
    origin: Origin,
    expected: TypeMeta,
    single: bool,
    sole: bool,
    clones: bool,
    r: RuntimeResult<()>,
)
    requires
        t.wf(),
        info.ty.id == expected.id,
        take_post(Some(info), t, origin, expected, single, sole, clones, r),
    ensures
        sole ==> (r is Ok <==> !(single && info.length == 0 && info.ty.size > 0)),
        sole && info.length >= 1 ==> r is Ok,
        sole && single && info.length == 0 && info.ty.size > 0 ==> r == Err::<(), RuntimeError>(
            RuntimeError::NonSingleton { access_origin: origin, actual: 0 },
        ),
        !sole && info.length > 0 && info.ty.size > 0 && info.readable ==> (t.value_mut() matches Some(w) ==> r == Err::<
            (),
            RuntimeError,
        >(RuntimeError::WriteToRead { access_origin: origin, borrow_origin: w })),
        !sole && !clones && info.readable && t.value_mut() is None && t.place_muts().active().len() == 0
            && t.value_refs().active().len() < BORROW_LIMIT ==> r == Err::<(), RuntimeError>(
            RuntimeError::UndefinedOperator {
                access_origin: origin,
                receiver_origin: Some(info.origin),
                receiver_type: expected,
                operator: OperatorKind::Clone,
            },
        ),
        !sole && clones && info.readable && info.length >= 1 && t.value_mut() is None && t.place_muts().active().len()
            == 0 && t.value_refs().active().len() < BORROW_LIMIT ==> r is Ok,
{
    t.value_refs().lemma_bounds();
    t.place_muts().lemma_bounds();
}

/// Borrowing a cell's data: Nil and data of another type are refused, data
/// that cannot be read is refused for reading (write-only) and data that
/// cannot be written for writing (read-only); readable data that holds
/// bytes cannot be read while it is being written, and writeable data that
/// holds bytes cannot be written while it is being read. A granted read is
/// a value read and a granted write a value write.
pub proof fn law_borrow_slice_checks(
    target: Option<SliceInfo>,
    t0: BorrowTable,
    t1: BorrowTable,
    origin: Origin,
    expected: TypeMeta,
    write: bool,
    r: RuntimeResult<Grant>,
)
    requires
        t0.wf(),
        borrow_slice_post(target, t0, t1, origin, expected, write, r),
    ensures
        target is None ==> r == Err::<Grant, RuntimeError>(RuntimeError::Nil { access_origin: origin }),
        target matches Some(info) ==> {
            &&& info.ty.id != expected.id ==> r is Err && t1 == t0
            &&& info.ty.id == expected.id && !write && !info.readable ==> r == Err::<Grant, RuntimeError>(
                RuntimeError::WriteOnly { access_origin: origin, data_origin: info.origin },
            )
            &&& info.ty.id == expected.id && write && !(info.mutable && !info.unicode) ==> r == Err::<
                Grant,
                RuntimeError,
            >(RuntimeError::ReadOnly { access_origin: origin, data_origin: info.origin })
            &&& info.ty.id == expected.id && !write && info.readable && info.length > 0 && info.ty.size > 0 ==> (
            t0.value_mut() matches Some(w) ==> r == Err::<Grant, RuntimeError>(
                RuntimeError::WriteToRead { access_origin: origin, borrow_origin: w },
            ))
            &&& info.ty.id == expected.id && write && info.mutable && !info.unicode && info.length > 0
                && info.ty.size > 0 && t0.value_refs().active().len() > 0 ==> (r matches Err(
                RuntimeError::ReadToWrite { access_origin, .. },
            ) && access_origin == origin)
        },
        r matches Ok(g) ==> (write ==> g is ValueMut) && (!write ==> g is ValueRef),
{
    t0.value_refs().lemma_bounds();
}

} // verus!
