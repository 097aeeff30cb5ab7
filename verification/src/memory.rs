use vstd::prelude::*;

use crate::borrow::{law_grant_release_restores, BorrowStack, BorrowTable, BORROW_LIMIT};
use crate::error::{RuntimeError, RuntimeResult};
use crate::origin::Origin;
use crate::range::IndexRange;
use crate::ty::{TypeMeta, U8_TYPE};

verus! {

/// The fixed description of a memory allocation managed by the Script
/// Engine: what it holds and how it may be accessed.
#[derive(Clone, Copy, Debug)]
pub struct SliceInfo {
    /// The bytes of the allocation are a valid UTF-8 encoding.
    pub unicode: bool,
    /// Where the data was created.
    pub origin: Origin,
    /// The type of the elements.
    pub ty: TypeMeta,
    /// The data can be read.
    pub readable: bool,
    /// The data was handed over with mutable access.
    pub mutable: bool,
    /// The number of elements.
    pub length: usize,
    /// The Script Engine owns the data.
    pub owned: bool,
}

/// A grant of access to a [MemorySlice], by its kind and index.
#[derive(Clone, Copy, PartialEq, Eq, Structural, Debug)]
pub enum Grant {
    ValueRef(u32),
    ValueMut(u32),
    PlaceRef(u32),
    PlaceMut(u32),
}

/// The index of every grant given out by an allocation without borrowing
/// state (a void allocation).
pub const VOID_GRANT: u32 = 0xFFFF_FFFF;

/// An array of elements of one type, as managed by the Script Engine,
/// together with its borrowing state.
pub struct MemorySlice {
    info: SliceInfo,
    capacity: usize,
    table: BorrowTable,
}

impl MemorySlice {
    /// The description of the allocation.
    pub closed spec fn info(&self) -> SliceInfo {
        self.info
    }

    /// The borrowing state of the allocation.
    pub closed spec fn table(&self) -> BorrowTable {
        self.table
    }

    pub open spec fn wf(&self) -> bool {
        &&& self.table().wf()
        &&& self.info().unicode ==> self.info().ty.id == U8_TYPE
    }

    /// The allocation holds no bytes: it is empty or its elements are
    /// zero-sized. Borrowing such an allocation is not tracked.
    pub open spec fn spec_is_void(&self) -> bool {
        self.info().length == 0 || self.info().ty.size == 0
    }

    /// Whether `grant` may have been given out by this allocation and not
    /// released yet.
    pub open spec fn holds(&self, grant: Grant) -> bool {
        if self.spec_is_void() {
            true
        } else {
            match grant {
                Grant::ValueRef(i) => self.table().value_refs().is_active(i),
                Grant::ValueMut(_) => self.table().value_mut() is Some,
                Grant::PlaceRef(i) => self.table().place_refs().is_active(i),
                Grant::PlaceMut(i) => self.table().place_muts().is_active(i),
            }
        }
    }

    /// The origin under which `grant` was given out.
    pub open spec fn spec_grant_origin(&self, grant: Grant) -> Origin {
        if self.spec_is_void() {
            self.info().origin
        } else {
            match grant {
                Grant::ValueRef(i) => self.table().value_refs().origin_of(i),
                Grant::ValueMut(_) => self.table().value_mut().unwrap(),
                Grant::PlaceRef(i) => self.table().place_refs().origin_of(i),
                Grant::PlaceMut(i) => self.table().place_muts().origin_of(i),
            }
        }
    }

    /// Takes ownership of an array of `length` elements of type `ty` (with
    /// room for `capacity` elements); `unicode` marks a UTF-8 byte string.
    pub fn register_owned_slice(
        origin: Origin,
        ty: TypeMeta,
        unicode: bool,
        length: usize,
        capacity: usize,
    ) -> (s: Self)
        requires
            unicode ==> ty.id == U8_TYPE,
            length <= capacity,
        ensures
            s.wf(),
            s.info() == (SliceInfo {
                unicode,
                origin,
                ty,
                readable: true,
                mutable: true,
                length,
                owned: true,
            }),
            s.table().is_free(),
    {
        MemorySlice {
            info: SliceInfo { unicode, origin, ty, readable: true, mutable: true, length, owned: true },
            capacity,
            table: BorrowTable::new(),
        }
    }

    /// Describes an array of `length` elements of type `ty` that the Script
    /// Engine does not own, with read access if `readable` and write access
    /// if `mutable`; `unicode` marks a UTF-8 byte string, which is never
    /// writeable. This always describes a new allocation; registering raw
    /// data through [crate::registry::MemoryRegistry::register_raw_slice]
    /// shares the owned allocation that already holds it, if there is one.
    pub fn register_raw_slice(
        origin: Origin,
        ty: TypeMeta,
        unicode: bool,
        readable: bool,
        mutable: bool,
        length: usize,
    ) -> (s: Self)
        requires
            unicode ==> ty.id == U8_TYPE && !mutable,
        ensures
            s.wf(),
            s.info() == (SliceInfo { unicode, origin, ty, readable, mutable, length, owned: false }),
            s.table().is_free(),
    {
        MemorySlice {
            info: SliceInfo { unicode, origin, ty, readable, mutable, length, owned: false },
            capacity: length,
            table: BorrowTable::new(),
        }
    }

    /// A copy of the description of the allocation.
    pub fn describe(&self) -> (r: SliceInfo)
        ensures
            r == self.info(),
    {
        self.info
    }

    /// Where the data was created.
    pub fn data_origin(&self) -> (r: Origin)
        ensures
            r == self.info().origin,
    {
        self.info.origin
    }

    /// The type of the elements.
    pub fn ty(&self) -> (r: TypeMeta)
        ensures
            r == self.info().ty,
    {
        self.info.ty
    }

    /// The number of elements.
    pub fn length(&self) -> (r: usize)
        ensures
            r == self.info().length,
    {
        self.info.length
    }

    /// Whether the Script Engine owns the data.
    pub fn is_owned(&self) -> (r: bool)
        ensures
            r == self.info().owned,
    {
        self.info.owned
    }

    /// Whether the bytes are a valid UTF-8 encoding.
    pub fn is_unicode(&self) -> (r: bool)
        ensures
            r == self.info().unicode,
    {
        self.info.unicode
    }

    /// Whether the data can be read.
    pub fn is_readable(&self) -> (r: bool)
        ensures
            r == self.info().readable,
    {
        self.info.readable
    }

    /// Whether the data can be written: it was handed over mutably and is
    /// not a UTF-8 string.
    pub fn is_writeable(&self) -> (r: bool)
        ensures
            r == (self.info().mutable && !self.info().unicode),
    {
        self.info.mutable && !self.info.unicode
    }

    /// Whether the allocation holds no bytes.
    pub fn is_void(&self) -> (r: bool)
        ensures
            r == self.spec_is_void(),
    {
        self.info.length == 0 || self.info.ty.size == 0
    }

    /// Grants read access to the data. Access to a void allocation is
    /// always granted and not tracked.
    pub fn grant_value_ref(&mut self, origin: Origin) -> (r: RuntimeResult<Grant>)
        requires
            old(self).wf(),
        ensures
            final(self).wf(),
            final(self).info() == old(self).info(),
            old(self).spec_is_void() ==> r == Ok::<Grant, RuntimeError>(Grant::ValueRef(VOID_GRANT))
                && final(self).table() == old(self).table(),
            !old(self).spec_is_void() ==> BorrowTable::grant_value_ref_post(
                old(self).table(),
                final(self).table(),
                origin,
                table_result(r),
            ),
            r matches Ok(g) ==> g is ValueRef,
    {
        if self.is_void() {
            return Ok(Grant::ValueRef(VOID_GRANT));
        }
        match self.table.grant_value_ref(origin) {
            Ok(i) => Ok(Grant::ValueRef(i)),
            Err(e) => Err(e),
        }
    }

    /// Grants exclusive write access to the data. Access to a void allocation is
    /// always granted and not tracked.
    pub fn grant_value_mut(&mut self, origin: Origin) -> (r: RuntimeResult<Grant>)
        requires
            old(self).wf(),
        ensures
            final(self).wf(),
            final(self).info() == old(self).info(),
            old(self).spec_is_void() ==> r == Ok::<Grant, RuntimeError>(Grant::ValueMut(VOID_GRANT))
                && final(self).table() == old(self).table(),
            !old(self).spec_is_void() ==> BorrowTable::grant_value_mut_post(
                old(self).table(),
                final(self).table(),
                origin,
                table_result(r),
            ),
            r matches Ok(g) ==> g is ValueMut,
    {
        if self.is_void() {
            return Ok(Grant::ValueMut(VOID_GRANT));
        }
        match self.table.grant_value_mut(origin) {
            Ok(i) => Ok(Grant::ValueMut(i)),
            Err(e) => Err(e),
        }
    }

    /// Grants read access to the place of the data. Access to a void allocation is
    /// always granted and not tracked.
    pub fn grant_place_ref(&mut self, origin: Origin) -> (r: RuntimeResult<Grant>)
        requires
            old(self).wf(),
        ensures
            final(self).wf(),
            final(self).info() == old(self).info(),
            old(self).spec_is_void() ==> r == Ok::<Grant, RuntimeError>(Grant::PlaceRef(VOID_GRANT))
                && final(self).table() == old(self).table(),
            !old(self).spec_is_void() ==> BorrowTable::grant_place_ref_post(
                old(self).table(),
                final(self).table(),
                origin,
                table_result(r),
            ),
            r matches Ok(g) ==> g is PlaceRef,
    {
        if self.is_void() {
            return Ok(Grant::PlaceRef(VOID_GRANT));
        }
        match self.table.grant_place_ref(origin) {
            Ok(i) => Ok(Grant::PlaceRef(i)),
            Err(e) => Err(e),
        }
    }

    /// Grants write access to the place of the data. Access to a void allocation is
    /// always granted and not tracked.
    pub fn grant_place_mut(&mut self, origin: Origin) -> (r: RuntimeResult<Grant>)
        requires
            old(self).wf(),
        ensures
            final(self).wf(),
            final(self).info() == old(self).info(),
            old(self).spec_is_void() ==> r == Ok::<Grant, RuntimeError>(Grant::PlaceMut(VOID_GRANT))
                && final(self).table() == old(self).table(),
            !old(self).spec_is_void() ==> BorrowTable::grant_place_mut_post(
                old(self).table(),
                final(self).table(),
                origin,
                table_result(r),
            ),
            r matches Ok(g) ==> g is PlaceMut,
    {
        if self.is_void() {
            return Ok(Grant::PlaceMut(VOID_GRANT));
        }
        match self.table.grant_place_mut(origin) {
            Ok(i) => Ok(Grant::PlaceMut(i)),
            Err(e) => Err(e),
        }
    }

    /// A description of the elements `start_bound..end_bound` of this
    /// allocation, which the Script Engine does not own. The subslice is
    /// never marked as a UTF-8 string and is writeable only if this
    /// allocation is.
    pub fn subslice(&self, origin: Origin, start_bound: usize, end_bound: usize) -> (r: RuntimeResult<MemorySlice>)
        requires
            self.wf(),
            start_bound <= end_bound,
            self.info().ty.size > 0 ==> end_bound <= self.info().length,
        ensures
            r matches Ok(s) && s.wf() && s.table().is_free() && s.info() == (SliceInfo {
                unicode: false,
                origin,
                ty: self.info().ty,
                readable: self.info().readable,
                mutable: self.info().mutable && !self.info().unicode,
                length: (end_bound - start_bound) as usize,
                owned: false,
            }),
    {
        let mutable = self.info.mutable && !self.info.unicode;
        Ok(MemorySlice::register_raw_slice(
            origin,
            self.info.ty,
            false,
            self.info.readable,
            mutable,
            end_bound - start_bound,
        ))
    }

    /// The origin under which `grant` was given out.
    pub fn grant_origin(&self, grant: &Grant) -> (r: Origin)
        requires
            self.wf(),
            self.holds(*grant),
        ensures
            r == self.spec_grant_origin(*grant),
    {
        if self.is_void() {
            return self.info.origin;
        }
        match grant {
            Grant::ValueRef(i) => self.table.get_value_ref(*i),
            Grant::ValueMut(i) => self.table.get_value_mut(*i),
            Grant::PlaceRef(i) => self.table.get_place_ref(*i),
            Grant::PlaceMut(i) => self.table.get_place_mut(*i),
        }
    }

    /// Releases `grant`.
    pub fn release_grant(&mut self, grant: Grant)
        requires
            old(self).wf(),
            old(self).holds(grant),
        ensures
            final(self).wf(),
            final(self).info() == old(self).info(),
            old(self).spec_is_void() ==> final(self).table() == old(self).table(),
            !old(self).spec_is_void() ==> Self::released(old(self).table(), final(self).table(), grant),
    {
        if self.is_void() {
            return;
        }
        match grant {
            Grant::ValueRef(i) => self.table.release_value_ref(i),
            Grant::ValueMut(i) => self.table.release_value_mut(i),
            Grant::PlaceRef(i) => self.table.release_place_ref(i),
            Grant::PlaceMut(i) => self.table.release_place_mut(i),
        }
    }

    /// How releasing `grant` changes the borrowing state `t0` into `t1`.
    pub open spec fn released(t0: BorrowTable, t1: BorrowTable, grant: Grant) -> bool {
        match grant {
            Grant::ValueRef(i) => {
                &&& BorrowStack::release_post(t0.value_refs(), t1.value_refs(), i, t0.value_refs().origin_of(i))
                &&& t1.value_mut() == t0.value_mut()
                &&& t1.place_refs() == t0.place_refs()
                &&& t1.place_muts() == t0.place_muts()
            },
            Grant::ValueMut(_) => {
                &&& t1.value_mut() is None
                &&& t1.value_refs() == t0.value_refs()
                &&& t1.place_refs() == t0.place_refs()
                &&& t1.place_muts() == t0.place_muts()
            },
            Grant::PlaceRef(i) => {
                &&& BorrowStack::release_post(t0.place_refs(), t1.place_refs(), i, t0.place_refs().origin_of(i))
                &&& t1.value_mut() == t0.value_mut()
                &&& t1.value_refs() == t0.value_refs()
                &&& t1.place_muts() == t0.place_muts()
            },
            Grant::PlaceMut(i) => {
                &&& BorrowStack::release_post(t0.place_muts(), t1.place_muts(), i, t0.place_muts().origin_of(i))
                &&& t1.value_mut() == t0.value_mut()
                &&& t1.value_refs() == t0.value_refs()
                &&& t1.place_refs() == t0.place_refs()
            },
        }
    }
}

/// The index that a grant carries.
pub open spec fn grant_index(grant: Grant) -> u32 {
    match grant {
        Grant::ValueRef(i) => i,
        Grant::ValueMut(i) => i,
        Grant::PlaceRef(i) => i,
        Grant::PlaceMut(i) => i,
    }
}

/// The borrow table result that a grant result stands for.
pub open spec fn table_result(r: RuntimeResult<Grant>) -> RuntimeResult<u32> {
    match r {
        Ok(grant) => Ok(grant_index(grant)),
        Err(e) => Err(e),
    }
}

} // verus!

verus! {

/// Two borrowing states with the same active borrows, by kind, index and
/// origin.
pub open spec fn same_borrows(t0: BorrowTable, t1: BorrowTable) -> bool {
    &&& t1.value_mut() == t0.value_mut()
    &&& t1.value_refs().active() == t0.value_refs().active()
    &&& t1.value_refs().origins() == t0.value_refs().origins()
    &&& t1.place_refs().active() == t0.place_refs().active()
    &&& t1.place_refs().origins() == t0.place_refs().origins()
    &&& t1.place_muts().active() == t0.place_muts().active()
    &&& t1.place_muts().origins() == t0.place_muts().origins()
}

/// Two borrowing states with the same active borrows refuse the same
/// accesses.
pub(crate) proof fn lemma_same_borrows_refuse_alike(t0: BorrowTable, t1: BorrowTable, origin: Origin)
    requires
        same_borrows(t0, t1),
    ensures
        place_ref_refusal(t0, origin) == place_ref_refusal(t1, origin),
        place_mut_refusal(t0, origin) == place_mut_refusal(t1, origin),
        value_ref_refusal(t0, origin) == value_ref_refusal(t1, origin),
{
    let a = t0.value_refs().active();
    if a.len() > 0 {
        assert(t0.value_refs().origins()[a.len() - 1] == t0.value_refs().origin_of(a.last()));
        assert(t1.value_refs().origins()[a.len() - 1] == t1.value_refs().origin_of(a.last()));
    }
    let m = t0.place_muts().active();
    if m.len() > 0 {
        assert(t0.place_muts().origins()[m.len() - 1] == t0.place_muts().origin_of(m.last()));
        assert(t1.place_muts().origins()[m.len() - 1] == t1.place_muts().origin_of(m.last()));
    }
}

/// The error with which the borrowing state `t` refuses write access to the
/// data, if it refuses it.
pub open spec fn value_mut_refusal(t: BorrowTable, origin: Origin) -> Option<RuntimeError> {
    match (t.value_refs().newest(), t.place_refs().newest(), t.place_muts().newest(), t.value_mut()) {
        (Some(cause), _, _, _) | (None, Some(cause), _, _) => Some(
            RuntimeError::ReadToWrite { access_origin: origin, borrow_origin: cause },
        ),
        (None, None, Some(cause), _) | (None, None, None, Some(cause)) => Some(
            RuntimeError::WriteToWrite { access_origin: origin, borrow_origin: cause },
        ),
        (None, None, None, None) => None,
    }
}

/// The error with which the borrowing state `t` refuses read access to the
/// data, if it refuses it.
pub open spec fn value_ref_refusal(t: BorrowTable, origin: Origin) -> Option<RuntimeError> {
    match (t.value_mut(), t.place_muts().newest()) {
        (Some(cause), _) | (None, Some(cause)) => Some(
            RuntimeError::WriteToRead { access_origin: origin, borrow_origin: cause },
        ),
        (None, None) => if t.value_refs().active().len() == BORROW_LIMIT {
            Some(RuntimeError::BorrowLimit { access_origin: origin, limit: BORROW_LIMIT as usize })
        } else {
            None
        },
    }
}

/// The error with which the borrowing state `t` refuses read access to the
/// place of the data, if it refuses it.
pub open spec fn place_ref_refusal(t: BorrowTable, origin: Origin) -> Option<RuntimeError> {
    match t.value_mut() {
        Some(cause) => Some(RuntimeError::WriteToRead { access_origin: origin, borrow_origin: cause }),
        None => if t.place_refs().active().len() == BORROW_LIMIT {
            Some(RuntimeError::BorrowLimit { access_origin: origin, limit: BORROW_LIMIT as usize })
        } else {
            None
        },
    }
}

/// The error with which the borrowing state `t` refuses write access to the
/// place of the data, if it refuses it.
pub open spec fn place_mut_refusal(t: BorrowTable, origin: Origin) -> Option<RuntimeError> {
    match (t.value_mut(), t.value_refs().newest()) {
        (Some(cause), _) => Some(RuntimeError::WriteToWrite { access_origin: origin, borrow_origin: cause }),
        (None, Some(cause)) => Some(RuntimeError::ReadToWrite { access_origin: origin, borrow_origin: cause }),
        (None, None) => if t.place_muts().active().len() == BORROW_LIMIT {
            Some(RuntimeError::BorrowLimit { access_origin: origin, limit: BORROW_LIMIT as usize })
        } else {
            None
        },
    }
}

impl MemorySlice {
    /// The description of the elements `range` of the allocation `info`, as
    /// [MemorySlice::subslice] gives it.
    pub open spec fn subslice_info(info: SliceInfo, origin: Origin, range: IndexRange) -> SliceInfo {
        SliceInfo {
            unicode: false,
            origin,
            ty: info.ty,
            readable: info.readable,
            mutable: info.mutable && !info.unicode,
            length: (range.end - range.start) as usize,
            owned: false,
        }
    }

    /// What [MemorySlice::map_slice] gives for the elements `range`: the
    /// end past the data is out of bounds, data that can be neither read nor
    /// written maps to nothing, and otherwise the allocation must grant
    /// access to its place (for writing if it is writeable, else for
    /// reading).
    pub open spec fn map_slice_result(
        info: SliceInfo,
        t: BorrowTable,
        origin: Origin,
        range: IndexRange,
    ) -> RuntimeResult<Option<SliceInfo>> {
        let void = info.length == 0 || info.ty.size == 0;
        let writeable = info.mutable && !info.unicode;
        if range.end > info.length && info.ty.size > 0 {
            Err(RuntimeError::OutOfBounds { access_origin: origin, index: (range.end - 1) as usize, length: info.length })
        } else if !info.readable && !writeable {
            Ok(None)
        } else {
            let refusal = if void {
                None
            } else if writeable {
                place_mut_refusal(t, origin)
            } else {
                place_ref_refusal(t, origin)
            };
            match refusal {
                Some(e) => Err(e),
                None => Ok(Some(Self::subslice_info(info, origin, range))),
            }
        }
    }

    /// What granting access to the data at `origin` would give now (for
    /// writing if `write`, else for reading): a void allocation always
    /// grants it.
    pub open spec fn value_refusal(&self, origin: Origin, write: bool) -> Option<RuntimeError> {
        if self.spec_is_void() {
            None
        } else if write {
            value_mut_refusal(self.table(), origin)
        } else {
            value_ref_refusal(self.table(), origin)
        }
    }

    /// Checks that access to the data (for writing if `write`, else for
    /// reading) would be granted at `origin`, by granting it and releasing
    /// it again.
    pub fn probe_value(&mut self, origin: Origin, write: bool) -> (r: RuntimeResult<()>)
        requires
            old(self).wf(),
        ensures
            final(self).wf(),
            final(self).info() == old(self).info(),
            same_borrows(old(self).table(), final(self).table()),
            r == (match old(self).value_refusal(origin, write) {
                Some(e) => Err::<(), RuntimeError>(e),
                None => Ok::<(), RuntimeError>(()),
            }),
    {
        let ghost t0 = self.table();
        proof {
            t0.value_refs().lemma_bounds();
            t0.place_refs().lemma_bounds();
            t0.place_muts().lemma_bounds();
        }
        let grant = if write {
            self.grant_value_mut(origin)
        } else {
            self.grant_value_ref(origin)
        };
        let grant = match grant {
            Ok(grant) => grant,
            Err(e) => return Err(e),
        };
        let ghost t1 = self.table();
        proof {
            t1.value_refs().lemma_bounds();
            if !self.spec_is_void() && !write {
                let a = t1.value_refs().active();
                assert(a[a.len() - 1] == grant_index(grant));
            }
        }
        self.release_grant(grant);
        proof {
            let t2 = self.table();
            if !self.spec_is_void() && !write {
                law_grant_release_restores(
                    t0.value_refs(),
                    t1.value_refs(),
                    t2.value_refs(),
                    origin,
                    grant_index(grant),
                    t1.value_refs().origin_of(grant_index(grant)),
                );
            }
        }
        Ok(())
    }

    /// What granting access to the place of the data at `origin` would give
    /// now (for writing if `write`, else for reading): a void allocation
    /// always grants it.
    pub open spec fn place_refusal(&self, origin: Origin, write: bool) -> Option<RuntimeError> {
        if self.spec_is_void() {
            None
        } else if write {
            place_mut_refusal(self.table(), origin)
        } else {
            place_ref_refusal(self.table(), origin)
        }
    }

    /// Checks that access to the place of the data (for writing if `write`,
    /// else for reading) would be granted at `origin`, by granting it and
    /// releasing it again.
    pub fn probe_place(&mut self, origin: Origin, write: bool) -> (r: RuntimeResult<()>)
        requires
            old(self).wf(),
        ensures
            final(self).wf(),
            final(self).info() == old(self).info(),
            same_borrows(old(self).table(), final(self).table()),
            r == (match old(self).place_refusal(origin, write) {
                Some(e) => Err::<(), RuntimeError>(e),
                None => Ok::<(), RuntimeError>(()),
            }),
    {
        let ghost t0 = self.table();
        proof {
            t0.value_refs().lemma_bounds();
            t0.place_refs().lemma_bounds();
            t0.place_muts().lemma_bounds();
        }
        let grant = if write {
            self.grant_place_mut(origin)
        } else {
            self.grant_place_ref(origin)
        };
        let grant = match grant {
            Ok(grant) => grant,
            Err(e) => return Err(e),
        };
        let ghost t1 = self.table();
        proof {
            t1.place_refs().lemma_bounds();
            t1.place_muts().lemma_bounds();
            if !self.spec_is_void() {
                if write {
                    let a = t1.place_muts().active();
                    assert(a[a.len() - 1] == grant_index(grant));
                } else {
                    let a = t1.place_refs().active();
                    assert(a[a.len() - 1] == grant_index(grant));
                }
            }
        }
        self.release_grant(grant);
        proof {
            let t2 = self.table();
            if self.spec_is_void() {
            } else if write {
                law_grant_release_restores(
                    t0.place_muts(),
                    t1.place_muts(),
                    t2.place_muts(),
                    origin,
                    grant_index(grant),
                    t1.place_muts().origin_of(grant_index(grant)),
                );
            } else {
                law_grant_release_restores(
                    t0.place_refs(),
                    t1.place_refs(),
                    t2.place_refs(),
                    origin,
                    grant_index(grant),
                    t1.place_refs().origin_of(grant_index(grant)),
                );
            }
        }
        Ok(())
    }

    /// The elements `range` of the data, as a new allocation that the Script
    /// Engine does not own. Access to the place of this allocation is
    /// checked by granting it and releasing it again.
    pub fn map_slice(&mut self, origin: Origin, range: IndexRange) -> (r: RuntimeResult<Option<MemorySlice>>)
        requires
            old(self).wf(),
            range.start <= range.end,
        ensures
            final(self).wf(),
            final(self).info() == old(self).info(),
            same_borrows(old(self).table(), final(self).table()),
            match (r, Self::map_slice_result(old(self).info(), old(self).table(), origin, range)) {
                (Ok(Some(s)), Ok(Some(info))) => s.wf() && s.table().is_free() && s.info() == info,
                (Ok(None), Ok(None)) => true,
                (Err(e), Err(f)) => e == f,
                _ => false,
            },
    {
        let length = self.info.length;
        if range.end > length && self.info.ty.size > 0 {
            return Err(RuntimeError::OutOfBounds { access_origin: origin, index: range.end - 1, length });
        }
        let readable = self.is_readable();
        let writeable = self.is_writeable();
        if !readable && !writeable {
            return Ok(None);
        }
        let ghost t0 = self.table();
        let grant = if writeable {
            self.grant_place_mut(origin)
        } else {
            self.grant_place_ref(origin)
        };
        let grant = match grant {
            Ok(grant) => grant,
            Err(e) => {
                proof {
                    t0.value_refs().lemma_bounds();
                    t0.place_refs().lemma_bounds();
                    t0.place_muts().lemma_bounds();
                }
                return Err(e);
            },
        };
        let ghost t1 = self.table();
        proof {
            t0.value_refs().lemma_bounds();
            t0.place_refs().lemma_bounds();
            t0.place_muts().lemma_bounds();
            t1.place_refs().lemma_bounds();
            t1.place_muts().lemma_bounds();
            if !self.spec_is_void() {
                if writeable {
                    let a = t1.place_muts().active();
                    assert(a[a.len() - 1] == grant_index(grant));
                } else {
                    let a = t1.place_refs().active();
                    assert(a[a.len() - 1] == grant_index(grant));
                }
            }
        }
        let sub = self.subslice(origin, range.start, range.end);
        self.release_grant(grant);
        proof {
            let t2 = self.table();
            if self.spec_is_void() {
            } else if writeable {
                law_grant_release_restores(
                    t0.place_muts(),
                    t1.place_muts(),
                    t2.place_muts(),
                    origin,
                    grant_index(grant),
                    t1.place_muts().origin_of(grant_index(grant)),
                );
            } else {
                law_grant_release_restores(
                    t0.place_refs(),
                    t1.place_refs(),
                    t2.place_refs(),
                    origin,
                    grant_index(grant),
                    t1.place_refs().origin_of(grant_index(grant)),
                );
            }
        }
        match sub {
            Ok(s) => Ok(Some(s)),
            Err(e) => Err(e),
        }
    }
}

} // verus!

verus! {

/// While a read access to the data of a non-void allocation is held (as
/// [crate::cell::Cell::borrow_str] and [crate::cell::Cell::map_str] hold
/// one), the allocation refuses to grant write access to its data.
pub proof fn law_held_read_refuses_writes(slice: MemorySlice, index: u32, origin: Origin)
    requires
        slice.wf(),
        !slice.spec_is_void(),
        slice.holds(Grant::ValueRef(index)),
    ensures
        value_mut_refusal(slice.table(), origin) is Some,
{
    assert(slice.table().value_refs().active().len() > 0);
}

/// While a write access to the data of a non-void allocation is held, the
/// allocation refuses to grant read access to its data.
pub proof fn law_held_write_refuses_reads(slice: MemorySlice, index: u32, origin: Origin)
    requires
        slice.wf(),
        !slice.spec_is_void(),
        slice.holds(Grant::ValueMut(index)),
    ensures
        value_ref_refusal(slice.table(), origin) is Some,
{
}

} // verus!

verus! {

/// Write access to the data is refused with a read-to-write error while any
/// read of the data or of its place is active, with a write-to-write error
/// while only writes are active, and granted when nothing is active.
pub proof fn law_write_refusal_causes(t: BorrowTable, origin: Origin)
    requires
        t.wf(),
    ensures
        t.value_refs().active().len() > 0 || t.place_refs().active().len() > 0 ==> (value_mut_refusal(
            t,
            origin,
        ) matches Some(RuntimeError::ReadToWrite { access_origin, .. }) && access_origin == origin),
        t.value_refs().active().len() == 0 && t.place_refs().active().len() == 0 && (
        t.place_muts().active().len() > 0 || t.value_mut() is Some) ==> (value_mut_refusal(t, origin) matches Some(
            RuntimeError::WriteToWrite { access_origin, .. },
        ) && access_origin == origin),
        value_mut_refusal(t, origin) is None <==> t.value_refs().active().len() == 0
            && t.place_refs().active().len() == 0 && t.place_muts().active().len() == 0 && t.value_mut() is None,
{
}

/// What [MemorySlice::probe_value] and the borrows of a cell report for
/// writing is what the borrowing state gives a write grant.
pub proof fn law_write_refusal_is_the_grant_error(t0: BorrowTable, t1: BorrowTable, origin: Origin, r: RuntimeResult<u32>)
    requires
        t0.wf(),
        BorrowTable::grant_value_mut_post(t0, t1, origin, r),
    ensures
        r == (match value_mut_refusal(t0, origin) {
            Some(e) => Err::<u32, RuntimeError>(e),
            None => Ok::<u32, RuntimeError>(0),
        }),
{
}

/// Read-only data is projected under a read access to its place, which
/// reads of the data do not block: an in-bounds range of readable data that
/// cannot be written maps to a read-only description of the range, owned
/// by no one, whenever the data is not being written and the place reads
/// are below the limit, however many reads of the data are active.
pub proof fn law_read_only_data_maps_under_reads(
    info: SliceInfo,
    t: BorrowTable,
    origin: Origin,
    range: IndexRange,
)
    requires
        t.wf(),
        info.readable,
        !(info.mutable && !info.unicode),
        range.start <= range.end <= info.length,
        t.value_mut() is None,
        t.place_refs().active().len() < BORROW_LIMIT,
    ensures
        MemorySlice::map_slice_result(info, t, origin, range) matches Ok(Some(sub)) && sub.readable && !sub.mutable
            && !sub.owned && !sub.unicode && sub.ty == info.ty && sub.origin == origin && sub.length == range.end
            - range.start,
{
}

/// Writeable data is projected under a write access to its place: the
/// projection of an in-bounds range is refused exactly when the place
/// cannot be written, and otherwise describes the range as readable as the
/// data and writeable.
pub proof fn law_writeable_data_maps_under_place_write(
    info: SliceInfo,
    t: BorrowTable,
    origin: Origin,
    range: IndexRange,
)
    requires
        t.wf(),
        info.mutable && !info.unicode,
        info.length > 0 && info.ty.size > 0,
        range.start <= range.end <= info.length,
    ensures
        place_mut_refusal(t, origin) matches Some(e) ==> MemorySlice::map_slice_result(info, t, origin, range)
            == Err::<Option<SliceInfo>, RuntimeError>(e),
        place_mut_refusal(t, origin) is None ==> (MemorySlice::map_slice_result(info, t, origin, range) matches Ok(
            Some(sub),
        ) && sub.mutable && sub.readable == info.readable && sub.length == range.end - range.start),
{
}

} // verus!

verus! {

/// What [MemorySlice::probe_value], [MemorySlice::probe_place] and the
/// borrows of a cell report is what the borrowing state gives the grant of
/// that access.
pub proof fn law_refusals_are_the_grant_errors(
    t0: BorrowTable,
    origin: Origin,
    t_read: BorrowTable,
    r_read: RuntimeResult<u32>,
    t_place_read: BorrowTable,
    r_place_read: RuntimeResult<u32>,
    t_place_write: BorrowTable,
    r_place_write: RuntimeResult<u32>,
)
    requires
        t0.wf(),
        BorrowTable::grant_value_ref_post(t0, t_read, origin, r_read),
        BorrowTable::grant_place_ref_post(t0, t_place_read, origin, r_place_read),
        BorrowTable::grant_place_mut_post(t0, t_place_write, origin, r_place_write),
    ensures
        value_ref_refusal(t0, origin) matches Some(e) ==> r_read == Err::<u32, RuntimeError>(e),
        value_ref_refusal(t0, origin) is None <==> r_read is Ok,
        place_ref_refusal(t0, origin) matches Some(e) ==> r_place_read == Err::<u32, RuntimeError>(e),
        place_ref_refusal(t0, origin) is None <==> r_place_read is Ok,
        place_mut_refusal(t0, origin) matches Some(e) ==> r_place_write == Err::<u32, RuntimeError>(e),
        place_mut_refusal(t0, origin) is None <==> r_place_write is Ok,
{
    t0.value_refs().lemma_bounds();
    t0.place_refs().lemma_bounds();
    t0.place_muts().lemma_bounds();
}

} // verus!
