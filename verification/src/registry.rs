use vstd::prelude::*;

use crate::memory::{MemorySlice, SliceInfo};
use crate::origin::Origin;
use crate::ty::{TypeMeta, U8_TYPE};

verus! {

/// An owned allocation that holds bytes, known by the address of its data:
/// the type and number of its elements, and the slot where its host keeps
/// it.
#[derive(Clone, Copy, Debug)]
pub struct RegistryEntry {
    pub address: usize,
    pub ty: TypeMeta,
    pub length: usize,
    pub slot: usize,
}

/// Whether `entry` is the allocation at `address` of `length` elements of
/// type `ty`.
pub open spec fn entry_matches(entry: RegistryEntry, address: usize, ty: TypeMeta, length: usize) -> bool {
    entry.address == address && entry.ty.id == ty.id && entry.length == length
}

/// Whether data of `length` elements of type `ty` at `address` is known by
/// its address: it holds bytes at a non-null address.
pub open spec fn is_tracked(address: usize, ty: TypeMeta, length: usize) -> bool {
    address > 0 && length > 0 && ty.size > 0
}

/// What registering raw data gives: the slot of the registered owned
/// allocation that already holds it, or a new description of it.
pub enum RawRegistration {
    Shared(usize),
    Fresh(MemorySlice),
}

/// The owned allocations of the Script Engine that hold bytes, by the
/// address of their data. Data that is registered again through a raw
/// pointer to it is found here, so that both registrations share one
/// allocation and one borrowing state.
pub struct MemoryRegistry {
    entries: Vec<RegistryEntry>,
}

impl MemoryRegistry {
    /// The registered allocations, in the order of their registration.
    pub closed spec fn entries(&self) -> Seq<RegistryEntry> {
        self.entries@
    }

    /// No two allocations share an address.
    pub open spec fn wf(&self) -> bool {
        forall|i: int, j: int|
            0 <= i < j < self.entries().len() ==> #[trigger] self.entries()[i].address
                != #[trigger] self.entries()[j].address
    }

    /// Whether an allocation is registered at `address`.
    pub open spec fn is_registered(&self, address: usize) -> bool {
        exists|i: int| 0 <= i < self.entries().len() && #[trigger] self.entries()[i].address == address
    }

    /// A registry without allocations.
    pub fn new() -> (r: Self)
        ensures
            r.wf(),
            r.entries() == Seq::<RegistryEntry>::empty(),
    {
        MemoryRegistry { entries: Vec::new() }
    }

    /// Registers the owned allocation `entry`, whose address must not be
    /// registered yet.
    pub fn register(&mut self, entry: RegistryEntry)
        requires
            old(self).wf(),
            !old(self).is_registered(entry.address),
        ensures
            final(self).wf(),
            final(self).entries() == old(self).entries().push(entry),
    {
        self.entries.push(entry);
        proof {
            let e = self.entries();
            assert forall|i: int, j: int| 0 <= i < j < e.len() implies #[trigger] e[i].address
                != #[trigger] e[j].address by {
                let o = old(self).entries();
                assert(e[i] == o[i]);
                if j == e.len() - 1 {
                    assert(e[j] == entry);
                    assert(!(o[i].address == entry.address));
                } else {
                    assert(e[j] == o[j]);
                }
            }
        }
    }

    /// Forgets the allocation at `address`, which must be registered, when
    /// it is dropped.
    pub fn deregister(&mut self, address: usize)
        requires
            old(self).wf(),
            old(self).is_registered(address),
        ensures
            final(self).wf(),
            exists|i: int|
                0 <= i < old(self).entries().len() && old(self).entries()[i].address == address
                    && final(self).entries() == old(self).entries().remove(i),
    {
        let mut i: usize = 0;
        while i < self.entries.len()
            invariant
                self.entries() == old(self).entries(),
                old(self).wf(),
                old(self).is_registered(address),
                0 <= i <= self.entries@.len(),
                forall|k: int| 0 <= k < i ==> #[trigger] self.entries()[k].address != address,
            decreases self.entries@.len() - i,
        {
            if self.entries[i].address == address {
                let ghost before = self.entries();
                self.entries.remove(i);
                proof {
                    let e = self.entries();
                    assert forall|a: int, b: int| 0 <= a < b < e.len() implies #[trigger] e[a].address
                        != #[trigger] e[b].address by {
                        let a0 = if a < i { a } else { a + 1 };
                        let b0 = if b < i { b } else { b + 1 };
                        assert(e[a] == before[a0]);
                        assert(e[b] == before[b0]);
                        assert(before[a0].address != before[b0].address);
                    }
                }
                return;
            }
            i = i + 1;
        }
        proof {
            let k = choose|k: int| 0 <= k < old(self).entries().len() && #[trigger] old(self).entries()[k].address
                == address;
            assert(self.entries()[k].address != address);
        }
    }

    /// The slot of the registered allocation that a raw pointer at
    /// `address` to `length` elements of type `ty` reaches, when the data
    /// is known by its address and an allocation of the same type and
    /// length is registered there; such a raw registration shares that
    /// allocation instead of describing a new one.
    pub fn find(&self, address: usize, ty: TypeMeta, length: usize) -> (r: Option<usize>)
        requires
            self.wf(),
        ensures
            r is Some <==> is_tracked(address, ty, length) && exists|i: int|
                0 <= i < self.entries().len() && #[trigger] entry_matches(self.entries()[i], address, ty, length),
            r matches Some(slot) ==> exists|i: int|
                0 <= i < self.entries().len() && #[trigger] entry_matches(self.entries()[i], address, ty, length)
                    && self.entries()[i].slot == slot,
    {
        if address == 0 || length == 0 || ty.size == 0 {
            return None;
        }
        let mut i: usize = 0;
        while i < self.entries.len()
            invariant
                self.wf(),
                is_tracked(address, ty, length),
                0 <= i <= self.entries@.len(),
                forall|k: int| 0 <= k < i ==> !#[trigger] entry_matches(self.entries()[k], address, ty, length),
                forall|k: int| 0 <= k < i ==> #[trigger] self.entries()[k].address != address,
            decreases self.entries@.len() - i,
        {
            let entry = self.entries[i];
            if entry.address == address {
                if entry.ty.id == ty.id && entry.length == length {
                    proof {
                        assert(entry_matches(self.entries()[i as int], address, ty, length));
                    }
                    return Some(entry.slot);
                }
                proof {
                    assert forall|k: int| 0 <= k < self.entries().len() implies !#[trigger] entry_matches(
                        self.entries()[k],
                        address,
                        ty,
                        length,
                    ) by {
                        if k != i {
                            if k < i {
                                assert(self.entries()[k].address != self.entries()[i as int].address);
                            } else {
                                assert(self.entries()[i as int].address != self.entries()[k].address);
                            }
                        }
                    }
                }
                return None;
            }
            i = i + 1;
        }
        None
    }

    /// Registers raw data of `length` elements of type `ty` at `address`
    /// that the Script Engine does not own (see
    /// [MemorySlice::register_raw_slice] for the other parameters): data
    /// that a registered owned allocation of the same type and length holds
    /// shares that allocation, and other data is described anew.
    pub fn register_raw_slice(
        &self,
        address: usize,
        origin: Origin,
        ty: TypeMeta,
        unicode: bool,
        readable: bool,
        mutable: bool,
        length: usize,
    ) -> (r: RawRegistration)
        requires
            self.wf(),
            unicode ==> ty.id == U8_TYPE && !mutable,
        ensures
            r is Shared <==> is_tracked(address, ty, length) && exists|i: int|
                0 <= i < self.entries().len() && #[trigger] entry_matches(self.entries()[i], address, ty, length),
            r matches RawRegistration::Shared(slot) ==> exists|i: int|
                0 <= i < self.entries().len() && #[trigger] entry_matches(self.entries()[i], address, ty, length)
                    && self.entries()[i].slot == slot,
            r matches RawRegistration::Fresh(s) ==> s.wf() && s.table().is_free() && s.info() == (SliceInfo {
                unicode,
                origin,
                ty,
                readable,
                mutable,
                length,
                owned: false,
            }),
    {
        match self.find(address, ty, length) {
            Some(slot) => RawRegistration::Shared(slot),
            None => RawRegistration::Fresh(
                MemorySlice::register_raw_slice(origin, ty, unicode, readable, mutable, length),
            ),
        }
    }
}

} // verus!

verus! {

/// Once an owned allocation that holds bytes is registered, raw data of the
/// same type and length at its address is found there, and only there: a
/// raw registration of it shares that allocation's slot.
pub proof fn law_registered_data_is_shared(before: MemoryRegistry, after: MemoryRegistry, entry: RegistryEntry)
    requires
        before.wf(),
        !before.is_registered(entry.address),
        after.entries() == before.entries().push(entry),
        is_tracked(entry.address, entry.ty, entry.length),
    ensures
        exists|i: int|
            0 <= i < after.entries().len() && #[trigger] entry_matches(
                after.entries()[i],
                entry.address,
                entry.ty,
                entry.length,
            ),
        forall|i: int|
            0 <= i < after.entries().len() && #[trigger] entry_matches(
                after.entries()[i],
                entry.address,
                entry.ty,
                entry.length,
            ) ==> after.entries()[i].slot == entry.slot,
{
    let n = before.entries().len() as int;
    assert(after.entries()[n] == entry);
    assert(entry_matches(after.entries()[n], entry.address, entry.ty, entry.length));
    assert forall|i: int|
        0 <= i < after.entries().len() && #[trigger] entry_matches(
            after.entries()[i],
            entry.address,
            entry.ty,
            entry.length,
        ) implies after.entries()[i].slot == entry.slot by {
        if i < n {
            assert(after.entries()[i] == before.entries()[i]);
            assert(before.entries()[i].address == entry.address);
        }
    }
}

} // verus!
