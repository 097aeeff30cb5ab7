use vstd::prelude::*;

use crate::error::{RuntimeError, RuntimeResult};
use crate::origin::Origin;

verus! {

/// The maximum number of simultaneously active borrows of one kind.
pub const BORROW_LIMIT: u32 = 64;

/// The link value that points to no entry.
pub const NO_ENTRY: u32 = 0xFFFF_FFFF;

/// A slot of a [BorrowStack].
///
/// Occupied slots form a doubly linked list in the order of their grants;
/// vacant slots form a singly linked list of slots ready for reuse.
#[derive(Clone, Copy, Debug)]
pub enum BorrowEntry {
    Occupied { previous: u32, next: u32, origin: Origin },
    Vacant(u32),
}

/// A set of active borrows of one kind, each identified by a small index.
///
/// Released indices are reused before fresh ones, the most recently released
/// first. At most [BORROW_LIMIT] borrows can be active at the same time.
pub struct BorrowStack {
    entries: Vec<BorrowEntry>,
    next: u32,
    last: u32,
    /// The indices of the active borrows, in the order they were granted.
    order: Ghost<Seq<u32>>,
    /// The indices of the vacant slots, in the order they will be reused.
    free: Ghost<Seq<u32>>,
}

/// The link that precedes position `i` of `order`.
pub open spec fn link_before(order: Seq<u32>, i: int) -> u32 {
    if i == 0 {
        NO_ENTRY
    } else {
        order[i - 1]
    }
}

/// The link that follows position `i` of `order`.
pub open spec fn link_after(order: Seq<u32>, i: int) -> u32 {
    if i + 1 >= order.len() {
        NO_ENTRY
    } else {
        order[i + 1]
    }
}

/// Whether `entry` is occupied with the given links.
pub open spec fn is_occupied_with(entry: BorrowEntry, previous: u32, next: u32) -> bool {
    match entry {
        BorrowEntry::Occupied { previous: p, next: n, .. } => p == previous && n == next,
        BorrowEntry::Vacant(..) => false,
    }
}

/// Whether `entry` is vacant and points to `link`.
pub open spec fn is_vacant_with(entry: BorrowEntry, link: u32) -> bool {
    match entry {
        BorrowEntry::Vacant(l) => l == link,
        BorrowEntry::Occupied { .. } => false,
    }
}

/// The origin stored in an occupied entry.
pub open spec fn entry_origin(entry: BorrowEntry) -> Origin {
    match entry {
        BorrowEntry::Occupied { origin, .. } => origin,
        BorrowEntry::Vacant(..) => Origin::spec_nil(),
    }
}

/// The list invariants of a [BorrowStack], over its parts.
#[verifier::opaque]
pub open spec fn stack_lists_wf(entries: Seq<BorrowEntry>, order: Seq<u32>, free: Seq<u32>) -> bool {
    &&& entries.len() <= BORROW_LIMIT
    &&& order.len() + free.len() == entries.len()
    &&& order.no_duplicates()
    &&& free.no_duplicates()
    &&& forall|i: int|
        0 <= i < order.len() ==> {
            &&& #[trigger] order[i] < entries.len()
            &&& is_occupied_with(entries[order[i] as int], link_before(order, i), link_after(order, i))
        }
    &&& forall|j: int|
        0 <= j < free.len() ==> {
            &&& #[trigger] free[j] < entries.len()
            &&& is_vacant_with(
                entries[free[j] as int],
                if j + 1 < free.len() {
                    free[j + 1]
                } else {
                    entries.len() as u32
                },
            )
        }
}

/// Unlinking position `k` of `order` and pushing its slot onto the vacant
/// list keeps the list invariants, provided only the slot and its two
/// neighbours changed, and only as the release prescribes.
#[verifier::rlimit(60)]
proof fn lemma_release_keeps_wf(
    entries0: Seq<BorrowEntry>,
    entries1: Seq<BorrowEntry>,
    order: Seq<u32>,
    free: Seq<u32>,
    k: int,
    next0: u32,
)
    requires
        stack_lists_wf(entries0, order, free),
        0 <= k < order.len(),
        next0 == (if free.len() > 0 { free[0] } else { entries0.len() as u32 }),
        entries1.len() == entries0.len(),
        entries1[order[k] as int] == BorrowEntry::Vacant(next0),
        forall|x: int|
            0 <= x < entries1.len() && x != order[k] && x != link_before(order, k) && x != link_after(order, k)
                ==> entries1[x] == entries0[x],
        k > 0 ==> entries1[order[k - 1] as int] == (BorrowEntry::Occupied {
            previous: link_before(order, k - 1),
            next: link_after(order, k),
            origin: entry_origin(entries0[order[k - 1] as int]),
        }),
        k + 1 < order.len() ==> entries1[order[k + 1] as int] == (BorrowEntry::Occupied {
            previous: link_before(order, k),
            next: link_after(order, k + 1),
            origin: entry_origin(entries0[order[k + 1] as int]),
        }),
    ensures
        stack_lists_wf(entries1, order.remove(k), seq![order[k]] + free),
        order.remove(k).map_values(|i: u32| entry_origin(entries1[i as int])) == order.map_values(
            |i: u32| entry_origin(entries0[i as int]),
        ).remove(k),
{
    reveal(stack_lists_wf);
    let index = order[k];
    let new_order = order.remove(k);
    let new_free = seq![index] + free;
    assert forall|i: int, j: int|
        0 <= i < order.len() && 0 <= j < free.len() implies #[trigger] order[i] != #[trigger] free[j] by {
        assert(is_occupied_with(entries0[order[i] as int], link_before(order, i), link_after(order, i)));
        assert(is_vacant_with(entries0[free[j] as int], if j + 1 < free.len() { free[j + 1] } else { entries0.len() as u32 }));
    }
    assert(new_order.no_duplicates());
    assert(new_free.no_duplicates()) by {
        assert forall|a: int, b: int| 0 <= a < new_free.len() && 0 <= b < new_free.len() && a != b implies new_free[a] != new_free[b] by {
            if a == 0 && b > 0 {
                assert(new_free[b] == free[b - 1]);
            } else if b == 0 && a > 0 {
                assert(new_free[a] == free[a - 1]);
            }
        }
    }
    assert forall|i: int| 0 <= i < new_order.len() implies {
        &&& #[trigger] new_order[i] < entries1.len()
        &&& is_occupied_with(entries1[new_order[i] as int], link_before(new_order, i), link_after(new_order, i))
    } by {
        let oi = if i < k { i } else { i + 1 };
        assert(new_order[i] == order[oi]);
        assert(is_occupied_with(entries0[order[oi] as int], link_before(order, oi), link_after(order, oi)));
        if oi == k - 1 {
            if k + 1 < order.len() {
                assert(new_order[k] == order[k + 1]);
            }
        } else if oi == k + 1 {
            if k > 0 {
                assert(new_order[k - 1] == order[k - 1]);
            }
        } else {
            assert(order[oi] != index);
            if k > 0 {
                assert(order[oi] != order[k - 1]);
            }
            if k + 1 < order.len() {
                assert(order[oi] != order[k + 1]);
            }
            assert(entries1[order[oi] as int] == entries0[order[oi] as int]);
            if i > 0 {
                let pi = if i - 1 < k { i - 1 } else { i };
                assert(new_order[i - 1] == order[pi]);
            }
            if i + 1 < new_order.len() {
                assert(new_order[i + 1] == order[oi + 1]);
            }
        }
    }
    assert forall|j: int| 0 <= j < new_free.len() implies {
        &&& #[trigger] new_free[j] < entries1.len()
        &&& is_vacant_with(
            entries1[new_free[j] as int],
            if j + 1 < new_free.len() {
                new_free[j + 1]
            } else {
                entries1.len() as u32
            },
        )
    } by {
        if j > 0 {
            let f = free[j - 1];
            assert(new_free[j] == f);
            assert(is_vacant_with(entries0[f as int], if j < free.len() { free[j] } else { entries0.len() as u32 }));
            assert(f != index);
            if k > 0 {
                assert(f != order[k - 1]);
            }
            if k + 1 < order.len() {
                assert(f != order[k + 1]);
            }
            assert(entries1[f as int] == entries0[f as int]);
            if j + 1 < new_free.len() {
                assert(new_free[j + 1] == free[j]);
            }
        } else {
            assert(order[k] < entries0.len());
            if free.len() > 0 {
                assert(new_free[1] == free[0]);
            }
        }
    }
    let origins0 = order.map_values(|i: u32| entry_origin(entries0[i as int]));
    let new_map = new_order.map_values(|i: u32| entry_origin(entries1[i as int]));
    assert(new_map =~= origins0.remove(k)) by {
        assert forall|i: int| 0 <= i < new_map.len() implies new_map[i] == origins0.remove(k)[i] by {
            let oi = if i < k { i } else { i + 1 };
            assert(new_order[i] == order[oi]);
            assert(origins0.remove(k)[i] == origins0[oi]);
            assert(is_occupied_with(entries0[order[oi] as int], link_before(order, oi), link_after(order, oi)));
            assert(order[oi] != index);
        }
    }
}

/// What the list invariants say about position `k` of `order` and its
/// neighbours.
proof fn lemma_neighbours(entries: Seq<BorrowEntry>, order: Seq<u32>, free: Seq<u32>, k: int)
    requires
        stack_lists_wf(entries, order, free),
        0 <= k < order.len(),
    ensures
        order[k] < entries.len(),
        is_occupied_with(entries[order[k] as int], link_before(order, k), link_after(order, k)),
        k > 0 ==> order[k - 1] < entries.len() && is_occupied_with(
            entries[order[k - 1] as int],
            link_before(order, k - 1),
            order[k],
        ),
        k + 1 < order.len() ==> order[k + 1] < entries.len() && is_occupied_with(
            entries[order[k + 1] as int],
            order[k],
            link_after(order, k + 1),
        ),
        k == 0 ==> link_before(order, k) as int >= entries.len(),
        k + 1 >= order.len() ==> link_after(order, k) as int >= entries.len(),
        order.no_duplicates(),
        entries.len() <= BORROW_LIMIT,
{
    reveal(stack_lists_wf);
    if k > 0 {
        assert(is_occupied_with(entries[order[k - 1] as int], link_before(order, k - 1), link_after(order, k - 1)));
    }
    if k + 1 < order.len() {
        assert(is_occupied_with(entries[order[k + 1] as int], link_before(order, k + 1), link_after(order, k + 1)));
    }
}

impl BorrowStack {
    /// The indices of the active borrows, oldest first.
    pub closed spec fn active(&self) -> Seq<u32> {
        self.order@
    }

    /// The indices that the next grants will reuse, in order.
    pub closed spec fn vacant(&self) -> Seq<u32> {
        self.free@
    }

    /// The number of slots ever allocated.
    pub closed spec fn slots(&self) -> nat {
        self.entries@.len()
    }

    /// The origin under which the active borrow `index` was granted.
    pub closed spec fn origin_of(&self, index: u32) -> Origin {
        entry_origin(self.entries@[index as int])
    }

    /// The origins of the active borrows, oldest first.
    pub open spec fn origins(&self) -> Seq<Origin> {
        self.active().map_values(|i: u32| self.origin_of(i))
    }

    /// The index that the next grant returns.
    pub open spec fn next_index(&self) -> u32 {
        if self.vacant().len() > 0 {
            self.vacant()[0]
        } else {
            self.slots() as u32
        }
    }

    /// The origin of the most recently granted borrow that is still active.
    pub open spec fn newest(&self) -> Option<Origin> {
        if self.active().len() > 0 {
            Some(self.origin_of(self.active().last()))
        } else {
            None
        }
    }

    /// How [BorrowStack::occupy] relates the stack before (`s0`) and after
    /// (`s1`) the call to its result `r`.
    pub open spec fn occupy_post(s0: Self, s1: Self, origin: Origin, r: RuntimeResult<u32>) -> bool {
        &&& s1.wf()
        &&& s0.active().len() == BORROW_LIMIT ==> {
            &&& r == Err::<u32, RuntimeError>(
                RuntimeError::BorrowLimit { access_origin: origin, limit: BORROW_LIMIT as usize },
            )
            &&& s1.active() == s0.active()
            &&& s1.vacant() == s0.vacant()
            &&& s1.slots() == s0.slots()
            &&& s1.origins() == s0.origins()
        }
        &&& s0.active().len() < BORROW_LIMIT ==> {
            &&& r == Ok::<u32, RuntimeError>(s0.next_index())
            &&& s1.active() == s0.active().push(s0.next_index())
            &&& s1.origins() == s0.origins().push(origin)
            &&& s0.vacant().len() > 0 ==> {
                &&& s1.vacant() == s0.vacant().drop_first()
                &&& s1.slots() == s0.slots()
            }
            &&& s0.vacant().len() == 0 ==> {
                &&& s1.vacant() == s0.vacant()
                &&& s1.slots() == s0.slots() + 1
            }
        }
    }

    /// How [BorrowStack::release] of `index` relates the stack before (`s0`)
    /// and after (`s1`) the call to its result `r`.
    pub open spec fn release_post(s0: Self, s1: Self, index: u32, r: Origin) -> bool {
        &&& s1.wf()
        &&& r == s0.origin_of(index)
        &&& s1.active() == s0.active().remove(s0.active().index_of(index))
        &&& s1.origins() == s0.origins().remove(s0.active().index_of(index))
        &&& s1.vacant() == seq![index] + s0.vacant()
        &&& s1.slots() == s0.slots()
    }

    /// Whether `index` denotes an active borrow.
    pub open spec fn is_active(&self, index: u32) -> bool {
        self.active().contains(index)
    }

    pub closed spec fn wf(&self) -> bool {
        &&& stack_lists_wf(self.entries@, self.order@, self.free@)
        &&& self.next == (if self.free@.len() > 0 {
            self.free@[0]
        } else {
            self.entries@.len() as u32
        })
        &&& self.last == (if self.order@.len() > 0 {
            self.order@.last()
        } else {
            NO_ENTRY
        })
    }

    /// The invariant bounds the number of active borrows.
    pub proof fn lemma_bounds(&self)
        requires
            self.wf(),
        ensures
            self.active().len() + self.vacant().len() == self.slots(),
            self.slots() <= BORROW_LIMIT,
            self.active().no_duplicates(),
            self.vacant().no_duplicates(),
            forall|i: int| 0 <= i < self.active().len() ==> #[trigger] self.active()[i] < self.slots(),
            forall|j: int| 0 <= j < self.vacant().len() ==> #[trigger] self.vacant()[j] < self.slots(),
    {
        reveal(stack_lists_wf);
    }

    /// An empty stack.
    pub fn new() -> (s: Self)
        ensures
            s.wf(),
            s.active() == Seq::<u32>::empty(),
            s.vacant() == Seq::<u32>::empty(),
            s.slots() == 0,
    {
        proof {
            reveal(stack_lists_wf);
        }
        BorrowStack {
            entries: Vec::new(),
            next: 0,
            last: NO_ENTRY,
            order: Ghost(Seq::empty()),
            free: Ghost(Seq::empty()),
        }
    }

    /// The origin of the most recently granted borrow that is still active.
    pub fn last(&self) -> (r: Option<Origin>)
        requires
            self.wf(),
        ensures
            r == self.newest(),
    {
        proof {
            self.lemma_bounds();
        }
        if (self.last as usize) < self.entries.len() {
            match self.entries[self.last as usize] {
                BorrowEntry::Occupied { origin, .. } => Some(origin),
                BorrowEntry::Vacant(..) => {
                    proof {
                        reveal(stack_lists_wf);
                        assert(is_occupied_with(
                            self.entries@[self.order@[self.order@.len() - 1] as int],
                            link_before(self.order@, self.order@.len() - 1),
                            link_after(self.order@, self.order@.len() - 1),
                        ));
                    }
                    None
                },
            }
        } else {
            None
        }
    }

    /// The origin under which the active borrow `index` was granted.
    pub fn get(&self, index: u32) -> (r: Origin)
        requires
            self.wf(),
            self.is_active(index),
        ensures
            r == self.origin_of(index),
    {
        let ghost k = self.order@.index_of(index);
        proof {
            reveal(stack_lists_wf);
            assert(is_occupied_with(
                self.entries@[self.order@[k] as int],
                link_before(self.order@, k),
                link_after(self.order@, k),
            ));
        }
        match self.entries[index as usize] {
            BorrowEntry::Occupied { origin, .. } => origin,
            BorrowEntry::Vacant(..) => Origin::nil(),
        }
    }

    /// Grants a new borrow, recording its `origin`, and returns its index.
    ///
    /// Fails with [RuntimeError::BorrowLimit] when [BORROW_LIMIT] borrows
    /// are already active.
    #[verifier::rlimit(60)]
    pub fn occupy(&mut self, origin: Origin) -> (r: RuntimeResult<u32>)
        requires
            old(self).wf(),
        ensures
            Self::occupy_post(*old(self), *final(self), origin, r),
    {
        let index = self.next;
        let ghost old_entries = self.entries@;
        let ghost order = self.order@;
        let ghost free = self.free@;
        proof {
            reveal(stack_lists_wf);
            self.lemma_disjoint();
            if order.len() < BORROW_LIMIT {
                if free.len() > 0 {
                    assert(free[0] < old_entries.len());
                }
            }
        }
        if index == BORROW_LIMIT {
            return Err(RuntimeError::BorrowLimit { access_origin: origin, limit: BORROW_LIMIT as usize });
        }
        let previous = self.last;
        if (index as usize) == self.entries.len() {
            self.entries.push(BorrowEntry::Occupied { previous, next: NO_ENTRY, origin });
            self.next = index + 1;
        } else {
            proof {
                reveal(stack_lists_wf);
                assert(is_vacant_with(
                    old_entries[free[0] as int],
                    if 1 < free.len() { free[1] } else { old_entries.len() as u32 },
                ));
            }
            let link = match self.entries[index as usize] {
                BorrowEntry::Vacant(link) => link,
                BorrowEntry::Occupied { .. } => index,
            };
            self.entries.set(index as usize, BorrowEntry::Occupied { previous, next: NO_ENTRY, origin });
            self.next = link;
        }
        let ghost mid_entries = self.entries@;
        if (previous as usize) < self.entries.len() {
            proof {
                reveal(stack_lists_wf);
                assert(order.len() > 0);
                assert(is_occupied_with(
                    old_entries[order[order.len() - 1] as int],
                    link_before(order, order.len() - 1),
                    link_after(order, order.len() - 1),
                ));
            }
            match self.entries[previous as usize] {
                BorrowEntry::Occupied { previous: before, origin: previous_origin, .. } => {
                    self.entries.set(
                        previous as usize,
                        BorrowEntry::Occupied { previous: before, next: index, origin: previous_origin },
                    );
                },
                BorrowEntry::Vacant(..) => {},
            }
        }
        self.last = index;
        proof {
            self.order@ = order.push(index);
            if free.len() > 0 {
                self.free@ = free.drop_first();
            }

            let new_order = self.order@;
            let new_free = self.free@;
            let entries = self.entries@;
            assert(!order.contains(index)) by {
                if order.contains(index) {
                    let k = order.index_of(index);
                    assert(is_occupied_with(
                        old_entries[order[k] as int],
                        link_before(order, k),
                        link_after(order, k),
                    ));
                }
            }
            assert(new_order.no_duplicates());
            assert forall|i: int| 0 <= i < new_order.len() implies {
                &&& #[trigger] new_order[i] < entries.len()
                &&& is_occupied_with(
                    entries[new_order[i] as int],
                    link_before(new_order, i),
                    link_after(new_order, i),
                )
            } by {
                if i < order.len() {
                    assert(is_occupied_with(
                        old_entries[order[i] as int],
                        link_before(order, i),
                        link_after(order, i),
                    ));
                    assert(order[i] != index);
                    if i + 1 < order.len() {
                        assert(order[i] != previous) by {
                            assert(order[order.len() - 1] == previous);
                        }
                    }
                }
            }
            assert forall|j: int| 0 <= j < new_free.len() implies {
                &&& #[trigger] new_free[j] < entries.len()
                &&& is_vacant_with(
                    entries[new_free[j] as int],
                    if j + 1 < new_free.len() {
                        new_free[j + 1]
                    } else {
                        entries.len() as u32
                    },
                )
            } by {
                let jj = if free.len() > 0 { j + 1 } else { j };
                assert(new_free[j] == free[jj]);
                assert(is_vacant_with(
                    old_entries[free[jj] as int],
                    if jj + 1 < free.len() { free[jj + 1] } else { old_entries.len() as u32 },
                ));
                assert(free[jj] != index);
                if order.len() > 0 {
                    assert(free[jj] != previous) by {
                        assert(is_occupied_with(
                            old_entries[order[order.len() - 1] as int],
                            link_before(order, order.len() - 1),
                            link_after(order, order.len() - 1),
                        ));
                    }
                }
            }
            assert(new_order.map_values(|i: u32| entry_origin(entries[i as int])) =~= order.map_values(
                |i: u32| entry_origin(old_entries[i as int]),
            ).push(origin)) by {
                assert forall|i: int| 0 <= i < order.len() implies entry_origin(
                    entries[#[trigger] order[i] as int],
                ) == entry_origin(old_entries[order[i] as int]) by {
                    assert(order[i] != index);
                    assert(is_occupied_with(
                        old_entries[order[i] as int],
                        link_before(order, i),
                        link_after(order, i),
                    ));
                }
            }
            assert(stack_lists_wf(entries, new_order, new_free));
            assert(self.wf());
            assert(self.origins() =~= new_order.map_values(|i: u32| entry_origin(entries[i as int])));
            assert(old(self).origins() =~= order.map_values(|i: u32| entry_origin(old_entries[i as int])));
        }
        Ok(index)
    }

    /// Releases the active borrow `index` and returns the origin under which
    /// it was granted. The index becomes the first to be reused.
    pub fn release(&mut self, index: u32) -> (r: Origin)
        requires
            old(self).wf(),
            old(self).is_active(index),
        ensures
            Self::release_post(*old(self), *final(self), index, r),
    {
        let ghost old_entries = self.entries@;
        let ghost order = self.order@;
        let ghost free = self.free@;
        let ghost k = order.index_of(index);
        proof {
            lemma_neighbours(old_entries, order, free, k);
        }
        let (previous, next, origin) = match self.entries[index as usize] {
            BorrowEntry::Occupied { previous, next, origin } => (previous, next, origin),
            BorrowEntry::Vacant(..) => (NO_ENTRY, NO_ENTRY, Origin::nil()),
        };
        let old_next = self.next;
        self.entries.set(index as usize, BorrowEntry::Vacant(old_next));
        if index == self.last {
            self.last = previous;
        }
        if (previous as usize) < self.entries.len() {
            match self.entries[previous as usize] {
                BorrowEntry::Occupied { previous: before, origin: previous_origin, .. } => {
                    self.entries.set(
                        previous as usize,
                        BorrowEntry::Occupied { previous: before, next, origin: previous_origin },
                    );
                },
                BorrowEntry::Vacant(..) => {},
            }
        }
        if (next as usize) < self.entries.len() {
            match self.entries[next as usize] {
                BorrowEntry::Occupied { next: after, origin: next_origin, .. } => {
                    self.entries.set(
                        next as usize,
                        BorrowEntry::Occupied { previous, next: after, origin: next_origin },
                    );
                },
                BorrowEntry::Vacant(..) => {},
            }
        }
        self.next = index;
        proof {
            self.order@ = order.remove(k);
            self.free@ = seq![index] + free;
        }
        proof {
            let entries = self.entries@;
            assert forall|x: int|
                0 <= x < entries.len() && x != index && x != previous && x != next implies entries[x]
                == old_entries[x] by {}
            lemma_release_keeps_wf(old_entries, entries, order, free, k, old_next);
            assert(self.origins() =~= order.remove(k).map_values(|i: u32| entry_origin(entries[i as int])));
            assert(old(self).origins() =~= order.map_values(|i: u32| entry_origin(old_entries[i as int])));
            assert(self.last == (if order.remove(k).len() > 0 {
                order.remove(k).last()
            } else {
                NO_ENTRY
            }));
        }
        origin
    }

    proof fn lemma_disjoint(&self)
        requires
            self.wf(),
        ensures
            forall|i: int, j: int|
                0 <= i < self.order@.len() && 0 <= j < self.free@.len() ==> #[trigger] self.order@[i]
                    != #[trigger] self.free@[j],
    {
        assert forall|i: int, j: int|
            0 <= i < self.order@.len() && 0 <= j < self.free@.len() implies #[trigger] self.order@[i]
            != #[trigger] self.free@[j] by {
            reveal(stack_lists_wf);
            let order = self.order@;
            let free = self.free@;
            assert(is_occupied_with(self.entries@[order[i] as int], link_before(order, i), link_after(order, i)));
            assert(is_vacant_with(
                self.entries@[free[j] as int],
                if j + 1 < free.len() { free[j + 1] } else { self.entries@.len() as u32 },
            ));
        }
    }

    /// Whether no borrow is active.
    pub fn is_empty(&self) -> (r: bool)
        requires
            self.wf(),
        ensures
            r == (self.active().len() == 0),
    {
        proof {
            self.lemma_bounds();
        }
        self.last >= self.entries.len() as u32
    }
}

} // verus!

verus! {

/// The borrowing state of one memory allocation.
///
/// A value reference ("ValueRef") gives read access to the data, a value
/// mutation ("ValueMut") gives exclusive write access; place references and
/// place mutations ("PlaceRef", "PlaceMut") grant access to the memory
/// location of the data without dereferencing it.
pub struct BorrowTable {
    value_refs: BorrowStack,
    value_mut: Option<Origin>,
    place_refs: BorrowStack,
    place_muts: BorrowStack,
}

impl BorrowTable {
    /// The active value references.
    pub closed spec fn value_refs(&self) -> BorrowStack {
        self.value_refs
    }

    /// The active value mutation, if any, by its origin.
    pub closed spec fn value_mut(&self) -> Option<Origin> {
        self.value_mut
    }

    /// The active place references.
    pub closed spec fn place_refs(&self) -> BorrowStack {
        self.place_refs
    }

    /// The active place mutations.
    pub closed spec fn place_muts(&self) -> BorrowStack {
        self.place_muts
    }

    pub open spec fn wf(&self) -> bool {
        &&& self.value_refs().wf()
        &&& self.place_refs().wf()
        &&& self.place_muts().wf()
    }

    /// No access of any kind is granted.
    pub open spec fn is_free(&self) -> bool {
        &&& self.value_refs().active().len() == 0
        &&& self.value_mut() is None
        &&& self.place_refs().active().len() == 0
        &&& self.place_muts().active().len() == 0
    }

    /// A table without any granted access.
    pub fn new() -> (t: Self)
        ensures
            t.wf(),
            t.is_free(),
            t.value_refs().slots() == 0,
            t.place_refs().slots() == 0,
            t.place_muts().slots() == 0,
    {
        BorrowTable {
            value_refs: BorrowStack::new(),
            value_mut: None,
            place_refs: BorrowStack::new(),
            place_muts: BorrowStack::new(),
        }
    }

    /// How [BorrowTable::grant_value_ref] changes the table `t0` into `t1`.
    pub open spec fn grant_value_ref_post(t0: Self, t1: Self, origin: Origin, r: RuntimeResult<u32>) -> bool {
        match (t0.value_mut(), t0.place_muts().newest()) {
            (Some(cause), _) | (None, Some(cause)) => {
                &&& r == Err::<u32, RuntimeError>(
                    RuntimeError::WriteToRead { access_origin: origin, borrow_origin: cause },
                )
                &&& t1 == t0
            },
            (None, None) => {
                &&& BorrowStack::occupy_post(t0.value_refs(), t1.value_refs(), origin, r)
                &&& t1.value_mut() == t0.value_mut()
                &&& t1.place_refs() == t0.place_refs()
                &&& t1.place_muts() == t0.place_muts()
            },
        }
    }

    /// How [BorrowTable::grant_value_mut] changes the table `t0` into `t1`.
    pub open spec fn grant_value_mut_post(t0: Self, t1: Self, origin: Origin, r: RuntimeResult<u32>) -> bool {
        match (
            t0.value_refs().newest(),
            t0.place_refs().newest(),
            t0.place_muts().newest(),
            t0.value_mut(),
        ) {
            (Some(cause), _, _, _) | (None, Some(cause), _, _) => {
                &&& r == Err::<u32, RuntimeError>(
                    RuntimeError::ReadToWrite { access_origin: origin, borrow_origin: cause },
                )
                &&& t1 == t0
            },
            (None, None, Some(cause), _) | (None, None, None, Some(cause)) => {
                &&& r == Err::<u32, RuntimeError>(
                    RuntimeError::WriteToWrite { access_origin: origin, borrow_origin: cause },
                )
                &&& t1 == t0
            },
            (None, None, None, None) => {
                &&& r == Ok::<u32, RuntimeError>(0)
                &&& t1.value_mut() == Some(origin)
                &&& t1.value_refs() == t0.value_refs()
                &&& t1.place_refs() == t0.place_refs()
                &&& t1.place_muts() == t0.place_muts()
            },
        }
    }

    /// How [BorrowTable::grant_place_ref] changes the table `t0` into `t1`.
    pub open spec fn grant_place_ref_post(t0: Self, t1: Self, origin: Origin, r: RuntimeResult<u32>) -> bool {
        match t0.value_mut() {
            Some(cause) => {
                &&& r == Err::<u32, RuntimeError>(
                    RuntimeError::WriteToRead { access_origin: origin, borrow_origin: cause },
                )
                &&& t1 == t0
            },
            None => {
                &&& BorrowStack::occupy_post(t0.place_refs(), t1.place_refs(), origin, r)
                &&& t1.value_mut() == t0.value_mut()
                &&& t1.value_refs() == t0.value_refs()
                &&& t1.place_muts() == t0.place_muts()
            },
        }
    }

    /// How [BorrowTable::grant_place_mut] changes the table `t0` into `t1`.
    pub open spec fn grant_place_mut_post(t0: Self, t1: Self, origin: Origin, r: RuntimeResult<u32>) -> bool {
        match (t0.value_mut(), t0.value_refs().newest()) {
            (Some(cause), _) => {
                &&& r == Err::<u32, RuntimeError>(
                    RuntimeError::WriteToWrite { access_origin: origin, borrow_origin: cause },
                )
                &&& t1 == t0
            },
            (None, Some(cause)) => {
                &&& r == Err::<u32, RuntimeError>(
                    RuntimeError::ReadToWrite { access_origin: origin, borrow_origin: cause },
                )
                &&& t1 == t0
            },
            (None, None) => {
                &&& BorrowStack::occupy_post(t0.place_muts(), t1.place_muts(), origin, r)
                &&& t1.value_mut() == t0.value_mut()
                &&& t1.value_refs() == t0.value_refs()
                &&& t1.place_refs() == t0.place_refs()
            },
        }
    }

    /// Grants read access to the data, unless the data is being written.
    pub fn grant_value_ref(&mut self, origin: Origin) -> (r: RuntimeResult<u32>)
        requires
            old(self).wf(),
        ensures
            final(self).wf(),
            Self::grant_value_ref_post(*old(self), *final(self), origin, r),
    {
        if let Some(cause) = self.value_mut {
            return Err(RuntimeError::WriteToRead { access_origin: origin, borrow_origin: cause });
        }
        if let Some(cause) = self.place_muts.last() {
            return Err(RuntimeError::WriteToRead { access_origin: origin, borrow_origin: cause });
        }
        self.value_refs.occupy(origin)
    }

    /// Grants exclusive write access to the data, unless the data or its
    /// place is borrowed in any way.
    pub fn grant_value_mut(&mut self, origin: Origin) -> (r: RuntimeResult<u32>)
        requires
            old(self).wf(),
        ensures
            final(self).wf(),
            Self::grant_value_mut_post(*old(self), *final(self), origin, r),
    {
        if let Some(cause) = self.value_refs.last() {
            return Err(RuntimeError::ReadToWrite { access_origin: origin, borrow_origin: cause });
        }
        if let Some(cause) = self.place_refs.last() {
            return Err(RuntimeError::ReadToWrite { access_origin: origin, borrow_origin: cause });
        }
        if let Some(cause) = self.place_muts.last() {
            return Err(RuntimeError::WriteToWrite { access_origin: origin, borrow_origin: cause });
        }
        if let Some(cause) = self.value_mut {
            return Err(RuntimeError::WriteToWrite { access_origin: origin, borrow_origin: cause });
        }
        self.value_mut = Some(origin);
        Ok(0)
    }

    /// Grants access to the place of the data for reading, unless the data
    /// is being written.
    pub fn grant_place_ref(&mut self, origin: Origin) -> (r: RuntimeResult<u32>)
        requires
            old(self).wf(),
        ensures
            final(self).wf(),
            Self::grant_place_ref_post(*old(self), *final(self), origin, r),
    {
        if let Some(cause) = self.value_mut {
            return Err(RuntimeError::WriteToRead { access_origin: origin, borrow_origin: cause });
        }
        self.place_refs.occupy(origin)
    }

    /// Grants access to the place of the data for writing, unless the data
    /// is being read or written.
    pub fn grant_place_mut(&mut self, origin: Origin) -> (r: RuntimeResult<u32>)
        requires
            old(self).wf(),
        ensures
            final(self).wf(),
            Self::grant_place_mut_post(*old(self), *final(self), origin, r),
    {
        if let Some(cause) = self.value_mut {
            return Err(RuntimeError::WriteToWrite { access_origin: origin, borrow_origin: cause });
        }
        if let Some(cause) = self.value_refs.last() {
            return Err(RuntimeError::ReadToWrite { access_origin: origin, borrow_origin: cause });
        }
        self.place_muts.occupy(origin)
    }

    /// Releases the value reference `index`.
    pub fn release_value_ref(&mut self, index: u32)
        requires
            old(self).wf(),
            old(self).value_refs().is_active(index),
        ensures
            final(self).wf(),
            BorrowStack::release_post(
                old(self).value_refs(),
                final(self).value_refs(),
                index,
                old(self).value_refs().origin_of(index),
            ),
            final(self).value_mut() == old(self).value_mut(),
            final(self).place_refs() == old(self).place_refs(),
            final(self).place_muts() == old(self).place_muts(),
    {
        let _ = self.value_refs.release(index);
    }

    /// Releases the value mutation.
    pub fn release_value_mut(&mut self, index: u32)
        requires
            old(self).wf(),
            old(self).value_mut() is Some,
        ensures
            final(self).wf(),
            final(self).value_mut() is None,
            final(self).value_refs() == old(self).value_refs(),
            final(self).place_refs() == old(self).place_refs(),
            final(self).place_muts() == old(self).place_muts(),
    {
        self.value_mut = None;
    }

    /// Releases the place reference `index`.
    pub fn release_place_ref(&mut self, index: u32)
        requires
            old(self).wf(),
            old(self).place_refs().is_active(index),
        ensures
            final(self).wf(),
            BorrowStack::release_post(
                old(self).place_refs(),
                final(self).place_refs(),
                index,
                old(self).place_refs().origin_of(index),
            ),
            final(self).value_mut() == old(self).value_mut(),
            final(self).value_refs() == old(self).value_refs(),
            final(self).place_muts() == old(self).place_muts(),
    {
        let _ = self.place_refs.release(index);
    }

    /// Releases the place mutation `index`.
    pub fn release_place_mut(&mut self, index: u32)
        requires
            old(self).wf(),
            old(self).place_muts().is_active(index),
        ensures
            final(self).wf(),
            BorrowStack::release_post(
                old(self).place_muts(),
                final(self).place_muts(),
                index,
                old(self).place_muts().origin_of(index),
            ),
            final(self).value_mut() == old(self).value_mut(),
            final(self).value_refs() == old(self).value_refs(),
            final(self).place_refs() == old(self).place_refs(),
    {
        let _ = self.place_muts.release(index);
    }

    /// The origin of the value reference `index`.
    pub fn get_value_ref(&self, index: u32) -> (r: Origin)
        requires
            self.wf(),
            self.value_refs().is_active(index),
        ensures
            r == self.value_refs().origin_of(index),
    {
        self.value_refs.get(index)
    }

    /// The origin of the value mutation.
    pub fn get_value_mut(&self, index: u32) -> (r: Origin)
        requires
            self.value_mut() is Some,
        ensures
            Some(r) == self.value_mut(),
    {
        match self.value_mut {
            Some(origin) => origin,
            None => Origin::nil(),
        }
    }

    /// The origin of the place reference `index`.
    pub fn get_place_ref(&self, index: u32) -> (r: Origin)
        requires
            self.wf(),
            self.place_refs().is_active(index),
        ensures
            r == self.place_refs().origin_of(index),
    {
        self.place_refs.get(index)
    }

    /// The origin of the place mutation `index`.
    pub fn get_place_mut(&self, index: u32) -> (r: Origin)
        requires
            self.wf(),
            self.place_muts().is_active(index),
        ensures
            r == self.place_muts().origin_of(index),
    {
        self.place_muts.get(index)
    }
}

} // verus!

verus! {

/// Granting a borrow and releasing it again restores the active borrows;
/// when the stack had a vacant slot, its reuse order is restored too.
pub proof fn law_grant_release_restores(
    s0: BorrowStack,
    s1: BorrowStack,
    s2: BorrowStack,
    origin: Origin,
    index: u32,
    released: Origin,
)
    requires
        s0.wf(),
        BorrowStack::occupy_post(s0, s1, origin, Ok(index)),
        BorrowStack::release_post(s1, s2, index, released),
    ensures
        released == origin,
        s2.active() == s0.active(),
        s2.origins() == s0.origins(),
        s0.vacant().len() > 0 ==> s2.vacant() == s0.vacant(),
{
    s0.lemma_bounds();
    s1.lemma_bounds();
    let k = s1.active().index_of(index);
    assert(s1.active()[s0.active().len() as int] == index);
    assert(s1.active().no_duplicates());
    assert(k == s0.active().len());
    assert(s1.active().remove(k) =~= s0.active());
    assert(s1.origins().remove(k) =~= s0.origins());
    assert(s1.origins()[k] == origin);
    assert(s1.origins()[k] == s1.origin_of(index));
    if s0.vacant().len() > 0 {
        assert(seq![index] + s0.vacant().drop_first() =~= s0.vacant());
    }
}

/// A released index is the index of the next grant.
pub proof fn law_released_index_is_reused(
    s0: BorrowStack,
    s1: BorrowStack,
    s2: BorrowStack,
    index: u32,
    released: Origin,
    origin: Origin,
    r: RuntimeResult<u32>,
)
    requires
        s0.wf(),
        s0.is_active(index),
        BorrowStack::release_post(s0, s1, index, released),
        BorrowStack::occupy_post(s1, s2, origin, r),
    ensures
        r == Ok::<u32, RuntimeError>(index),
{
    s0.lemma_bounds();
    s1.lemma_bounds();
}

/// No more than [BORROW_LIMIT] borrows are ever active at the same time; a
/// grant beyond that fails and changes nothing.
pub proof fn law_borrow_limit(s0: BorrowStack, s1: BorrowStack, origin: Origin, r: RuntimeResult<u32>)
    requires
        s0.wf(),
        BorrowStack::occupy_post(s0, s1, origin, r),
    ensures
        s1.active().len() <= BORROW_LIMIT,
        s0.active().len() == BORROW_LIMIT ==> r is Err && s1.origins() == s0.origins(),
        s0.active().len() < BORROW_LIMIT ==> r is Ok,
{
    s0.lemma_bounds();
    s1.lemma_bounds();
}

/// While the data is being read, it cannot be written: a write grant fails
/// and names the read as its cause.
pub proof fn law_read_blocks_write(
    t0: BorrowTable,
    t1: BorrowTable,
    t2: BorrowTable,
    read: Origin,
    write: Origin,
    index: u32,
    r: RuntimeResult<u32>,
)
    requires
        t0.wf(),
        BorrowTable::grant_value_ref_post(t0, t1, read, Ok(index)),
        BorrowTable::grant_value_mut_post(t1, t2, write, r),
    ensures
        r == Err::<u32, RuntimeError>(RuntimeError::ReadToWrite { access_origin: write, borrow_origin: read }),
        t2 == t1,
{
    t0.value_refs().lemma_bounds();
    assert(t1.value_refs().active().last() == index);
    assert(t1.value_refs().origins().last() == read);
}

/// While the data is being written, it can be neither read nor written
/// through another grant; the errors name the write as their cause.
pub proof fn law_write_is_exclusive(
    t0: BorrowTable,
    t1: BorrowTable,
    t2: BorrowTable,
    t3: BorrowTable,
    t4: BorrowTable,
    write: Origin,
    other: Origin,
    r_read: RuntimeResult<u32>,
    r_write: RuntimeResult<u32>,
    r_place: RuntimeResult<u32>,
)
    requires
        t0.wf(),
        BorrowTable::grant_value_mut_post(t0, t1, write, Ok(0)),
        BorrowTable::grant_value_ref_post(t1, t2, other, r_read),
        BorrowTable::grant_value_mut_post(t1, t3, other, r_write),
        BorrowTable::grant_place_ref_post(t1, t4, other, r_place),
    ensures
        r_read == Err::<u32, RuntimeError>(RuntimeError::WriteToRead { access_origin: other, borrow_origin: write }),
        r_write == Err::<u32, RuntimeError>(RuntimeError::WriteToWrite { access_origin: other, borrow_origin: write }),
        r_place == Err::<u32, RuntimeError>(RuntimeError::WriteToRead { access_origin: other, borrow_origin: write }),
{
}

/// Reads are shared: on a table with no grants, two reads both succeed, with
/// different indices.
pub proof fn law_reads_are_shared(
    t0: BorrowTable,
    t1: BorrowTable,
    t2: BorrowTable,
    first: Origin,
    second: Origin,
    r1: RuntimeResult<u32>,
    r2: RuntimeResult<u32>,
)
    requires
        t0.wf(),
        t0.is_free(),
        BorrowTable::grant_value_ref_post(t0, t1, first, r1),
        BorrowTable::grant_value_ref_post(t1, t2, second, r2),
    ensures
        r1 is Ok,
        r2 is Ok,
        r1 != r2,
{
    t0.value_refs().lemma_bounds();
    t1.value_refs().lemma_bounds();
    let s0 = t0.value_refs();
    let s1 = t1.value_refs();
    assert(s1.active()[0] == s0.next_index());
    assert(s1.next_index() != s0.next_index()) by {
        if s1.vacant().len() > 0 {
            assert(s1.vacant()[0] == s0.vacant()[1]);
            assert(s0.vacant().no_duplicates());
        }
    }
}

} // verus!

verus! {

/// While the place of the data is being read, and no value read is active,
/// the data cannot be written: the error names the place read as its cause
/// and the table does not change.
pub proof fn law_place_read_blocks_write(
    t0: BorrowTable,
    t1: BorrowTable,
    t2: BorrowTable,
    read: Origin,
    write: Origin,
    index: u32,
    r: RuntimeResult<u32>,
)
    requires
        t0.wf(),
        t0.value_refs().active().len() == 0,
        BorrowTable::grant_place_ref_post(t0, t1, read, Ok(index)),
        BorrowTable::grant_value_mut_post(t1, t2, write, r),
    ensures
        r == Err::<u32, RuntimeError>(RuntimeError::ReadToWrite { access_origin: write, borrow_origin: read }),
        t2 == t1,
{
    t0.place_refs().lemma_bounds();
    assert(t1.place_refs().active().last() == index);
    assert(t1.place_refs().origins().last() == read);
}

/// While any read of the data or of its place is active, writing the data
/// is refused with a read-to-write error; otherwise an active write of the
/// data or of its place is the cause, and with none of these the write is
/// granted.
pub proof fn law_write_refusals(t0: BorrowTable, t1: BorrowTable, origin: Origin, r: RuntimeResult<u32>)
    requires
        t0.wf(),
        BorrowTable::grant_value_mut_post(t0, t1, origin, r),
    ensures
        t0.value_refs().active().len() > 0 || t0.place_refs().active().len() > 0 ==> (r matches Err(
            RuntimeError::ReadToWrite { access_origin, .. },
        ) && access_origin == origin),
        t0.value_refs().active().len() == 0 && t0.place_refs().active().len() == 0 && (
        t0.place_muts().active().len() > 0 || t0.value_mut() is Some) ==> (r matches Err(
            RuntimeError::WriteToWrite { access_origin, .. },
        ) && access_origin == origin),
        r is Ok <==> t0.value_refs().active().len() == 0 && t0.place_refs().active().len() == 0
            && t0.place_muts().active().len() == 0 && t0.value_mut() is None,
        r is Ok ==> t1.value_mut() == Some(origin),
        r is Err ==> t1 == t0,
{
}

} // verus!

verus! {

/// Reading the data is refused while the data or its place is being
/// written, naming the write (the data's write first, else the newest place
/// write); otherwise it is granted below the limit and recorded as the
/// newest read, with nothing else changed.
pub proof fn law_read_grants(t0: BorrowTable, t1: BorrowTable, origin: Origin, r: RuntimeResult<u32>)
    requires
        t0.wf(),
        BorrowTable::grant_value_ref_post(t0, t1, origin, r),
    ensures
        t0.value_mut() matches Some(w) ==> r == Err::<u32, RuntimeError>(
            RuntimeError::WriteToRead { access_origin: origin, borrow_origin: w },
        ),
        t0.value_mut() is None && t0.place_muts().active().len() > 0 ==> r == Err::<u32, RuntimeError>(
            RuntimeError::WriteToRead { access_origin: origin, borrow_origin: t0.place_muts().origins().last() },
        ),
        r is Ok <==> t0.value_mut() is None && t0.place_muts().active().len() == 0 && t0.value_refs().active().len()
            < BORROW_LIMIT,
        r is Ok ==> t1.value_refs().origins() == t0.value_refs().origins().push(origin),
        r is Err ==> t1.value_refs().origins() == t0.value_refs().origins(),
        t1.value_mut() == t0.value_mut(),
        t1.place_refs() == t0.place_refs(),
        t1.place_muts() == t0.place_muts(),
{
    t0.value_refs().lemma_bounds();
    t0.place_muts().lemma_bounds();
}

/// Reading the place of the data is refused only while the data is being
/// written, naming that write; otherwise it is granted below the limit and
/// recorded as the newest place read, whatever reads or place writes are
/// active.
pub proof fn law_place_read_grants(t0: BorrowTable, t1: BorrowTable, origin: Origin, r: RuntimeResult<u32>)
    requires
        t0.wf(),
        BorrowTable::grant_place_ref_post(t0, t1, origin, r),
    ensures
        t0.value_mut() matches Some(w) ==> r == Err::<u32, RuntimeError>(
            RuntimeError::WriteToRead { access_origin: origin, borrow_origin: w },
        ),
        r is Ok <==> t0.value_mut() is None && t0.place_refs().active().len() < BORROW_LIMIT,
        r is Ok ==> t1.place_refs().origins() == t0.place_refs().origins().push(origin),
        r is Err ==> t1.place_refs().origins() == t0.place_refs().origins(),
        t1.value_mut() == t0.value_mut(),
        t1.value_refs() == t0.value_refs(),
        t1.place_muts() == t0.place_muts(),
{
    t0.place_refs().lemma_bounds();
}

/// Writing the place of the data is refused while the data is being
/// written (write-to-write) or read (read-to-write, naming the newest
/// read); otherwise it is granted below the limit and recorded as the
/// newest place write, whatever place reads are active.
pub proof fn law_place_write_grants(t0: BorrowTable, t1: BorrowTable, origin: Origin, r: RuntimeResult<u32>)
    requires
        t0.wf(),
        BorrowTable::grant_place_mut_post(t0, t1, origin, r),
    ensures
        t0.value_mut() matches Some(w) ==> r == Err::<u32, RuntimeError>(
            RuntimeError::WriteToWrite { access_origin: origin, borrow_origin: w },
        ),
        t0.value_mut() is None && t0.value_refs().active().len() > 0 ==> r == Err::<u32, RuntimeError>(
            RuntimeError::ReadToWrite { access_origin: origin, borrow_origin: t0.value_refs().origins().last() },
        ),
        r is Ok <==> t0.value_mut() is None && t0.value_refs().active().len() == 0 && t0.place_muts().active().len()
            < BORROW_LIMIT,
        r is Ok ==> t1.place_muts().origins() == t0.place_muts().origins().push(origin),
        r is Err ==> t1.place_muts().origins() == t0.place_muts().origins(),
        t1.value_mut() == t0.value_mut(),
        t1.value_refs() == t0.value_refs(),
        t1.place_refs() == t0.place_refs(),
{
    t0.value_refs().lemma_bounds();
    t0.place_muts().lemma_bounds();
}

} // verus!
