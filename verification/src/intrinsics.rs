use vstd::prelude::*;

use crate::cell::{take_post, takeable, Cell};
use crate::error::{RuntimeError, RuntimeResult};
use crate::invoke::Arg;
use crate::memory::{same_borrows, value_mut_refusal, MemorySlice, SliceInfo};
use crate::origin::{Origin, RustOrigin};
use crate::ty::{TypeMeta, NIL_TYPE};

verus! {

/// A marker of the types registered in the Script Engine.
pub trait RegisteredType: Send + Sync + 'static {}

/// The declaration that a type exports no operators.
#[derive(Clone, Copy, Debug)]
pub struct NoneOperator {
    pub origin: RustOrigin,
}

/// How the canonical assignment of `rhs` to `lhs`, values of type `ty`,
/// ends when the right-hand side's allocation has the borrowing state `rt`
/// and the left-hand side's `lt`: the right-hand side must be a value of
/// the type that can be taken out (see [take_post]; `sole` and `clones` as
/// there), and the left-hand side a single writeable element of the type
/// that can be borrowed for writing.
pub open spec fn assign_post(
    lhs: Arg,
    rhs: Arg,
    rt: crate::borrow::BorrowTable,
    lt: crate::borrow::BorrowTable,
    ty: TypeMeta,
    sole: bool,
    clones: bool,
    r: RuntimeResult<()>,
) -> bool {
    if !take_post(rhs.data.target(), rt, rhs.origin, ty, true, sole, clones, Ok(())) {
        take_post(rhs.data.target(), rt, rhs.origin, ty, true, sole, clones, r)
    } else if lhs.data.spec_length() != 1 {
        r == Err::<(), RuntimeError>(
            RuntimeError::NonSingleton { access_origin: lhs.origin, actual: lhs.data.spec_length() },
        )
    } else {
        let info = lhs.data.target().unwrap();
        if info.ty.id != ty.id {
            r matches Err(RuntimeError::TypeMismatch { access_origin, data_type, expected_types })
                && access_origin == lhs.origin && data_type == info.ty && expected_types@ == seq![ty]
        } else if !(info.mutable && !info.unicode) {
            r == Err::<(), RuntimeError>(
                RuntimeError::ReadOnly { access_origin: lhs.origin, data_origin: info.origin },
            )
        } else if info.ty.size == 0 {
            r is Ok
        } else {
            match value_mut_refusal(lt, lhs.origin) {
                Some(e) => r == Err::<(), RuntimeError>(e),
                None => r is Ok,
            }
        }
    }
}

/// The canonical assignment operator: checks that the value of `rhs`,
/// whose allocation is `rhs_slice`, can be taken out as a single value of
/// type `ty` (`sole` tells whether `rhs` is the only reference to data the
/// Script Engine owns, `clones` whether the type implements the clone
/// operator), then borrows the single element of `lhs`, whose allocation
/// is `lhs_slice`, for writing, and gives the access back once the host has
/// written the value. When the right-hand side cannot be taken, the
/// left-hand side is not touched.
pub fn script_assign(
    ty: TypeMeta,
    lhs: Arg,
    rhs: Arg,
    sole: bool,
    clones: bool,
    rhs_slice: &mut MemorySlice,
    lhs_slice: &mut MemorySlice,
) -> (r: RuntimeResult<()>)
    requires
        old(rhs_slice).wf(),
        old(lhs_slice).wf(),
        rhs.data.target() matches Some(info) ==> old(rhs_slice).info() == info && takeable(info, sole),
        lhs.data.target() matches Some(info) ==> old(lhs_slice).info() == info,
    ensures
        final(rhs_slice).wf(),
        final(rhs_slice).info() == old(rhs_slice).info(),
        same_borrows(old(rhs_slice).table(), final(rhs_slice).table()),
        final(lhs_slice).wf(),
        final(lhs_slice).info() == old(lhs_slice).info(),
        same_borrows(old(lhs_slice).table(), final(lhs_slice).table()),
        r is Err && !take_post(rhs.data.target(), old(rhs_slice).table(), rhs.origin, ty, true, sole, clones, Ok(()))
            ==> final(lhs_slice).table() == old(lhs_slice).table(),
        assign_post(lhs, rhs, old(rhs_slice).table(), old(lhs_slice).table(), ty, sole, clones, r),
{
    match rhs.data.check_take(rhs.origin, ty, sole, clones, rhs_slice) {
        Ok(()) => {},
        Err(e) => return Err(e),
    }
    let ghost t0 = lhs_slice.table();
    proof {
        t0.value_refs().lemma_bounds();
        t0.place_refs().lemma_bounds();
        t0.place_muts().lemma_bounds();
    }
    let grant = match lhs.data.borrow_mut(lhs.origin, ty, lhs_slice) {
        Ok(grant) => grant,
        Err(e) => return Err(e),
    };
    lhs_slice.release_grant(grant);
    Ok(())
}

/// The total number of elements of the first `n` of `items`.
pub open spec fn concat_len(items: Seq<Arg>, n: int) -> nat
    decreases n,
{
    if n <= 0 {
        0
    } else {
        concat_len(items, n - 1) + items[n - 1].data.spec_length() as nat
    }
}

/// The number of elements grows with the number of items counted.
proof fn lemma_concat_len_grows(items: Seq<Arg>, m: int, n: int)
    requires
        m <= n,
    ensures
        concat_len(items, m) <= concat_len(items, n),
    decreases n - m,
{
    if m < n {
        lemma_concat_len_grows(items, m, n - 1);
    }
}

/// Whether the data of the item `item`, whose allocation has the borrowing
/// state `t`, cannot be taken out as values of type `ty` (see
/// [take_post]); Nil items are skipped and never fail.
pub open spec fn refused(item: Arg, t: crate::borrow::BorrowTable, ty: TypeMeta, sole: bool, clones: bool) -> bool {
    !item.data.spec_is_nil() && !take_post(item.data.target(), t, item.origin, ty, false, sole, clones, Ok(()))
}

/// The items `after` are the items `before` with the data of the first `n`
/// taken out (Nil left in its place) and the others as they were.
pub open spec fn taken_out(before: Seq<Arg>, after: Seq<Arg>, n: int) -> bool {
    &&& after.len() == before.len()
    &&& forall|j: int|
        0 <= j < n ==> #[trigger] after[j].origin == before[j].origin && after[j].data.spec_is_nil()
    &&& forall|j: int| n <= j < before.len() ==> #[trigger] after[j] == before[j]
}

/// The allocations `after` keep the descriptions and the active borrows of
/// the allocations `before`.
pub open spec fn same_slices(before: Seq<MemorySlice>, after: Seq<MemorySlice>) -> bool {
    &&& after.len() == before.len()
    &&& forall|j: int|
        0 <= j < before.len() ==> (#[trigger] after[j]).wf() && after[j].info() == before[j].info()
            && same_borrows(before[j].table(), after[j].table())
}

/// The canonical array constructor: concatenates the data of `items` into
/// one array of elements of type `ty`. The allocation of the data of
/// `items[i]` is `slices[i]`, and `sole[i]` tells whether that item is the
/// only reference to data the Script Engine owns; `clones` tells whether
/// the type implements the clone operator. Nil items are skipped; the data
/// of the others is taken out of them (see [take_post]), leaving Nil, and
/// appended, until the data of an item cannot be taken, which is the error
/// of that item. An empty result is Nil; otherwise the Script Engine owns
/// the new array, whose cell and allocation are returned.
pub fn script_concat(
    origin: Origin,
    ty: TypeMeta,
    items: &mut [Arg],
    sole: &Vec<bool>,
    clones: bool,
    slices: &mut Vec<MemorySlice>,
) -> (r: RuntimeResult<(Cell, Option<MemorySlice>)>)
    requires
        concat_len(old(items)@, old(items)@.len() as int) <= usize::MAX,
        sole@.len() == old(items)@.len(),
        old(slices)@.len() == old(items)@.len(),
        forall|i: int|
            0 <= i < old(items)@.len() ==> (#[trigger] old(slices)@[i]).wf() && (old(items)@[i].data.target()
                matches Some(info) ==> old(slices)@[i].info() == info && takeable(info, sole@[i])),
    ensures
        same_slices(old(slices)@, final(slices)@),
        match r {
            Err(e) => exists|k: int|
                0 <= k < old(items)@.len() && #[trigger] refused(
                    old(items)@[k],
                    old(slices)@[k].table(),
                    ty,
                    sole@[k],
                    clones,
                ) && (forall|j: int|
                    0 <= j < k ==> !refused(old(items)@[j], old(slices)@[j].table(), ty, sole@[j], clones))
                    && taken_out(old(items)@, final(items)@, k + 1) && take_post(
                    old(items)@[k].data.target(),
                    old(slices)@[k].table(),
                    old(items)@[k].origin,
                    ty,
                    false,
                    sole@[k],
                    clones,
                    Err(e),
                ),
            Ok((c, s)) => {
                let total = concat_len(old(items)@, old(items)@.len() as int);
                &&& forall|j: int|
                    0 <= j < old(items)@.len() ==> !refused(
                        #[trigger] old(items)@[j],
                        old(slices)@[j].table(),
                        ty,
                        sole@[j],
                        clones,
                    )
                &&& taken_out(old(items)@, final(items)@, old(items)@.len() as int)
                &&& total == 0 || ty.id == NIL_TYPE ==> c.spec_is_nil() && s is None
                &&& total > 0 && ty.id != NIL_TYPE ==> (s matches Some(m) && m.wf() && m.table().is_free()
                    && m.info() == (SliceInfo {
                    unicode: false,
                    origin,
                    ty,
                    readable: true,
                    mutable: true,
                    length: total as usize,
                    owned: true,
                }) && c.target() == Some(m.info()))
            },
        },
{
    let mut total: usize = 0;
    let mut i: usize = 0;
    while i < items.len()
        invariant
            0 <= i <= items@.len(),
            items@.len() == old(items)@.len(),
            sole@.len() == old(items)@.len(),
            slices@.len() == old(items)@.len(),
            total == concat_len(old(items)@, i as int),
            concat_len(old(items)@, old(items)@.len() as int) <= usize::MAX,
            forall|j: int|
                0 <= j < i ==> !refused(#[trigger] old(items)@[j], old(slices)@[j].table(), ty, sole@[j], clones),
            taken_out(old(items)@, items@, i as int),
            same_slices(old(slices)@, slices@),
            forall|j: int| i <= j < old(items)@.len() ==> #[trigger] slices@[j] == old(slices)@[j],
            forall|j: int|
                0 <= j < old(items)@.len() ==> (#[trigger] old(slices)@[j]).wf() && (old(items)@[j].data.target()
                    matches Some(info) ==> old(slices)@[j].info() == info && takeable(info, sole@[j])),
        decreases items@.len() - i,
    {
        let item = items[i];
        proof {
            lemma_concat_len_grows(old(items)@, i + 1, old(items)@.len() as int);
        }
        if !item.data.is_nil() {
            items[i] = Arg::new(item.origin, Cell::nil());
            let taken = item.data.check_take_vec(item.origin, ty, sole[i], clones, &mut slices[i]);
            proof {
                assert(same_slices(old(slices)@, slices@));
            }
            match taken {
                Ok(()) => {},
                Err(e) => {
                    proof {
                        assert(refused(old(items)@[i as int], old(slices)@[i as int].table(), ty, sole@[i as int], clones));
                        assert(taken_out(old(items)@, items@, i + 1));
                    }
                    return Err(e);
                },
            }
            total = total + item.data.length();
        }
        proof {
            assert(taken_out(old(items)@, items@, i + 1));
        }
        i = i + 1;
    }
    if total == 0 {
        return Ok((Cell::nil(), None));
    }
    Cell::give_vec(origin, ty, total, total)
}

} // verus!

verus! {

/// The elements counted over items `s` then `t` are those of `s` and of
/// `t` together; a Nil item counts nothing.
pub proof fn law_concat_len_adds(s: Seq<Arg>, t: Seq<Arg>)
    ensures
        concat_len(s + t, (s + t).len() as int) == concat_len(s, s.len() as int) + concat_len(t, t.len() as int),
    decreases t.len(),
{
    if t.len() == 0 {
        assert(s + t =~= s);
    } else {
        law_concat_len_adds(s, t.drop_last());
        assert((s + t).drop_last() =~= s + t.drop_last());
        lemma_concat_len_prefix(s + t, (s + t).len() - 1);
        lemma_concat_len_prefix(t, t.len() - 1);
    }
}

/// Counting the first `n` items counts the items of the prefix of length
/// `n`.
proof fn lemma_concat_len_prefix(items: Seq<Arg>, n: int)
    requires
        0 <= n <= items.len(),
    ensures
        concat_len(items, n) == concat_len(items.subrange(0, n), n),
    decreases n,
{
    if n > 0 {
        lemma_concat_len_prefix(items, n - 1);
        lemma_concat_len_prefix(items.subrange(0, n), n - 1);
        assert(items.subrange(0, n).subrange(0, n - 1) =~= items.subrange(0, n - 1));
    }
}

/// A Nil item adds no elements.
pub proof fn law_nil_item_counts_nothing(items: Seq<Arg>, nil: Arg)
    requires
        nil.data.spec_is_nil(),
    ensures
        concat_len(items.push(nil), items.len() + 1int) == concat_len(items, items.len() as int),
{
    lemma_concat_len_prefix(items.push(nil), items.len() as int);
    assert(items.push(nil).subrange(0, items.len() as int) =~= items);
}

} // verus!
