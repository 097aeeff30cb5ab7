use vstd::prelude::*;

use vstd::utf8::{encode_scalar, encode_utf8};

use crate::error::{NumOperand, NumericOperationKind, RuntimeError, RuntimeResult};
use crate::origin::Origin;
use crate::range::IndexRange;
use crate::text::{decimal, push_decimal};
use crate::ty::TypeMeta;

verus! {

/// What an index operator selects: a range of elements, or the element at
/// an index.
#[derive(Clone, Copy, Debug)]
pub enum SliceBounds {
    Range(IndexRange),
    Index(usize),
}

impl SliceBounds {
    /// Whether the bounds select a single element.
    pub open spec fn is_index(self) -> bool {
        self is Index
    }

    /// The first selected position.
    pub open spec fn first(self) -> usize {
        match self {
            SliceBounds::Range(range) => range.start,
            SliceBounds::Index(index) => index,
        }
    }

    /// The position after the last selected one; an index selects up to
    /// the next position, which saturates at `usize::MAX`.
    pub open spec fn after(self) -> usize {
        match self {
            SliceBounds::Range(range) => range.end,
            SliceBounds::Index(index) => if index < usize::MAX {
                (index + 1) as usize
            } else {
                usize::MAX
            },
        }
    }
}

/// The number of bytes that the UTF-8 encoding of the first `k` characters
/// of `text` takes.
pub open spec fn byte_offset(text: Seq<char>, k: int) -> nat {
    encode_utf8(text.subrange(0, k)).len()
}

/// The byte range of the characters of `text` that `bounds` select, or the
/// error of bounds that do not fit the text.
pub open spec fn char_range_bytes(
    range_origin: Origin,
    text: Seq<char>,
    bounds: SliceBounds,
) -> RuntimeResult<IndexRange> {
    let first = bounds.first();
    let after = bounds.after();
    if first > after {
        Err(RuntimeError::MalformedRange { access_origin: range_origin, start_bound: first, end_bound: after })
    } else if first > text.len() || (bounds.is_index() && first == text.len()) {
        Err(RuntimeError::OutOfBounds { access_origin: range_origin, index: first, length: text.len() as usize })
    } else {
        Ok(IndexRange {
            start: byte_offset(text, first as int) as usize,
            end: byte_offset(text, if after < text.len() { after as int } else { text.len() as int }) as usize,
        })
    }
}

proof fn lemma_encode_push(s: Seq<char>, c: char)
    ensures
        encode_utf8(s.push(c)).len() == encode_utf8(s).len() + encode_scalar(c as u32).len(),
    decreases s.len(),
{
    if s.len() == 0 {
        assert(s.push(c).drop_first() =~= Seq::<char>::empty());
        assert(encode_utf8(Seq::<char>::empty()) =~= Seq::<u8>::empty());
        assert(encode_utf8(s) =~= Seq::<u8>::empty());
        assert(s.push(c)[0] == c);
    } else {
        assert(s.push(c).drop_first() =~= s.drop_first().push(c));
        assert(s.push(c)[0] == s[0]);
        lemma_encode_push(s.drop_first(), c);
    }
}

proof fn lemma_encode_prefix_grows(s: Seq<char>, j: int, k: int)
    requires
        0 <= j <= k <= s.len(),
    ensures
        byte_offset(s, j) <= byte_offset(s, k),
    decreases k - j,
{
    if j < k {
        lemma_encode_prefix_grows(s, j, k - 1);
        assert(s.subrange(0, k) =~= s.subrange(0, k - 1).push(s[k - 1]));
        lemma_encode_push(s.subrange(0, k - 1), s[k - 1]);
    }
}

/// The number of bytes of the UTF-8 encoding of `c`.
fn utf8_width(c: char) -> (w: usize)
    ensures
        w == encode_scalar(c as u32).len(),
{
    proof {
        vstd::utf8::char_is_scalar(c);
    }
    let v = c as u32;
    if v <= 0x7F {
        1
    } else if v <= 0x7FF {
        2
    } else if v <= 0xFFFF {
        3
    } else {
        4
    }
}

/// Turns the character positions that `bounds` select in `text` into the
/// byte range of those characters: an index selects one character, a range
/// that ends past the text is cut at its end. A range whose start exceeds
/// its end is malformed; a start past the text, or an index at its end, is
/// out of bounds.
pub fn string_range(range_origin: Origin, text: &str, bounds: SliceBounds) -> (r: RuntimeResult<
    IndexRange,
>)
    requires
        encode_utf8(text@).len() <= usize::MAX,
    ensures
        r == char_range_bytes(range_origin, text@, bounds),
{
    let (is_index, first, after) = match bounds {
        SliceBounds::Range(range) => (false, range.start, range.end),
        SliceBounds::Index(index) => (true, index, index.checked_add(1).unwrap_or(usize::MAX)),
    };
    if first > after {
        return Err(
            RuntimeError::MalformedRange {
                access_origin: range_origin,
                start_bound: first,
                end_bound: after,
            },
        );
    }
    let n = text.unicode_len();
    if first > n || (is_index && first == n) {
        return Err(RuntimeError::OutOfBounds { access_origin: range_origin, index: first, length: n });
    }
    let last = if after < n {
        after
    } else {
        n
    };
    let mut start: usize = 0;
    let mut offset: usize = 0;
    let mut k: usize = 0;
    proof {
        assert(text@.subrange(0, 0) =~= Seq::<char>::empty());
        assert(text@.subrange(0, n as int) =~= text@);
    }
    while k < last
        invariant
            n == text@.len(),
            first <= last <= n,
            k <= last,
            encode_utf8(text@).len() <= usize::MAX,
            byte_offset(text@, n as int) == encode_utf8(text@).len(),
            offset == byte_offset(text@, k as int),
            k > first ==> start == byte_offset(text@, first as int),
        decreases last - k,
    {
        if k == first {
            start = offset;
        }
        let c = text.get_char(k);
        proof {
            assert(text@.subrange(0, k + 1) =~= text@.subrange(0, k as int).push(c));
            lemma_encode_push(text@.subrange(0, k as int), c);
            lemma_encode_prefix_grows(text@, k + 1, n as int);
        }
        offset = offset + utf8_width(c);
        k = k + 1;
    }
    if first == last {
        start = offset;
    }
    Ok(IndexRange { start, end: offset })
}

} // verus!

verus! {

/// A bound of a range of positions, as `std::ops::Bound` describes it.
#[derive(Clone, Copy, Debug)]
pub enum RangeBound {
    Included(usize),
    Excluded(usize),
    Unbounded,
}

/// Whether `e` is the error of a bound that cannot be moved by one without
/// overflowing `usize`.
pub open spec fn is_bound_overflow(e: RuntimeError, origin: Origin, bound: usize) -> bool {
    match e {
        RuntimeError::NumericOperation { invoke_origin, kind, lhs, rhs, target } => {
            &&& invoke_origin == origin
            &&& kind == NumericOperationKind::Add
            &&& lhs.ty == TypeMeta::spec_usize()
            &&& lhs.value@ == decimal(bound as nat)
            &&& rhs matches Some(one) && one.ty == TypeMeta::spec_usize() && one.value@ == "1"@
            &&& target == TypeMeta::spec_usize()
        },
        _ => false,
    }
}

/// The first position that a start bound admits, if it has one.
pub open spec fn start_position(bound: RangeBound) -> Option<usize> {
    match bound {
        RangeBound::Included(b) => Some(b),
        RangeBound::Excluded(b) => if b < usize::MAX {
            Some((b + 1) as usize)
        } else {
            None
        },
        RangeBound::Unbounded => Some(0),
    }
}

/// The position after the last one that an end bound admits, if it has
/// one, in a sequence of `length` elements.
pub open spec fn end_position(bound: RangeBound, length: usize) -> Option<usize> {
    match bound {
        RangeBound::Included(b) => if b < usize::MAX {
            Some((b + 1) as usize)
        } else {
            None
        },
        RangeBound::Excluded(b) => Some(b),
        RangeBound::Unbounded => Some(length),
    }
}

/// The bound value that overflows when it is moved by one.
pub open spec fn bound_value(bound: RangeBound) -> usize {
    match bound {
        RangeBound::Included(b) => b,
        RangeBound::Excluded(b) => b,
        RangeBound::Unbounded => 0,
    }
}

fn overflow_error(origin: Origin, bound: usize) -> (e: RuntimeError)
    ensures
        is_bound_overflow(e, origin, bound),
{
    let mut value = String::new();
    push_decimal(&mut value, bound);
    let mut one = String::new();
    one.append("1");
    RuntimeError::NumericOperation {
        invoke_origin: origin,
        kind: NumericOperationKind::Add,
        lhs: NumOperand { ty: TypeMeta::of_usize(), value },
        rhs: Some(NumOperand { ty: TypeMeta::of_usize(), value: one }),
        target: TypeMeta::of_usize(),
    }
}

/// The half-open range of positions between `start` and `end` in a
/// sequence of `length` elements. A bound that cannot be moved by one
/// without overflowing is an error of that numeric operation; a start after
/// the end is a malformed range.
pub fn resolve_bounds(origin: Origin, start: RangeBound, end: RangeBound, length: usize) -> (r:
    RuntimeResult<IndexRange>)
    ensures
        start_position(start) is None ==> (r matches Err(e) && is_bound_overflow(
            e,
            origin,
            bound_value(start),
        )),
        start_position(start) is Some && end_position(end, length) is None ==> (r matches Err(e)
            && is_bound_overflow(e, origin, bound_value(end))),
        start_position(start) matches Some(first) ==> (end_position(end, length) matches Some(
            after,
        ) ==> r == if first > after {
            Err::<IndexRange, RuntimeError>(
                RuntimeError::MalformedRange { access_origin: origin, start_bound: first, end_bound: after },
            )
        } else {
            Ok::<IndexRange, RuntimeError>(IndexRange { start: first, end: after })
        }),
{
    let first = match start {
        RangeBound::Included(b) => b,
        RangeBound::Excluded(b) => {
            if b == usize::MAX {
                return Err(overflow_error(origin, b));
            }
            b + 1
        },
        RangeBound::Unbounded => 0,
    };
    let after = match end {
        RangeBound::Included(b) => {
            if b == usize::MAX {
                return Err(overflow_error(origin, b));
            }
            b + 1
        },
        RangeBound::Excluded(b) => b,
        RangeBound::Unbounded => length,
    };
    if first > after {
        return Err(
            RuntimeError::MalformedRange { access_origin: origin, start_bound: first, end_bound: after },
        );
    }
    Ok(IndexRange { start: first, end: after })
}

/// The positions that an index operator selects in an array of `length`
/// elements: an index selects its element (the end saturates at
/// `usize::MAX`); a non-empty range that starts within the array and ends
/// past it is cut at the array's end.
pub fn element_range(bounds: SliceBounds, length: usize) -> (r: IndexRange)
    ensures
        r.start == bounds.first(),
        r.end == if !bounds.is_index() && bounds.first() < bounds.after() && bounds.first() <= length
            && bounds.after() > length {
            length
        } else {
            bounds.after()
        },
{
    match bounds {
        SliceBounds::Range(range) => {
            if range.start < range.end && range.start <= length && range.end > length {
                IndexRange { start: range.start, end: length }
            } else {
                range
            }
        },
        SliceBounds::Index(index) => IndexRange {
            start: index,
            end: index.checked_add(1).unwrap_or(usize::MAX),
        },
    }
}

} // verus!

verus! {

/// The byte range of selected characters lies within the text's UTF-8
/// encoding and does not run backwards.
pub proof fn law_string_range_within_text(range_origin: Origin, text: Seq<char>, bounds: SliceBounds)
    requires
        encode_utf8(text).len() <= usize::MAX,
    ensures
        char_range_bytes(range_origin, text, bounds) matches Ok(r) ==> {
            &&& r.start <= r.end
            &&& r.end <= encode_utf8(text).len()
        },
{
    let first = bounds.first();
    let after = bounds.after();
    if first <= after && first <= text.len() {
        let last = if after < text.len() { after as int } else { text.len() as int };
        lemma_encode_prefix_grows(text, first as int, last);
        lemma_encode_prefix_grows(text, last, text.len() as int);
        assert(text.subrange(0, text.len() as int) =~= text);
    }
}

} // verus!

verus! {

/// A start bound selects from its value when it is included and from the
/// next position when it is excluded, an unbounded start from the
/// beginning; an end bound selects up to and including its value when it is
/// included, up to its value when it is excluded, and an unbounded end up
/// to the length. So the range of `a..b` is `[a, b)`, of `a..=b` is
/// `[a, b + 1)` and of `..` is `[0, length)`.
pub proof fn law_bounds_select_positions(a: usize, b: usize, length: usize)
    ensures
        start_position(RangeBound::Included(a)) == Some(a),
        a < usize::MAX ==> start_position(RangeBound::Excluded(a)) == Some((a + 1) as usize),
        start_position(RangeBound::Unbounded) == Some(0usize),
        end_position(RangeBound::Excluded(b), length) == Some(b),
        b < usize::MAX ==> end_position(RangeBound::Included(b), length) == Some((b + 1) as usize),
        end_position(RangeBound::Unbounded, length) == Some(length),
        start_position(RangeBound::Excluded(usize::MAX)) is None,
        end_position(RangeBound::Included(usize::MAX), length) is None,
{
}

} // verus!
