use vstd::prelude::*;

use crate::error::{NumOperand, NumberCastCause, NumericOperationKind, OperatorKind, RuntimeError};
use crate::hashing::{
    counter_map_contents, counter_map_get, counter_map_insert, key_set_contents, key_set_insert,
    new_counter_map, new_key_set,
};
use crate::text::{
    lemma_text_order_total,
    decimal, joined, push_decimal, push_joined, push_quoted, quoted, sort_texts, str_debug,
    debug_str, text_order, texts,
};
use crate::ty::TypeMeta;

verus! {

/// Whether the types of `t`'s family are reported together under the
/// family's name when all of them are expected: function families and
/// families of a single type are not.
pub open spec fn groups_with_family(t: TypeMeta) -> bool {
    !t.family.is_fn && t.family.len > 1
}

/// Whether a type with the key `id` occurs in `u`.
pub open spec fn has_type_id(u: Seq<TypeMeta>, id: u64) -> bool {
    exists|k: int| 0 <= k < u.len() && #[trigger] u[k].id == id
}

/// The types of `s` without repetitions, each at its first occurrence.
pub open spec fn distinct_types(s: Seq<TypeMeta>) -> Seq<TypeMeta>
    decreases s.len(),
{
    if s.len() == 0 {
        Seq::empty()
    } else {
        let u = distinct_types(s.drop_last());
        if has_type_id(u, s.last().id) {
            u
        } else {
            u.push(s.last())
        }
    }
}

/// The number of types in `u` that belong to the family `family` and are
/// reported together with it.
pub open spec fn family_count(u: Seq<TypeMeta>, family: u64) -> nat
    decreases u.len(),
{
    if u.len() == 0 {
        0
    } else {
        family_count(u.drop_last(), family) + if groups_with_family(u.last())
            && u.last().family.id == family {
            1nat
        } else {
            0nat
        }
    }
}

/// Whether every type of `t`'s family occurs in `u`, so that the family is
/// named in place of its types.
pub open spec fn family_complete(u: Seq<TypeMeta>, t: TypeMeta) -> bool {
    groups_with_family(t) && family_count(u, t.family.id) == t.family.len
}

/// Whether a type before the `k`th one of `u` already named the family
/// `family`.
pub open spec fn family_named_before(u: Seq<TypeMeta>, k: int, family: u64) -> bool {
    exists|j: int| 0 <= j < k && #[trigger] u[j].family.id == family && family_complete(u, u[j])
}

/// What the `k`th type of `u` adds to the list of expected types: its own
/// name, or the name of its family the first time the family is complete.
pub open spec fn type_entry(u: Seq<TypeMeta>, k: int) -> Seq<Seq<char>> {
    let t = u[k];
    if !family_complete(u, t) {
        seq![quoted(t.name@)]
    } else if family_named_before(u, k, t.family.id) {
        Seq::empty()
    } else {
        seq![quoted(t.family.name@)]
    }
}

/// What the first `n` types of `u` add to the list of expected types.
pub open spec fn type_entries(u: Seq<TypeMeta>, n: int) -> Seq<Seq<char>>
    decreases n,
{
    if n <= 0 {
        Seq::empty()
    } else {
        type_entries(u, n - 1) + type_entry(u, n - 1)
    }
}

/// The quoted names under which an error lists the types `types`, in
/// lexicographic order: a family is named in place of its types when all of
/// them occur.
pub open spec fn expected_type_names(types: Seq<TypeMeta>) -> Seq<Seq<char>> {
    let u = distinct_types(types);
    type_entries(u, u.len() as int).sort_by(text_order())
}

proof fn lemma_family_count_bound(u: Seq<TypeMeta>, family: u64)
    ensures
        family_count(u, family) <= u.len(),
    decreases u.len(),
{
    if u.len() > 0 {
        lemma_family_count_bound(u.drop_last(), family);
    }
}

impl RuntimeError {
    /// The quoted names of the expected types, grouped by type family and
    /// sorted.
    pub fn partition_types(types: &Vec<TypeMeta>) -> (r: Vec<String>)
        ensures
            texts(r@) == expected_type_names(types@),
    {
        let mut seen = new_key_set();
        let mut unique: Vec<TypeMeta> = Vec::new();
        let mut i: usize = 0;
        while i < types.len()
            invariant
                i <= types.len(),
                unique@ == distinct_types(types@.subrange(0, i as int)),
                forall|id: u64| key_set_contents(seen).contains(id) <==> has_type_id(unique@, id),
            decreases types.len() - i,
        {
            let t = types[i];
            proof {
                assert(types@.subrange(0, i + 1).drop_last() =~= types@.subrange(0, i as int));
            }
            let ghost before = unique@;
            if key_set_insert(&mut seen, t.id) {
                unique.push(t);
                proof {
                    assert forall|id: u64| (id == t.id || has_type_id(before, id)) implies has_type_id(
                        unique@,
                        id,
                    ) by {
                        if id == t.id {
                            assert(unique@[before.len() as int].id == id);
                        } else {
                            let k = choose|k: int| 0 <= k < before.len() && #[trigger] before[k].id == id;
                            assert(unique@[k].id == id);
                        }
                    }
                    assert forall|id: u64| has_type_id(unique@, id) implies (id == t.id || has_type_id(
                        before,
                        id,
                    )) by {
                        let k = choose|k: int| 0 <= k < unique@.len() && #[trigger] unique@[k].id == id;
                        if k < before.len() {
                            assert(before[k].id == id);
                        }
                    }
                }
            }
            i = i + 1;
        }
        proof {
            assert(types@.subrange(0, types.len() as int) =~= types@);
        }
        let ghost u = unique@;

        let mut counts = new_counter_map();
        let mut k: usize = 0;
        while k < unique.len()
            invariant
                u == unique@,
                k <= unique.len(),
                forall|f: u64| #[trigger]
                    counter_map_contents(counts).contains_key(f) ==> counter_map_contents(counts)[f]
                        == family_count(u.subrange(0, k as int), f),
                forall|f: u64| #[trigger]
                    counter_map_contents(counts).contains_key(f) || family_count(
                        u.subrange(0, k as int),
                        f,
                    ) == 0,
            decreases unique.len() - k,
        {
            let t = unique[k];
            proof {
                assert(u.subrange(0, k + 1).drop_last() =~= u.subrange(0, k as int));
                assert(u.subrange(0, k + 1).last() == t);
                lemma_family_count_bound(u.subrange(0, k as int), t.family.id);
            }
            if !t.family.is_fn && t.family.len > 1 {
                let c = match counter_map_get(&counts, t.family.id) {
                    Some(c) => c,
                    None => 0,
                };
                counter_map_insert(&mut counts, t.family.id, c + 1);
            }
            k = k + 1;
        }
        proof {
            assert(u.subrange(0, u.len() as int) =~= u);
        }

        let mut emitted = new_key_set();
        let mut entries: Vec<String> = Vec::new();
        let mut k: usize = 0;
        while k < unique.len()
            invariant
                u == unique@,
                k <= unique.len(),
                forall|f: u64| #[trigger]
                    counter_map_contents(counts).contains_key(f) ==> counter_map_contents(counts)[f]
                        == family_count(u, f),
                forall|f: u64| #[trigger]
                    counter_map_contents(counts).contains_key(f) || family_count(u, f) == 0,
                forall|f: u64|
                    #[trigger] key_set_contents(emitted).contains(f) <==> family_named_before(
                        u,
                        k as int,
                        f,
                    ),
                texts(entries@) == type_entries(u, k as int),
            decreases unique.len() - k,
        {
            let t = unique[k];
            let ghost emitted_before = key_set_contents(emitted);
            let ghost entries_before = entries@;
            let mut complete = false;
            if !t.family.is_fn && t.family.len > 1 {
                let c = match counter_map_get(&counts, t.family.id) {
                    Some(c) => c,
                    None => 0,
                };
                complete = c == t.family.len;
            }
            assert(complete == family_complete(u, t));
            if complete {
                if key_set_insert(&mut emitted, t.family.id) {
                    let mut entry = String::new();
                    push_quoted(&mut entry, t.family.name);
                    entries.push(entry);
                }
            } else {
                let mut entry = String::new();
                push_quoted(&mut entry, t.name);
                entries.push(entry);
            }
            proof {
                assert(t == u[k as int]);
                assert forall|f: u64| #[trigger]
                    key_set_contents(emitted).contains(f) <==> family_named_before(u, k + 1, f) by {
                    if family_named_before(u, k + 1, f) && !family_named_before(u, k as int, f) {
                        let j = choose|j: int|
                            0 <= j < k + 1 && #[trigger] u[j].family.id == f && family_complete(u, u[j]);
                        assert(j == k);
                    }
                    if family_named_before(u, k as int, f) {
                        let j = choose|j: int|
                            0 <= j < k && #[trigger] u[j].family.id == f && family_complete(u, u[j]);
                        assert(0 <= j < k + 1 && u[j].family.id == f && family_complete(u, u[j]));
                    }
                    if complete && f == t.family.id {
                        assert(0 <= k < k + 1 && u[k as int].family.id == f && family_complete(u, u[k as int]));
                    }
                }
                assert(texts(entries@) =~= texts(entries_before) + type_entry(u, k as int));
            }
            k = k + 1;
        }
        sort_texts(&entries)
    }
}

} // verus!

verus! {

impl OperatorKind {
    /// How messages name the operator.
    pub open spec fn spec_description(self) -> Seq<char> {
        match self {
            OperatorKind::Assign => "assignment operator"@,
            OperatorKind::Concat => "array constructor"@,
            OperatorKind::Field => "field access operator"@,
            OperatorKind::Clone => "clone operator"@,
            OperatorKind::Debug => "debug formatting"@,
            OperatorKind::Display => "display formatting"@,
            OperatorKind::PartialEq => "equality operator"@,
            OperatorKind::Default => "default constructor"@,
            OperatorKind::PartialOrd => "partial ordering operator"@,
            OperatorKind::Ord => "ordering operator"@,
            OperatorKind::Hash => "hash operator"@,
            OperatorKind::Invocation => "invocation operator"@,
            OperatorKind::Binding => "binding operator"@,
            OperatorKind::Add => "addition operator"@,
            OperatorKind::AddAssign => "addition-assignment operator"@,
            OperatorKind::Sub => "subtraction operator"@,
            OperatorKind::SubAssign => "subtraction-assignment operator"@,
            OperatorKind::Mul => "multiplication operator"@,
            OperatorKind::MulAssign => "multiplication-assignment operator"@,
            OperatorKind::Div => "division operator"@,
            OperatorKind::DivAssign => "division-assignment operator"@,
            OperatorKind::And => "logical conjunction operator"@,
            OperatorKind::Or => "logical disjunction operator"@,
            OperatorKind::Not => "logical negation operator"@,
            OperatorKind::Neg => "numeric negation operator"@,
            OperatorKind::BitAnd => "bitwise conjunction operator"@,
            OperatorKind::BitAndAssign => "bitwise conjunction-assignment operator"@,
            OperatorKind::BitOr => "bitwise disjunction operator"@,
            OperatorKind::BitOrAssign => "bitwise disjunction-assignment operator"@,
            OperatorKind::BitXor => "bitwise exclusive disjunction operator"@,
            OperatorKind::BitXorAssign => "bitwise exclusive disjunction-assignment operator"@,
            OperatorKind::Shl => "left shift operator"@,
            OperatorKind::ShlAssign => "left shift-assignment operator"@,
            OperatorKind::Shr => "right shift operator"@,
            OperatorKind::ShrAssign => "right shift-assignment operator"@,
            OperatorKind::Rem => "remainder operator"@,
            OperatorKind::RemAssign => "remainder-assignment operator"@,
        }
    }

    /// How messages name the operator.
    pub fn description(&self) -> (r: &'static str)
        ensures
            r@ == self.spec_description(),
    {
        match self {
            OperatorKind::Assign => "assignment operator",
            OperatorKind::Concat => "array constructor",
            OperatorKind::Field => "field access operator",
            OperatorKind::Clone => "clone operator",
            OperatorKind::Debug => "debug formatting",
            OperatorKind::Display => "display formatting",
            OperatorKind::PartialEq => "equality operator",
            OperatorKind::Default => "default constructor",
            OperatorKind::PartialOrd => "partial ordering operator",
            OperatorKind::Ord => "ordering operator",
            OperatorKind::Hash => "hash operator",
            OperatorKind::Invocation => "invocation operator",
            OperatorKind::Binding => "binding operator",
            OperatorKind::Add => "addition operator",
            OperatorKind::AddAssign => "addition-assignment operator",
            OperatorKind::Sub => "subtraction operator",
            OperatorKind::SubAssign => "subtraction-assignment operator",
            OperatorKind::Mul => "multiplication operator",
            OperatorKind::MulAssign => "multiplication-assignment operator",
            OperatorKind::Div => "division operator",
            OperatorKind::DivAssign => "division-assignment operator",
            OperatorKind::And => "logical conjunction operator",
            OperatorKind::Or => "logical disjunction operator",
            OperatorKind::Not => "logical negation operator",
            OperatorKind::Neg => "numeric negation operator",
            OperatorKind::BitAnd => "bitwise conjunction operator",
            OperatorKind::BitAndAssign => "bitwise conjunction-assignment operator",
            OperatorKind::BitOr => "bitwise disjunction operator",
            OperatorKind::BitOrAssign => "bitwise disjunction-assignment operator",
            OperatorKind::BitXor => "bitwise exclusive disjunction operator",
            OperatorKind::BitXorAssign => "bitwise exclusive disjunction-assignment operator",
            OperatorKind::Shl => "left shift operator",
            OperatorKind::ShlAssign => "left shift-assignment operator",
            OperatorKind::Shr => "right shift operator",
            OperatorKind::ShrAssign => "right shift-assignment operator",
            OperatorKind::Rem => "remainder operator",
            OperatorKind::RemAssign => "remainder-assignment operator",
        }
    }
}

} // verus!

verus! {

/// An operand of a numeric operation as messages show it: its value
/// followed by its type's name.
pub open spec fn operand_text(o: NumOperand) -> Seq<char> {
    o.value@ + o.ty.name@
}

/// The message of a failed numeric operation.
pub open spec fn numeric_operation_text(
    kind: NumericOperationKind,
    lhs: NumOperand,
    rhs: Option<NumOperand>,
) -> Seq<char> {
    match rhs {
        Some(r) => match kind {
            NumericOperationKind::Add => "cannot add "@ + operand_text(r) + " to "@ + operand_text(
                lhs,
            ),
            NumericOperationKind::Sub => "cannot subtract "@ + operand_text(r) + " from "@
                + operand_text(lhs),
            NumericOperationKind::Mul => "cannot multiply "@ + operand_text(r) + " by "@
                + operand_text(lhs),
            NumericOperationKind::Div => "cannot divide "@ + operand_text(r) + " by "@
                + operand_text(lhs),
            NumericOperationKind::Shl => "cannot shift "@ + operand_text(lhs) + " left by "@
                + operand_text(r) + " bits"@,
            NumericOperationKind::Shr => "cannot shift "@ + operand_text(lhs) + " right by "@
                + operand_text(r) + " bits"@,
            NumericOperationKind::Rem => "cannot get "@ + operand_text(lhs)
                + " reminder of division by "@ + operand_text(r),
            NumericOperationKind::Neg => "invalid numeric operation"@,
        },
        None => match kind {
            NumericOperationKind::Neg => "cannot get negative number of "@ + operand_text(lhs),
            _ => "invalid numeric operation"@,
        },
    }
}

/// The message of a failed numeric cast.
pub open spec fn number_cast_text(
    from: TypeMeta,
    to: TypeMeta,
    cause: NumberCastCause,
    value: Seq<char>,
) -> Seq<char> {
    match cause {
        NumberCastCause::Infinite => "cannot cast infinity value of "@ + from.name@ + " type to "@
            + to.name@,
        NumberCastCause::NAN => "cannot cast NAN value of "@ + from.name@ + " type to "@ + to.name@,
        NumberCastCause::Overflow => "cannot cast "@ + value + from.name@ + " to "@ + to.name@
            + " type"@,
        NumberCastCause::Underflow => "cannot cast "@ + value + from.name@ + " to "@ + to.name@
            + " type"@,
    }
}

/// The message of a type mismatch.
pub open spec fn type_mismatch_text(data_type: TypeMeta, expected: Seq<TypeMeta>) -> Seq<char> {
    let names = expected_type_names(expected);
    if names.len() == 0 {
        "unexpected "@ + quoted(data_type.name@) + " data type"@
    } else {
        "expected "@ + joined(names, ", or "@) + ", but "@ + quoted(data_type.name@)
            + " data type provided"@
    }
}

/// The message of a call with the wrong number of arguments.
pub open spec fn arity_text(parameters: usize, arguments: usize) -> Seq<char> {
    if parameters == 1 {
        "the function requires 1 argument, but "@ + decimal(arguments as nat) + " provided"@
    } else {
        "the function requires "@ + decimal(parameters as nat) + " arguments, but "@ + decimal(
            arguments as nat,
        ) + " provided"@
    }
}

impl RuntimeError {
    /// The message that describes the error at its primary origin.
    pub open spec fn spec_primary_description(&self) -> Seq<char> {
        match self {
            RuntimeError::Nil { .. } => "inaccessible data"@,
            RuntimeError::NonSingleton { actual, .. } => "expected a single data instance, but the array with "@
                + decimal(*actual as nat) + " elements provided"@,
            RuntimeError::ShortSlice { minimum, actual, .. } => "expected an array with at least "@
                + decimal(*minimum as nat) + " elements, but the array with "@ + decimal(
                *actual as nat,
            ) + " elements provided"@,
            RuntimeError::OutOfBounds { index, length, .. } => "index "@ + decimal(*index as nat)
                + " out of 0.."@ + decimal(*length as nat) + " bounds"@,
            RuntimeError::ReadOnly { .. } => "read-only data"@,
            RuntimeError::WriteOnly { .. } => "write-only data"@,
            RuntimeError::ReadToWrite { .. } => "cannot access data for write while it is being read"@,
            RuntimeError::WriteToRead { .. } => "cannot access data for read while it is being written"@,
            RuntimeError::WriteToWrite { .. } => "cannot access data for write more than once"@,
            RuntimeError::Utf8Decoding { .. } => "invalid utf-8 encoding"@,
            RuntimeError::BorrowLimit { .. } => "too many simultaneous data accesses"@,
            RuntimeError::TypeMismatch { data_type, expected_types, .. } => type_mismatch_text(
                *data_type,
                expected_types@,
            ),
            RuntimeError::DowncastStatic { .. } => "cannot get static reference to the data owned by the script engine"@,
            RuntimeError::UpcastResult { .. } => "the function returned explicit error"@,
            RuntimeError::NumberCast { from, to, cause, value, .. } => number_cast_text(
                *from,
                *to,
                *cause,
                value@,
            ),
            RuntimeError::NumericOperation { kind, lhs, rhs, .. } => numeric_operation_text(
                *kind,
                *lhs,
                *rhs,
            ),
            RuntimeError::RangeCast { from, to, .. } => "cannot cast "@ + decimal(from.start as nat)
                + ".."@ + decimal(from.end as nat) + " range to "@ + to@
                + " type. target type bounds mismatch"@,
            RuntimeError::MalformedRange { start_bound, end_bound, .. } => "range "@ + decimal(
                *start_bound as nat,
            ) + " start bound is greater than the range end bound "@ + decimal(*end_bound as nat),
            RuntimeError::PrimitiveParse { from, to, .. } => "failed to parse "@ + str_debug(from@)
                + " as "@ + to.name@,
            RuntimeError::ArityMismatch { parameters, arguments, .. } => arity_text(
                *parameters,
                *arguments,
            ),
            RuntimeError::UndefinedOperator { receiver_type, operator, .. } => "type "@ + quoted(
                receiver_type.name@,
            ) + " does not implement "@ + operator.spec_description(),
            RuntimeError::UnknownField { receiver_type, field, .. } => "type "@ + quoted(
                receiver_type.name@,
            ) + " does not have field "@ + quoted(field@),
            RuntimeError::FormatError { .. } => "an error occurred during Debug or Display format function call"@,
            RuntimeError::UnknownPackage { name, version, .. } => "unknown "@ + name@ + "@"@
                + version@ + " script package"@,
            RuntimeError::Interrupted { .. } => "script evaluation interrupted"@,
            RuntimeError::StackOverflow { .. } => "script engine stack overflow"@,
        }
    }
}

} // verus!

verus! {

fn push_operand(s: &mut String, o: &NumOperand)
    ensures
        final(s)@ == old(s)@ + operand_text(*o),
{
    s.append(o.value.as_str());
    s.append(o.ty.name);
    proof {
        assert(old(s)@ + operand_text(*o) =~= s@);
    }
}

fn numeric_operation_description(
    kind: NumericOperationKind,
    lhs: &NumOperand,
    rhs: &Option<NumOperand>,
) -> (r: String)
    ensures
        r@ == numeric_operation_text(kind, *lhs, *rhs),
{
    let mut r = String::new();
    match rhs {
        Some(rhs) => match kind {
            NumericOperationKind::Add => {
                r.append("cannot add ");
                push_operand(&mut r, rhs);
                r.append(" to ");
                push_operand(&mut r, lhs);
            },
            NumericOperationKind::Sub => {
                r.append("cannot subtract ");
                push_operand(&mut r, rhs);
                r.append(" from ");
                push_operand(&mut r, lhs);
            },
            NumericOperationKind::Mul => {
                r.append("cannot multiply ");
                push_operand(&mut r, rhs);
                r.append(" by ");
                push_operand(&mut r, lhs);
            },
            NumericOperationKind::Div => {
                r.append("cannot divide ");
                push_operand(&mut r, rhs);
                r.append(" by ");
                push_operand(&mut r, lhs);
            },
            NumericOperationKind::Shl => {
                r.append("cannot shift ");
                push_operand(&mut r, lhs);
                r.append(" left by ");
                push_operand(&mut r, rhs);
                r.append(" bits");
            },
            NumericOperationKind::Shr => {
                r.append("cannot shift ");
                push_operand(&mut r, lhs);
                r.append(" right by ");
                push_operand(&mut r, rhs);
                r.append(" bits");
            },
            NumericOperationKind::Rem => {
                r.append("cannot get ");
                push_operand(&mut r, lhs);
                r.append(" reminder of division by ");
                push_operand(&mut r, rhs);
            },
            NumericOperationKind::Neg => {
                r.append("invalid numeric operation");
            },
        },
        None => match kind {
            NumericOperationKind::Neg => {
                r.append("cannot get negative number of ");
                push_operand(&mut r, lhs);
            },
            _ => {
                r.append("invalid numeric operation");
            },
        },
    }
    proof {
        assert(r@ =~= numeric_operation_text(kind, *lhs, *rhs));
    }
    r
}

fn number_cast_description(
    from: &TypeMeta,
    to: &TypeMeta,
    cause: NumberCastCause,
    value: &String,
) -> (r: String)
    ensures
        r@ == number_cast_text(*from, *to, cause, value@),
{
    let mut r = String::new();
    match cause {
        NumberCastCause::Infinite => {
            r.append("cannot cast infinity value of ");
            r.append(from.name);
            r.append(" type to ");
            r.append(to.name);
        },
        NumberCastCause::NAN => {
            r.append("cannot cast NAN value of ");
            r.append(from.name);
            r.append(" type to ");
            r.append(to.name);
        },
        NumberCastCause::Overflow | NumberCastCause::Underflow => {
            r.append("cannot cast ");
            r.append(value.as_str());
            r.append(from.name);
            r.append(" to ");
            r.append(to.name);
            r.append(" type");
        },
    }
    proof {
        assert(r@ =~= number_cast_text(*from, *to, cause, value@));
    }
    r
}

fn type_mismatch_description(data_type: &TypeMeta, expected: &Vec<TypeMeta>) -> (r: String)
    ensures
        r@ == type_mismatch_text(*data_type, expected@),
{
    let names = RuntimeError::partition_types(expected);
    let mut r = String::new();
    if names.len() == 0 {
        r.append("unexpected ");
        push_quoted(&mut r, data_type.name);
        r.append(" data type");
    } else {
        r.append("expected ");
        push_joined(&mut r, &names, ", or ");
        r.append(", but ");
        push_quoted(&mut r, data_type.name);
        r.append(" data type provided");
    }
    proof {
        assert(r@ =~= type_mismatch_text(*data_type, expected@));
    }
    r
}

fn arity_description(parameters: usize, arguments: usize) -> (r: String)
    ensures
        r@ == arity_text(parameters, arguments),
{
    let mut r = String::new();
    if parameters == 1 {
        r.append("the function requires 1 argument, but ");
        push_decimal(&mut r, arguments);
        r.append(" provided");
    } else {
        r.append("the function requires ");
        push_decimal(&mut r, parameters);
        r.append(" arguments, but ");
        push_decimal(&mut r, arguments);
        r.append(" provided");
    }
    proof {
        assert(r@ =~= arity_text(parameters, arguments));
    }
    r
}

impl RuntimeError {
    /// The message that describes the error at its primary origin: the text
    /// that the error displays as.
    pub fn primary_description(&self) -> (r: String)
        ensures
            r@ == self.spec_primary_description(),
    {
        let mut r = String::new();
        match self {
            RuntimeError::Nil { .. } => r.append("inaccessible data"),
            RuntimeError::NonSingleton { actual, .. } => {
                r.append("expected a single data instance, but the array with ");
                push_decimal(&mut r, *actual);
                r.append(" elements provided");
            },
            RuntimeError::ShortSlice { minimum, actual, .. } => {
                r.append("expected an array with at least ");
                push_decimal(&mut r, *minimum);
                r.append(" elements, but the array with ");
                push_decimal(&mut r, *actual);
                r.append(" elements provided");
            },
            RuntimeError::OutOfBounds { index, length, .. } => {
                r.append("index ");
                push_decimal(&mut r, *index);
                r.append(" out of 0..");
                push_decimal(&mut r, *length);
                r.append(" bounds");
            },
            RuntimeError::ReadOnly { .. } => r.append("read-only data"),
            RuntimeError::WriteOnly { .. } => r.append("write-only data"),
            RuntimeError::ReadToWrite { .. } => r.append(
                "cannot access data for write while it is being read",
            ),
            RuntimeError::WriteToRead { .. } => r.append(
                "cannot access data for read while it is being written",
            ),
            RuntimeError::WriteToWrite { .. } => r.append(
                "cannot access data for write more than once",
            ),
            RuntimeError::Utf8Decoding { .. } => r.append("invalid utf-8 encoding"),
            RuntimeError::BorrowLimit { .. } => r.append("too many simultaneous data accesses"),
            RuntimeError::TypeMismatch { data_type, expected_types, .. } => {
                r = type_mismatch_description(data_type, expected_types);
            },
            RuntimeError::DowncastStatic { .. } => r.append(
                "cannot get static reference to the data owned by the script engine",
            ),
            RuntimeError::UpcastResult { .. } => r.append("the function returned explicit error"),
            RuntimeError::NumberCast { from, to, cause, value, .. } => {
                r = number_cast_description(from, to, *cause, value);
            },
            RuntimeError::NumericOperation { kind, lhs, rhs, .. } => {
                r = numeric_operation_description(*kind, lhs, rhs);
            },
            RuntimeError::RangeCast { from, to, .. } => {
                r.append("cannot cast ");
                push_decimal(&mut r, from.start);
                r.append("..");
                push_decimal(&mut r, from.end);
                r.append(" range to ");
                r.append(to.as_str());
                r.append(" type. target type bounds mismatch");
            },
            RuntimeError::MalformedRange { start_bound, end_bound, .. } => {
                r.append("range ");
                push_decimal(&mut r, *start_bound);
                r.append(" start bound is greater than the range end bound ");
                push_decimal(&mut r, *end_bound);
            },
            RuntimeError::PrimitiveParse { from, to, .. } => {
                r.append("failed to parse ");
                let quoted_from = debug_str(from.as_str());
                r.append(quoted_from.as_str());
                r.append(" as ");
                r.append(to.name);
            },
            RuntimeError::ArityMismatch { parameters, arguments, .. } => {
                r = arity_description(*parameters, *arguments);
            },
            RuntimeError::UndefinedOperator { receiver_type, operator, .. } => {
                r.append("type ");
                push_quoted(&mut r, receiver_type.name);
                r.append(" does not implement ");
                r.append(operator.description());
            },
            RuntimeError::UnknownField { receiver_type, field, .. } => {
                r.append("type ");
                push_quoted(&mut r, receiver_type.name);
                r.append(" does not have field ");
                push_quoted(&mut r, field.as_str());
            },
            RuntimeError::FormatError { .. } => r.append(
                "an error occurred during Debug or Display format function call",
            ),
            RuntimeError::UnknownPackage { name, version, .. } => {
                r.append("unknown ");
                r.append(name.as_str());
                r.append("@");
                r.append(version.as_str());
                r.append(" script package");
            },
            RuntimeError::Interrupted { .. } => r.append("script evaluation interrupted"),
            RuntimeError::StackOverflow { .. } => r.append("script engine stack overflow"),
        }
        proof {
            assert(r@ =~= self.spec_primary_description());
        }
        r
    }
}

} // verus!

verus! {

/// The expected types are always listed in lexicographic order.
pub proof fn law_expected_type_names_sorted(types: Seq<TypeMeta>)
    ensures
        vstd::relations::sorted_by(expected_type_names(types), text_order()),
{
    let u = distinct_types(types);
    lemma_text_order_total();
    type_entries(u, u.len() as int).lemma_sort_by_ensures(text_order());
}

} // verus!
