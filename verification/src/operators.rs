use vstd::prelude::*;

use crate::cell::Cell;
use crate::error::{OperatorKind, RuntimeError, RuntimeResult};
use crate::invoke::Arg;
use crate::origin::{Origin, RustOrigin};
use crate::ty::TypeMeta;

verus! {

/// The default constructor that a type exports: `invoke` creates an
/// instance of the type.
pub struct DefaultOperator<F> {
    pub origin: RustOrigin,
    pub invoke: F,
}

/// The array constructor that a type exports: `invoke` concatenates the
/// data of the items into one array of the type.
pub struct ConcatOperator<F> {
    pub origin: RustOrigin,
    pub invoke: F,
    /// The type of the resulting array.
    pub hint_result: TypeMeta,
}

/// The error of an operator that the receiver's type does not export.
pub open spec fn undefined_operator(
    origin: Origin,
    receiver_type: TypeMeta,
    operator: OperatorKind,
) -> RuntimeError {
    RuntimeError::UndefinedOperator {
        access_origin: origin,
        receiver_origin: None,
        receiver_type: receiver_type,
        operator: operator,
    }
}

impl TypeMeta {
    /// Creates an instance of this type with its default constructor,
    /// `operator`; fails with an undefined operator error when the type
    /// exports none.
    pub fn instantiate<F: Fn(Origin) -> RuntimeResult<Cell>>(
        &self,
        origin: Origin,
        operator: Option<&DefaultOperator<F>>,
    ) -> (r: RuntimeResult<Cell>)
        requires
            operator matches Some(op) ==> call_requires(op.invoke, (origin,)),
        ensures
            match operator {
                Some(op) => call_ensures(op.invoke, (origin,), r),
                None => r == Err::<Cell, RuntimeError>(
                    undefined_operator(origin, *self, OperatorKind::Default),
                ),
            },
    {
        match operator {
            Some(op) => (op.invoke)(origin),
            None => Err(
                RuntimeError::UndefinedOperator {
                    access_origin: origin,
                    receiver_origin: None,
                    receiver_type: *self,
                    operator: OperatorKind::Default,
                },
            ),
        }
    }

    /// Concatenates the data of `items` into one array of this type with the
    /// type's array constructor, `operator`; fails with an undefined
    /// operator error, leaving `items` as they are, when the type exports
    /// none.
    pub fn concat<F: Fn(Origin, &mut [Arg]) -> RuntimeResult<Cell>>(
        &self,
        origin: Origin,
        items: &mut [Arg],
        operator: Option<&ConcatOperator<F>>,
    ) -> (r: RuntimeResult<Cell>)
        requires
            operator matches Some(op) ==> forall|a: &mut [Arg]| a@ == old(items)@ ==> call_requires(op.invoke, (origin, a)),
        ensures
            match operator {
                Some(op) => exists|a: &mut [Arg]| a@ == old(items)@ && final(a)@ == final(items)@ && call_ensures(op.invoke, (origin, a), r),
                None => r == Err::<Cell, RuntimeError>(
                    undefined_operator(origin, *self, OperatorKind::Concat),
                ) && final(items)@ == old(items)@,
            },
    {
        match operator {
            Some(op) => {
                let moved: &mut [Arg] = items;
                proof {
                    assert(moved@ == old(items)@);
                    assert(call_requires(op.invoke, (origin, moved)));
                }
                (op.invoke)(origin, moved)
            },
            None => Err(
                RuntimeError::UndefinedOperator {
                    access_origin: origin,
                    receiver_origin: None,
                    receiver_type: *self,
                    operator: OperatorKind::Concat,
                },
            ),
        }
    }
}

} // verus!

verus! {

/// The assignment operator (`lhs = rhs`) that a type exports.
pub struct AssignOperator<F> {
    pub origin: RustOrigin,
    pub invoke: F,
    /// The type of the right-hand side.
    pub hint_rhs: TypeMeta,
}

/// The addition (`lhs + rhs`) operator that a type exports.
pub struct AddOperator<F> {
    pub origin: RustOrigin,
    pub invoke: F,
    /// The type of the right-hand side.
    pub hint_rhs: TypeMeta,
    /// The type of the result.
    pub hint_result: TypeMeta,
}

/// The `lhs += rhs` operator that a type exports.
pub struct AddAssignOperator<F> {
    pub origin: RustOrigin,
    pub invoke: F,
    /// The type of the right-hand side.
    pub hint_rhs: TypeMeta,
}

/// The subtraction (`lhs - rhs`) operator that a type exports.
pub struct SubOperator<F> {
    pub origin: RustOrigin,
    pub invoke: F,
    /// The type of the right-hand side.
    pub hint_rhs: TypeMeta,
    /// The type of the result.
    pub hint_result: TypeMeta,
}

/// The `lhs -= rhs` operator that a type exports.
pub struct SubAssignOperator<F> {
    pub origin: RustOrigin,
    pub invoke: F,
    /// The type of the right-hand side.
    pub hint_rhs: TypeMeta,
}

/// The multiplication (`lhs * rhs`) operator that a type exports.
pub struct MulOperator<F> {
    pub origin: RustOrigin,
    pub invoke: F,
    /// The type of the right-hand side.
    pub hint_rhs: TypeMeta,
    /// The type of the result.
    pub hint_result: TypeMeta,
}

/// The `lhs *= rhs` operator that a type exports.
pub struct MulAssignOperator<F> {
    pub origin: RustOrigin,
    pub invoke: F,
    /// The type of the right-hand side.
    pub hint_rhs: TypeMeta,
}

/// The division (`lhs / rhs`) operator that a type exports.
pub struct DivOperator<F> {
    pub origin: RustOrigin,
    pub invoke: F,
    /// The type of the right-hand side.
    pub hint_rhs: TypeMeta,
    /// The type of the result.
    pub hint_result: TypeMeta,
}

/// The `lhs /= rhs` operator that a type exports.
pub struct DivAssignOperator<F> {
    pub origin: RustOrigin,
    pub invoke: F,
    /// The type of the right-hand side.
    pub hint_rhs: TypeMeta,
}

/// The bitwise conjunction (`lhs & rhs`) operator that a type exports.
pub struct BitAndOperator<F> {
    pub origin: RustOrigin,
    pub invoke: F,
    /// The type of the right-hand side.
    pub hint_rhs: TypeMeta,
    /// The type of the result.
    pub hint_result: TypeMeta,
}

/// The `lhs &= rhs` operator that a type exports.
pub struct BitAndAssignOperator<F> {
    pub origin: RustOrigin,
    pub invoke: F,
    /// The type of the right-hand side.
    pub hint_rhs: TypeMeta,
}

/// The bitwise disjunction (`lhs | rhs`) operator that a type exports.
pub struct BitOrOperator<F> {
    pub origin: RustOrigin,
    pub invoke: F,
    /// The type of the right-hand side.
    pub hint_rhs: TypeMeta,
    /// The type of the result.
    pub hint_result: TypeMeta,
}

/// The `lhs |= rhs` operator that a type exports.
pub struct BitOrAssignOperator<F> {
    pub origin: RustOrigin,
    pub invoke: F,
    /// The type of the right-hand side.
    pub hint_rhs: TypeMeta,
}

/// The bitwise exclusive disjunction (`lhs ^ rhs`) operator that a type exports.
pub struct BitXorOperator<F> {
    pub origin: RustOrigin,
    pub invoke: F,
    /// The type of the right-hand side.
    pub hint_rhs: TypeMeta,
    /// The type of the result.
    pub hint_result: TypeMeta,
}

/// The `lhs ^= rhs` operator that a type exports.
pub struct BitXorAssignOperator<F> {
    pub origin: RustOrigin,
    pub invoke: F,
    /// The type of the right-hand side.
    pub hint_rhs: TypeMeta,
}

/// The left shift (`lhs << rhs`) operator that a type exports.
pub struct ShlOperator<F> {
    pub origin: RustOrigin,
    pub invoke: F,
    /// The type of the right-hand side.
    pub hint_rhs: TypeMeta,
    /// The type of the result.
    pub hint_result: TypeMeta,
}

/// The `lhs <<= rhs` operator that a type exports.
pub struct ShlAssignOperator<F> {
    pub origin: RustOrigin,
    pub invoke: F,
    /// The type of the right-hand side.
    pub hint_rhs: TypeMeta,
}

/// The right shift (`lhs >> rhs`) operator that a type exports.
pub struct ShrOperator<F> {
    pub origin: RustOrigin,
    pub invoke: F,
    /// The type of the right-hand side.
    pub hint_rhs: TypeMeta,
    /// The type of the result.
    pub hint_result: TypeMeta,
}

/// The `lhs >>= rhs` operator that a type exports.
pub struct ShrAssignOperator<F> {
    pub origin: RustOrigin,
    pub invoke: F,
    /// The type of the right-hand side.
    pub hint_rhs: TypeMeta,
}

/// The remainder (`lhs % rhs`) operator that a type exports.
pub struct RemOperator<F> {
    pub origin: RustOrigin,
    pub invoke: F,
    /// The type of the right-hand side.
    pub hint_rhs: TypeMeta,
    /// The type of the result.
    pub hint_result: TypeMeta,
}

/// The `lhs %= rhs` operator that a type exports.
pub struct RemAssignOperator<F> {
    pub origin: RustOrigin,
    pub invoke: F,
    /// The type of the right-hand side.
    pub hint_rhs: TypeMeta,
}

} // verus!

verus! {

/// The logical conjunction operator (`lhs && rhs`) that a type exports.
pub struct AndOperator<F> {
    pub origin: RustOrigin,
    pub invoke: F,
    /// The type of the right-hand side.
    pub hint_rhs: TypeMeta,
    /// The type of the result.
    pub hint_result: TypeMeta,
}

/// The logical disjunction operator (`lhs || rhs`) that a type exports.
pub struct OrOperator<F> {
    pub origin: RustOrigin,
    pub invoke: F,
    /// The type of the right-hand side.
    pub hint_rhs: TypeMeta,
    /// The type of the result.
    pub hint_result: TypeMeta,
}

/// The logical negation operator (`!rhs`) that a type exports.
pub struct NotOperator<F> {
    pub origin: RustOrigin,
    pub invoke: F,
    /// The type of the result.
    pub hint_result: TypeMeta,
}

/// The numeric negation operator (`-rhs`) that a type exports.
pub struct NegOperator<F> {
    pub origin: RustOrigin,
    pub invoke: F,
    /// The type of the result.
    pub hint_result: TypeMeta,
}

/// The binding operator that a type exports: it binds the receiver (a
/// function) to a context.
pub struct BindingOperator<F> {
    pub origin: RustOrigin,
    pub invoke: F,
    /// The type of the right-hand side.
    pub hint_rhs: TypeMeta,
}

/// The equality operator (`lhs == rhs`) that a type exports.
pub struct PartialEqOperator<F> {
    pub origin: RustOrigin,
    pub invoke: F,
    /// The type of the right-hand side.
    pub hint_rhs: TypeMeta,
}

} // verus!

verus! {

/// The partial ordering operator (`lhs < rhs` and the like) that a type
/// exports.
pub struct PartialOrdOperator<F> {
    pub origin: RustOrigin,
    pub invoke: F,
    /// The type of the right-hand side.
    pub hint_rhs: TypeMeta,
}

/// The full ordering operator that a type exports.
pub struct OrdOperator<F> {
    pub origin: RustOrigin,
    pub invoke: F,
}

} // verus!
