use vstd::prelude::*;

use crate::cell::Cell;
use crate::error::{OperatorKind, RuntimeError, RuntimeResult};
use crate::invoke::Arg;
use crate::operators::{
    AndOperator, BindingOperator, NegOperator, NotOperator, OrOperator, OrdOperator,
    PartialEqOperator, PartialOrdOperator,
    AddAssignOperator, AddOperator, AssignOperator, BitAndAssignOperator, BitAndOperator, BitOrAssignOperator, BitOrOperator, BitXorAssignOperator, BitXorOperator, DivAssignOperator, DivOperator, MulAssignOperator, MulOperator, RemAssignOperator, RemOperator, ShlAssignOperator, ShlOperator, ShrAssignOperator, ShrOperator, SubAssignOperator, SubOperator,
};
use crate::origin::Origin;
use crate::ty::TypeMeta;

verus! {

/// A cell together with the type of its data: the receiver of the
/// operators that the type exports.
#[derive(Clone, Copy, Debug)]
pub struct Object {
    pub receiver: Cell,
    pub ty: TypeMeta,
}

impl Cell {
    /// The cell as an object of the type of its data.
    pub fn into_object(self) -> (r: Object)
        ensures
            r == (Object { receiver: self, ty: self.spec_ty() }),
    {
        Object { receiver: self, ty: self.ty() }
    }
}

/// What a compound assignment (`lhs op= rhs`) gives, where `direct` is the
/// type's compound assignment operator, and `assign` and `binary` its plain
/// assignment and binary operator: the compound operator when the type has
/// one; else the binary operator's result assigned to the left-hand side,
/// when the type has both (an error of the binary operator stops there);
/// else the error that the type does not implement `kind`.
pub open spec fn compound_assign_post<A, B, C>(
    receiver: Object,
    origin: Origin,
    lhs: Origin,
    rhs: Arg,
    direct: Option<A>,
    assign: Option<B>,
    binary: Option<C>,
    kind: OperatorKind,
    r: RuntimeResult<()>,
) -> bool where
    A: Fn(Origin, Arg, Arg) -> RuntimeResult<()>,
    B: Fn(Origin, Arg, Arg) -> RuntimeResult<()>,
    C: Fn(Origin, Arg, Arg) -> RuntimeResult<Cell>,
 {
    let target = Arg { origin: lhs, data: receiver.receiver };
    match (direct, assign, binary) {
        (Some(f), _, _) => call_ensures(f, (origin, target, rhs), r),
        (None, Some(g), Some(h)) => exists|c: RuntimeResult<Cell>|
            #[trigger] call_ensures(h, (origin, target, rhs), c) && match c {
                Err(e) => r == Err::<(), RuntimeError>(e),
                Ok(cell) => call_ensures(g, (origin, target, Arg { origin: rhs.origin, data: cell }), r),
            },
        _ => r == Err::<(), RuntimeError>(
            RuntimeError::UndefinedOperator {
                access_origin: origin,
                receiver_origin: Some(receiver.receiver.spec_origin()),
                receiver_type: receiver.ty,
                operator: kind,
            },
        ),
    }
}

/// Whether the operators that a compound assignment may call accept every
/// argument.
pub open spec fn compound_assign_callable<A, B, C>(
    direct: Option<A>,
    assign: Option<B>,
    binary: Option<C>,
) -> bool where
    A: Fn(Origin, Arg, Arg) -> RuntimeResult<()>,
    B: Fn(Origin, Arg, Arg) -> RuntimeResult<()>,
    C: Fn(Origin, Arg, Arg) -> RuntimeResult<Cell>,
 {
    &&& direct matches Some(f) ==> forall|o: Origin, a: Arg, b: Arg| call_requires(f, (o, a, b))
    &&& assign matches Some(g) ==> forall|o: Origin, a: Arg, b: Arg| call_requires(g, (o, a, b))
    &&& binary matches Some(h) ==> forall|o: Origin, a: Arg, b: Arg| call_requires(h, (o, a, b))
}

impl Object {
    /// The object's cell.
    pub fn cell(&self) -> (r: &Cell)
        ensures
            *r == self.receiver,
    {
        &self.receiver
    }

    /// The type of the object's data.
    pub fn ty(&self) -> (r: TypeMeta)
        ensures
            r == self.ty,
    {
        self.ty
    }

    /// The object's cell, giving the object up.
    pub fn into_cell(self) -> (r: Cell)
        ensures
            r == self.receiver,
    {
        self.receiver
    }

    /// The receiver as an argument with the origin `origin`.
    pub fn arg(self, origin: Origin) -> (a: Arg)
        ensures
            a == (Arg { origin, data: self.receiver }),
    {
        Arg { origin, data: self.receiver }
    }

    fn compound_assign<A, B, C>(
        self,
        origin: Origin,
        lhs: Origin,
        rhs: Arg,
        direct: Option<&A>,
        assign: Option<&B>,
        binary: Option<&C>,
        kind: OperatorKind,
    ) -> (r: RuntimeResult<()>) where
        A: Fn(Origin, Arg, Arg) -> RuntimeResult<()>,
        B: Fn(Origin, Arg, Arg) -> RuntimeResult<()>,
        C: Fn(Origin, Arg, Arg) -> RuntimeResult<Cell>,

        requires
            compound_assign_callable(direct, assign, binary),
        ensures
            compound_assign_post(self, origin, lhs, rhs, direct, assign, binary, kind, r),
    {
        if let Some(f) = direct {
            return f(origin, self.arg(lhs), rhs);
        }
        if let (Some(g), Some(h)) = (assign, binary) {
            let target = self.arg(lhs);
            let rhs_origin = rhs.origin;
            let result = h(origin, target, rhs);
            let cell = match result {
                Ok(cell) => cell,
                Err(e) => return Err(e),
            };
            return g(origin, target, Arg { origin: rhs_origin, data: cell });
        }
        Err(
            RuntimeError::UndefinedOperator {
                access_origin: origin,
                receiver_origin: Some(self.receiver.origin()),
                receiver_type: self.ty,
                operator: kind,
            },
        )
    }

    /// The compound assignment `lhs += rhs` on this object: the type's
    /// `AddAssign` operator, or else its `Add` operator followed by its `Assign`
    /// operator, or else the error that the type does not implement `AddAssign`.
    pub fn add_assign_fallback<A, B, C>(
        self,
        origin: Origin,
        lhs: Origin,
        rhs: Arg,
        add_assign: Option<&AddAssignOperator<A>>,
        assign: Option<&AssignOperator<B>>,
        add: Option<&AddOperator<C>>,
    ) -> (r: RuntimeResult<()>) where
        A: Fn(Origin, Arg, Arg) -> RuntimeResult<()>,
        B: Fn(Origin, Arg, Arg) -> RuntimeResult<()>,
        C: Fn(Origin, Arg, Arg) -> RuntimeResult<Cell>,

        requires
            compound_assign_callable(
                (match add_assign { Some(op) => Some(&op.invoke), None => None::<&A> }),
                (match assign { Some(op) => Some(&op.invoke), None => None::<&B> }),
                (match add { Some(op) => Some(&op.invoke), None => None::<&C> }),
            ),
        ensures
            compound_assign_post(
                self,
                origin,
                lhs,
                rhs,
                (match add_assign { Some(op) => Some(&op.invoke), None => None::<&A> }),
                (match assign { Some(op) => Some(&op.invoke), None => None::<&B> }),
                (match add { Some(op) => Some(&op.invoke), None => None::<&C> }),
                OperatorKind::AddAssign,
                r,
            ),
    {
        let direct = match add_assign {
            Some(op) => Some(&op.invoke),
            None => None,
        };
        let plain = match assign {
            Some(op) => Some(&op.invoke),
            None => None,
        };
        let binary = match add {
            Some(op) => Some(&op.invoke),
            None => None,
        };
        self.compound_assign(origin, lhs, rhs, direct, plain, binary, OperatorKind::AddAssign)
    }

    /// The compound assignment `lhs -= rhs` on this object: the type's
    /// `SubAssign` operator, or else its `Sub` operator followed by its `Assign`
    /// operator, or else the error that the type does not implement `SubAssign`.
    pub fn sub_assign_fallback<A, B, C>(
        self,
        origin: Origin,
        lhs: Origin,
        rhs: Arg,
        sub_assign: Option<&SubAssignOperator<A>>,
        assign: Option<&AssignOperator<B>>,
        sub: Option<&SubOperator<C>>,
    ) -> (r: RuntimeResult<()>) where
        A: Fn(Origin, Arg, Arg) -> RuntimeResult<()>,
        B: Fn(Origin, Arg, Arg) -> RuntimeResult<()>,
        C: Fn(Origin, Arg, Arg) -> RuntimeResult<Cell>,

        requires
            compound_assign_callable(
                (match sub_assign { Some(op) => Some(&op.invoke), None => None::<&A> }),
                (match assign { Some(op) => Some(&op.invoke), None => None::<&B> }),
                (match sub { Some(op) => Some(&op.invoke), None => None::<&C> }),
            ),
        ensures
            compound_assign_post(
                self,
                origin,
                lhs,
                rhs,
                (match sub_assign { Some(op) => Some(&op.invoke), None => None::<&A> }),
                (match assign { Some(op) => Some(&op.invoke), None => None::<&B> }),
                (match sub { Some(op) => Some(&op.invoke), None => None::<&C> }),
                OperatorKind::SubAssign,
                r,
            ),
    {
        let direct = match sub_assign {
            Some(op) => Some(&op.invoke),
            None => None,
        };
        let plain = match assign {
            Some(op) => Some(&op.invoke),
            None => None,
        };
        let binary = match sub {
            Some(op) => Some(&op.invoke),
            None => None,
        };
        self.compound_assign(origin, lhs, rhs, direct, plain, binary, OperatorKind::SubAssign)
    }

    /// The compound assignment `lhs *= rhs` on this object: the type's
    /// `MulAssign` operator, or else its `Mul` operator followed by its `Assign`
    /// operator, or else the error that the type does not implement `MulAssign`.
    pub fn mul_assign_fallback<A, B, C>(
        self,
        origin: Origin,
        lhs: Origin,
        rhs: Arg,
        mul_assign: Option<&MulAssignOperator<A>>,
        assign: Option<&AssignOperator<B>>,
        mul: Option<&MulOperator<C>>,
    ) -> (r: RuntimeResult<()>) where
        A: Fn(Origin, Arg, Arg) -> RuntimeResult<()>,
        B: Fn(Origin, Arg, Arg) -> RuntimeResult<()>,
        C: Fn(Origin, Arg, Arg) -> RuntimeResult<Cell>,

        requires
            compound_assign_callable(
                (match mul_assign { Some(op) => Some(&op.invoke), None => None::<&A> }),
                (match assign { Some(op) => Some(&op.invoke), None => None::<&B> }),
                (match mul { Some(op) => Some(&op.invoke), None => None::<&C> }),
            ),
        ensures
            compound_assign_post(
                self,
                origin,
                lhs,
                rhs,
                (match mul_assign { Some(op) => Some(&op.invoke), None => None::<&A> }),
                (match assign { Some(op) => Some(&op.invoke), None => None::<&B> }),
                (match mul { Some(op) => Some(&op.invoke), None => None::<&C> }),
                OperatorKind::MulAssign,
                r,
            ),
    {
        let direct = match mul_assign {
            Some(op) => Some(&op.invoke),
            None => None,
        };
        let plain = match assign {
            Some(op) => Some(&op.invoke),
            None => None,
        };
        let binary = match mul {
            Some(op) => Some(&op.invoke),
            None => None,
        };
        self.compound_assign(origin, lhs, rhs, direct, plain, binary, OperatorKind::MulAssign)
    }

    /// The compound assignment `lhs /= rhs` on this object: the type's
    /// `DivAssign` operator, or else its `Div` operator followed by its `Assign`
    /// operator, or else the error that the type does not implement `DivAssign`.
    pub fn div_assign_fallback<A, B, C>(
        self,
        origin: Origin,
        lhs: Origin,
        rhs: Arg,
        div_assign: Option<&DivAssignOperator<A>>,
        assign: Option<&AssignOperator<B>>,
        div: Option<&DivOperator<C>>,
    ) -> (r: RuntimeResult<()>) where
        A: Fn(Origin, Arg, Arg) -> RuntimeResult<()>,
        B: Fn(Origin, Arg, Arg) -> RuntimeResult<()>,
        C: Fn(Origin, Arg, Arg) -> RuntimeResult<Cell>,

        requires
            compound_assign_callable(
                (match div_assign { Some(op) => Some(&op.invoke), None => None::<&A> }),
                (match assign { Some(op) => Some(&op.invoke), None => None::<&B> }),
                (match div { Some(op) => Some(&op.invoke), None => None::<&C> }),
            ),
        ensures
            compound_assign_post(
                self,
                origin,
                lhs,
                rhs,
                (match div_assign { Some(op) => Some(&op.invoke), None => None::<&A> }),
                (match assign { Some(op) => Some(&op.invoke), None => None::<&B> }),
                (match div { Some(op) => Some(&op.invoke), None => None::<&C> }),
                OperatorKind::DivAssign,
                r,
            ),
    {
        let direct = match div_assign {
            Some(op) => Some(&op.invoke),
            None => None,
        };
        let plain = match assign {
            Some(op) => Some(&op.invoke),
            None => None,
        };
        let binary = match div {
            Some(op) => Some(&op.invoke),
            None => None,
        };
        self.compound_assign(origin, lhs, rhs, direct, plain, binary, OperatorKind::DivAssign)
    }

    /// The compound assignment `lhs &= rhs` on this object: the type's
    /// `BitAndAssign` operator, or else its `BitAnd` operator followed by its `Assign`
    /// operator, or else the error that the type does not implement `BitAndAssign`.
    pub fn bit_and_assign_fallback<A, B, C>(
        self,
        origin: Origin,
        lhs: Origin,
        rhs: Arg,
        bit_and_assign: Option<&BitAndAssignOperator<A>>,
        assign: Option<&AssignOperator<B>>,
        bit_and: Option<&BitAndOperator<C>>,
    ) -> (r: RuntimeResult<()>) where
        A: Fn(Origin, Arg, Arg) -> RuntimeResult<()>,
        B: Fn(Origin, Arg, Arg) -> RuntimeResult<()>,
        C: Fn(Origin, Arg, Arg) -> RuntimeResult<Cell>,

        requires
            compound_assign_callable(
                (match bit_and_assign { Some(op) => Some(&op.invoke), None => None::<&A> }),
                (match assign { Some(op) => Some(&op.invoke), None => None::<&B> }),
                (match bit_and { Some(op) => Some(&op.invoke), None => None::<&C> }),
            ),
        ensures
            compound_assign_post(
                self,
                origin,
                lhs,
                rhs,
                (match bit_and_assign { Some(op) => Some(&op.invoke), None => None::<&A> }),
                (match assign { Some(op) => Some(&op.invoke), None => None::<&B> }),
                (match bit_and { Some(op) => Some(&op.invoke), None => None::<&C> }),
                OperatorKind::BitAndAssign,
                r,
            ),
    {
        let direct = match bit_and_assign {
            Some(op) => Some(&op.invoke),
            None => None,
        };
        let plain = match assign {
            Some(op) => Some(&op.invoke),
            None => None,
        };
        let binary = match bit_and {
            Some(op) => Some(&op.invoke),
            None => None,
        };
        self.compound_assign(origin, lhs, rhs, direct, plain, binary, OperatorKind::BitAndAssign)
    }

    /// The compound assignment `lhs |= rhs` on this object: the type's
    /// `BitOrAssign` operator, or else its `BitOr` operator followed by its `Assign`
    /// operator, or else the error that the type does not implement `BitOrAssign`.
    pub fn bit_or_assign_fallback<A, B, C>(
        self,
        origin: Origin,
        lhs: Origin,
        rhs: Arg,
        bit_or_assign: Option<&BitOrAssignOperator<A>>,
        assign: Option<&AssignOperator<B>>,
        bit_or: Option<&BitOrOperator<C>>,
    ) -> (r: RuntimeResult<()>) where
        A: Fn(Origin, Arg, Arg) -> RuntimeResult<()>,
        B: Fn(Origin, Arg, Arg) -> RuntimeResult<()>,
        C: Fn(Origin, Arg, Arg) -> RuntimeResult<Cell>,

        requires
            compound_assign_callable(
                (match bit_or_assign { Some(op) => Some(&op.invoke), None => None::<&A> }),
                (match assign { Some(op) => Some(&op.invoke), None => None::<&B> }),
                (match bit_or { Some(op) => Some(&op.invoke), None => None::<&C> }),
            ),
        ensures
            compound_assign_post(
                self,
                origin,
                lhs,
                rhs,
                (match bit_or_assign { Some(op) => Some(&op.invoke), None => None::<&A> }),
                (match assign { Some(op) => Some(&op.invoke), None => None::<&B> }),
                (match bit_or { Some(op) => Some(&op.invoke), None => None::<&C> }),
                OperatorKind::BitOrAssign,
                r,
            ),
    {
        let direct = match bit_or_assign {
            Some(op) => Some(&op.invoke),
            None => None,
        };
        let plain = match assign {
            Some(op) => Some(&op.invoke),
            None => None,
        };
        let binary = match bit_or {
            Some(op) => Some(&op.invoke),
            None => None,
        };
        self.compound_assign(origin, lhs, rhs, direct, plain, binary, OperatorKind::BitOrAssign)
    }

    /// The compound assignment `lhs ^= rhs` on this object: the type's
    /// `BitXorAssign` operator, or else its `BitXor` operator followed by its `Assign`
    /// operator, or else the error that the type does not implement `BitXorAssign`.
    pub fn bit_xor_assign_fallback<A, B, C>(
        self,
        origin: Origin,
        lhs: Origin,
        rhs: Arg,
        bit_xor_assign: Option<&BitXorAssignOperator<A>>,
        assign: Option<&AssignOperator<B>>,
        bit_xor: Option<&BitXorOperator<C>>,
    ) -> (r: RuntimeResult<()>) where
        A: Fn(Origin, Arg, Arg) -> RuntimeResult<()>,
        B: Fn(Origin, Arg, Arg) -> RuntimeResult<()>,
        C: Fn(Origin, Arg, Arg) -> RuntimeResult<Cell>,

        requires
            compound_assign_callable(
                (match bit_xor_assign { Some(op) => Some(&op.invoke), None => None::<&A> }),
                (match assign { Some(op) => Some(&op.invoke), None => None::<&B> }),
                (match bit_xor { Some(op) => Some(&op.invoke), None => None::<&C> }),
            ),
        ensures
            compound_assign_post(
                self,
                origin,
                lhs,
                rhs,
                (match bit_xor_assign { Some(op) => Some(&op.invoke), None => None::<&A> }),
                (match assign { Some(op) => Some(&op.invoke), None => None::<&B> }),
                (match bit_xor { Some(op) => Some(&op.invoke), None => None::<&C> }),
                OperatorKind::BitXorAssign,
                r,
            ),
    {
        let direct = match bit_xor_assign {
            Some(op) => Some(&op.invoke),
            None => None,
        };
        let plain = match assign {
            Some(op) => Some(&op.invoke),
            None => None,
        };
        let binary = match bit_xor {
            Some(op) => Some(&op.invoke),
            None => None,
        };
        self.compound_assign(origin, lhs, rhs, direct, plain, binary, OperatorKind::BitXorAssign)
    }

    /// The compound assignment `lhs <<= rhs` on this object: the type's
    /// `ShlAssign` operator, or else its `Shl` operator followed by its `Assign`
    /// operator, or else the error that the type does not implement `ShlAssign`.
    pub fn shl_assign_fallback<A, B, C>(
        self,
        origin: Origin,
        lhs: Origin,
        rhs: Arg,
        shl_assign: Option<&ShlAssignOperator<A>>,
        assign: Option<&AssignOperator<B>>,
        shl: Option<&ShlOperator<C>>,
    ) -> (r: RuntimeResult<()>) where
        A: Fn(Origin, Arg, Arg) -> RuntimeResult<()>,
        B: Fn(Origin, Arg, Arg) -> RuntimeResult<()>,
        C: Fn(Origin, Arg, Arg) -> RuntimeResult<Cell>,

        requires
            compound_assign_callable(
                (match shl_assign { Some(op) => Some(&op.invoke), None => None::<&A> }),
                (match assign { Some(op) => Some(&op.invoke), None => None::<&B> }),
                (match shl { Some(op) => Some(&op.invoke), None => None::<&C> }),
            ),
        ensures
            compound_assign_post(
                self,
                origin,
                lhs,
                rhs,
                (match shl_assign { Some(op) => Some(&op.invoke), None => None::<&A> }),
                (match assign { Some(op) => Some(&op.invoke), None => None::<&B> }),
                (match shl { Some(op) => Some(&op.invoke), None => None::<&C> }),
                OperatorKind::ShlAssign,
                r,
            ),
    {
        let direct = match shl_assign {
            Some(op) => Some(&op.invoke),
            None => None,
        };
        let plain = match assign {
            Some(op) => Some(&op.invoke),
            None => None,
        };
        let binary = match shl {
            Some(op) => Some(&op.invoke),
            None => None,
        };
        self.compound_assign(origin, lhs, rhs, direct, plain, binary, OperatorKind::ShlAssign)
    }

    /// The compound assignment `lhs >>= rhs` on this object: the type's
    /// `ShrAssign` operator, or else its `Shr` operator followed by its `Assign`
    /// operator, or else the error that the type does not implement `ShrAssign`.
    pub fn shr_assign_fallback<A, B, C>(
        self,
        origin: Origin,
        lhs: Origin,
        rhs: Arg,
        shr_assign: Option<&ShrAssignOperator<A>>,
        assign: Option<&AssignOperator<B>>,
        shr: Option<&ShrOperator<C>>,
    ) -> (r: RuntimeResult<()>) where
        A: Fn(Origin, Arg, Arg) -> RuntimeResult<()>,
        B: Fn(Origin, Arg, Arg) -> RuntimeResult<()>,
        C: Fn(Origin, Arg, Arg) -> RuntimeResult<Cell>,

        requires
            compound_assign_callable(
                (match shr_assign { Some(op) => Some(&op.invoke), None => None::<&A> }),
                (match assign { Some(op) => Some(&op.invoke), None => None::<&B> }),
                (match shr { Some(op) => Some(&op.invoke), None => None::<&C> }),
            ),
        ensures
            compound_assign_post(
                self,
                origin,
                lhs,
                rhs,
                (match shr_assign { Some(op) => Some(&op.invoke), None => None::<&A> }),
                (match assign { Some(op) => Some(&op.invoke), None => None::<&B> }),
                (match shr { Some(op) => Some(&op.invoke), None => None::<&C> }),
                OperatorKind::ShrAssign,
                r,
            ),
    {
        let direct = match shr_assign {
            Some(op) => Some(&op.invoke),
            None => None,
        };
        let plain = match assign {
            Some(op) => Some(&op.invoke),
            None => None,
        };
        let binary = match shr {
            Some(op) => Some(&op.invoke),
            None => None,
        };
        self.compound_assign(origin, lhs, rhs, direct, plain, binary, OperatorKind::ShrAssign)
    }

    /// The compound assignment `lhs %= rhs` on this object: the type's
    /// `RemAssign` operator, or else its `Rem` operator followed by its `Assign`
    /// operator, or else the error that the type does not implement `RemAssign`.
    pub fn rem_assign_fallback<A, B, C>(
        self,
        origin: Origin,
        lhs: Origin,
        rhs: Arg,
        rem_assign: Option<&RemAssignOperator<A>>,
        assign: Option<&AssignOperator<B>>,
        rem: Option<&RemOperator<C>>,
    ) -> (r: RuntimeResult<()>) where
        A: Fn(Origin, Arg, Arg) -> RuntimeResult<()>,
        B: Fn(Origin, Arg, Arg) -> RuntimeResult<()>,
        C: Fn(Origin, Arg, Arg) -> RuntimeResult<Cell>,

        requires
            compound_assign_callable(
                (match rem_assign { Some(op) => Some(&op.invoke), None => None::<&A> }),
                (match assign { Some(op) => Some(&op.invoke), None => None::<&B> }),
                (match rem { Some(op) => Some(&op.invoke), None => None::<&C> }),
            ),
        ensures
            compound_assign_post(
                self,
                origin,
                lhs,
                rhs,
                (match rem_assign { Some(op) => Some(&op.invoke), None => None::<&A> }),
                (match assign { Some(op) => Some(&op.invoke), None => None::<&B> }),
                (match rem { Some(op) => Some(&op.invoke), None => None::<&C> }),
                OperatorKind::RemAssign,
                r,
            ),
    {
        let direct = match rem_assign {
            Some(op) => Some(&op.invoke),
            None => None,
        };
        let plain = match assign {
            Some(op) => Some(&op.invoke),
            None => None,
        };
        let binary = match rem {
            Some(op) => Some(&op.invoke),
            None => None,
        };
        self.compound_assign(origin, lhs, rhs, direct, plain, binary, OperatorKind::RemAssign)
    }
}

} // verus!

verus! {

/// What an operator call on an object gives: the operator's result when
/// the object's type exports the operator, else the error that the type
/// does not implement `kind`.
pub open spec fn dispatch_post<F: Fn(Origin, Arg, Arg) -> RuntimeResult<T>, T>(
    receiver: Object,
    origin: Origin,
    lhs: Origin,
    rhs: Arg,
    operator: Option<&F>,
    kind: OperatorKind,
    r: RuntimeResult<T>,
) -> bool {
    match operator {
        Some(f) => call_ensures(*f, (origin, Arg { origin: lhs, data: receiver.receiver }, rhs), r),
        None => r == Err::<T, RuntimeError>(
            RuntimeError::UndefinedOperator {
                access_origin: origin,
                receiver_origin: Some(receiver.receiver.spec_origin()),
                receiver_type: receiver.ty,
                operator: kind,
            },
        ),
    }
}

/// What a unary operator call on an object gives; `rhs` is where the object
/// occurs in the source code.
pub open spec fn unary_post<F: Fn(Origin, Arg) -> RuntimeResult<Cell>>(
    receiver: Object,
    origin: Origin,
    rhs: Origin,
    operator: Option<&F>,
    kind: OperatorKind,
    r: RuntimeResult<Cell>,
) -> bool {
    match operator {
        Some(f) => call_ensures(*f, (origin, Arg { origin: rhs, data: receiver.receiver }), r),
        None => r == Err::<Cell, RuntimeError>(
            RuntimeError::UndefinedOperator {
                access_origin: origin,
                receiver_origin: Some(receiver.receiver.spec_origin()),
                receiver_type: receiver.ty,
                operator: kind,
            },
        ),
    }
}

impl Object {
    fn dispatch<F: Fn(Origin, Arg, Arg) -> RuntimeResult<T>, T>(
        self,
        origin: Origin,
        lhs: Origin,
        rhs: Arg,
        operator: Option<&F>,
        kind: OperatorKind,
    ) -> (r: RuntimeResult<T>)
        requires
            operator matches Some(f) ==> call_requires(*f, (origin, Arg { origin: lhs, data: self.receiver }, rhs)),
        ensures
            dispatch_post(self, origin, lhs, rhs, operator, kind, r),
    {
        match operator {
            Some(f) => f(origin, self.arg(lhs), rhs),
            None => Err(
                RuntimeError::UndefinedOperator {
                    access_origin: origin,
                    receiver_origin: Some(self.receiver.origin()),
                    receiver_type: self.ty,
                    operator: kind,
                },
            ),
        }
    }

    fn dispatch_unary<F: Fn(Origin, Arg) -> RuntimeResult<Cell>>(
        self,
        origin: Origin,
        rhs: Origin,
        operator: Option<&F>,
        kind: OperatorKind,
    ) -> (r: RuntimeResult<Cell>)
        requires
            operator matches Some(f) ==> call_requires(*f, (origin, Arg { origin: rhs, data: self.receiver })),
        ensures
            unary_post(self, origin, rhs, operator, kind, r),
    {
        match operator {
            Some(f) => f(origin, self.arg(rhs)),
            None => Err(
                RuntimeError::UndefinedOperator {
                    access_origin: origin,
                    receiver_origin: Some(self.receiver.origin()),
                    receiver_type: self.ty,
                    operator: kind,
                },
            ),
        }
    }

    /// The addition (`lhs + rhs`) on this object, with the operator that its type exports;
    /// fails when the type exports none.
    pub fn add<F: Fn(Origin, Arg, Arg) -> RuntimeResult<Cell>>(
        self,
        origin: Origin,
        lhs: Origin,
        rhs: Arg,
        operator: Option<&AddOperator<F>>,
    ) -> (r: RuntimeResult<Cell>)
        requires
            operator matches Some(op) ==> call_requires(op.invoke, (origin, Arg { origin: lhs, data: self.receiver }, rhs)),
        ensures
            dispatch_post(
                self,
                origin,
                lhs,
                rhs,
                (match operator { Some(op) => Some(&op.invoke), None => None::<&F> }),
                OperatorKind::Add,
                r,
            ),
    {
        let invoke = match operator {
            Some(op) => Some(&op.invoke),
            None => None,
        };
        self.dispatch(origin, lhs, rhs, invoke, OperatorKind::Add)
    }

    /// The subtraction (`lhs - rhs`) on this object, with the operator that its type exports;
    /// fails when the type exports none.
    pub fn sub<F: Fn(Origin, Arg, Arg) -> RuntimeResult<Cell>>(
        self,
        origin: Origin,
        lhs: Origin,
        rhs: Arg,
        operator: Option<&SubOperator<F>>,
    ) -> (r: RuntimeResult<Cell>)
        requires
            operator matches Some(op) ==> call_requires(op.invoke, (origin, Arg { origin: lhs, data: self.receiver }, rhs)),
        ensures
            dispatch_post(
                self,
                origin,
                lhs,
                rhs,
                (match operator { Some(op) => Some(&op.invoke), None => None::<&F> }),
                OperatorKind::Sub,
                r,
            ),
    {
        let invoke = match operator {
            Some(op) => Some(&op.invoke),
            None => None,
        };
        self.dispatch(origin, lhs, rhs, invoke, OperatorKind::Sub)
    }

    /// The multiplication (`lhs * rhs`) on this object, with the operator that its type exports;
    /// fails when the type exports none.
    pub fn mul<F: Fn(Origin, Arg, Arg) -> RuntimeResult<Cell>>(
        self,
        origin: Origin,
        lhs: Origin,
        rhs: Arg,
        operator: Option<&MulOperator<F>>,
    ) -> (r: RuntimeResult<Cell>)
        requires
            operator matches Some(op) ==> call_requires(op.invoke, (origin, Arg { origin: lhs, data: self.receiver }, rhs)),
        ensures
            dispatch_post(
                self,
                origin,
                lhs,
                rhs,
                (match operator { Some(op) => Some(&op.invoke), None => None::<&F> }),
                OperatorKind::Mul,
                r,
            ),
    {
        let invoke = match operator {
            Some(op) => Some(&op.invoke),
            None => None,
        };
        self.dispatch(origin, lhs, rhs, invoke, OperatorKind::Mul)
    }

    /// The division (`lhs / rhs`) on this object, with the operator that its type exports;
    /// fails when the type exports none.
    pub fn div<F: Fn(Origin, Arg, Arg) -> RuntimeResult<Cell>>(
        self,
        origin: Origin,
        lhs: Origin,
        rhs: Arg,
        operator: Option<&DivOperator<F>>,
    ) -> (r: RuntimeResult<Cell>)
        requires
            operator matches Some(op) ==> call_requires(op.invoke, (origin, Arg { origin: lhs, data: self.receiver }, rhs)),
        ensures
            dispatch_post(
                self,
                origin,
                lhs,
                rhs,
                (match operator { Some(op) => Some(&op.invoke), None => None::<&F> }),
                OperatorKind::Div,
                r,
            ),
    {
        let invoke = match operator {
            Some(op) => Some(&op.invoke),
            None => None,
        };
        self.dispatch(origin, lhs, rhs, invoke, OperatorKind::Div)
    }

    /// The logical conjunction (`lhs && rhs`) on this object, with the operator that its type exports;
    /// fails when the type exports none.
    pub fn and<F: Fn(Origin, Arg, Arg) -> RuntimeResult<Cell>>(
        self,
        origin: Origin,
        lhs: Origin,
        rhs: Arg,
        operator: Option<&AndOperator<F>>,
    ) -> (r: RuntimeResult<Cell>)
        requires
            operator matches Some(op) ==> call_requires(op.invoke, (origin, Arg { origin: lhs, data: self.receiver }, rhs)),
        ensures
            dispatch_post(
                self,
                origin,
                lhs,
                rhs,
                (match operator { Some(op) => Some(&op.invoke), None => None::<&F> }),
                OperatorKind::And,
                r,
            ),
    {
        let invoke = match operator {
            Some(op) => Some(&op.invoke),
            None => None,
        };
        self.dispatch(origin, lhs, rhs, invoke, OperatorKind::And)
    }

    /// The logical disjunction (`lhs || rhs`) on this object, with the operator that its type exports;
    /// fails when the type exports none.
    pub fn or<F: Fn(Origin, Arg, Arg) -> RuntimeResult<Cell>>(
        self,
        origin: Origin,
        lhs: Origin,
        rhs: Arg,
        operator: Option<&OrOperator<F>>,
    ) -> (r: RuntimeResult<Cell>)
        requires
            operator matches Some(op) ==> call_requires(op.invoke, (origin, Arg { origin: lhs, data: self.receiver }, rhs)),
        ensures
            dispatch_post(
                self,
                origin,
                lhs,
                rhs,
                (match operator { Some(op) => Some(&op.invoke), None => None::<&F> }),
                OperatorKind::Or,
                r,
            ),
    {
        let invoke = match operator {
            Some(op) => Some(&op.invoke),
            None => None,
        };
        self.dispatch(origin, lhs, rhs, invoke, OperatorKind::Or)
    }

    /// The bitwise conjunction (`lhs & rhs`) on this object, with the operator that its type exports;
    /// fails when the type exports none.
    pub fn bit_and<F: Fn(Origin, Arg, Arg) -> RuntimeResult<Cell>>(
        self,
        origin: Origin,
        lhs: Origin,
        rhs: Arg,
        operator: Option<&BitAndOperator<F>>,
    ) -> (r: RuntimeResult<Cell>)
        requires
            operator matches Some(op) ==> call_requires(op.invoke, (origin, Arg { origin: lhs, data: self.receiver }, rhs)),
        ensures
            dispatch_post(
                self,
                origin,
                lhs,
                rhs,
                (match operator { Some(op) => Some(&op.invoke), None => None::<&F> }),
                OperatorKind::BitAnd,
                r,
            ),
    {
        let invoke = match operator {
            Some(op) => Some(&op.invoke),
            None => None,
        };
        self.dispatch(origin, lhs, rhs, invoke, OperatorKind::BitAnd)
    }

    /// The bitwise disjunction (`lhs | rhs`) on this object, with the operator that its type exports;
    /// fails when the type exports none.
    pub fn bit_or<F: Fn(Origin, Arg, Arg) -> RuntimeResult<Cell>>(
        self,
        origin: Origin,
        lhs: Origin,
        rhs: Arg,
        operator: Option<&BitOrOperator<F>>,
    ) -> (r: RuntimeResult<Cell>)
        requires
            operator matches Some(op) ==> call_requires(op.invoke, (origin, Arg { origin: lhs, data: self.receiver }, rhs)),
        ensures
            dispatch_post(
                self,
                origin,
                lhs,
                rhs,
                (match operator { Some(op) => Some(&op.invoke), None => None::<&F> }),
                OperatorKind::BitOr,
                r,
            ),
    {
        let invoke = match operator {
            Some(op) => Some(&op.invoke),
            None => None,
        };
        self.dispatch(origin, lhs, rhs, invoke, OperatorKind::BitOr)
    }

    /// The bitwise exclusive disjunction (`lhs ^ rhs`) on this object, with the operator that its type exports;
    /// fails when the type exports none.
    pub fn bit_xor<F: Fn(Origin, Arg, Arg) -> RuntimeResult<Cell>>(
        self,
        origin: Origin,
        lhs: Origin,
        rhs: Arg,
        operator: Option<&BitXorOperator<F>>,
    ) -> (r: RuntimeResult<Cell>)
        requires
            operator matches Some(op) ==> call_requires(op.invoke, (origin, Arg { origin: lhs, data: self.receiver }, rhs)),
        ensures
            dispatch_post(
                self,
                origin,
                lhs,
                rhs,
                (match operator { Some(op) => Some(&op.invoke), None => None::<&F> }),
                OperatorKind::BitXor,
                r,
            ),
    {
        let invoke = match operator {
            Some(op) => Some(&op.invoke),
            None => None,
        };
        self.dispatch(origin, lhs, rhs, invoke, OperatorKind::BitXor)
    }

    /// The left shift (`lhs << rhs`) on this object, with the operator that its type exports;
    /// fails when the type exports none.
    pub fn shl<F: Fn(Origin, Arg, Arg) -> RuntimeResult<Cell>>(
        self,
        origin: Origin,
        lhs: Origin,
        rhs: Arg,
        operator: Option<&ShlOperator<F>>,
    ) -> (r: RuntimeResult<Cell>)
        requires
            operator matches Some(op) ==> call_requires(op.invoke, (origin, Arg { origin: lhs, data: self.receiver }, rhs)),
        ensures
            dispatch_post(
                self,
                origin,
                lhs,
                rhs,
                (match operator { Some(op) => Some(&op.invoke), None => None::<&F> }),
                OperatorKind::Shl,
                r,
            ),
    {
        let invoke = match operator {
            Some(op) => Some(&op.invoke),
            None => None,
        };
        self.dispatch(origin, lhs, rhs, invoke, OperatorKind::Shl)
    }

    /// The right shift (`lhs >> rhs`) on this object, with the operator that its type exports;
    /// fails when the type exports none.
    pub fn shr<F: Fn(Origin, Arg, Arg) -> RuntimeResult<Cell>>(
        self,
        origin: Origin,
        lhs: Origin,
        rhs: Arg,
        operator: Option<&ShrOperator<F>>,
    ) -> (r: RuntimeResult<Cell>)
        requires
            operator matches Some(op) ==> call_requires(op.invoke, (origin, Arg { origin: lhs, data: self.receiver }, rhs)),
        ensures
            dispatch_post(
                self,
                origin,
                lhs,
                rhs,
                (match operator { Some(op) => Some(&op.invoke), None => None::<&F> }),
                OperatorKind::Shr,
                r,
            ),
    {
        let invoke = match operator {
            Some(op) => Some(&op.invoke),
            None => None,
        };
        self.dispatch(origin, lhs, rhs, invoke, OperatorKind::Shr)
    }

    /// The remainder (`lhs % rhs`) on this object, with the operator that its type exports;
    /// fails when the type exports none.
    pub fn rem<F: Fn(Origin, Arg, Arg) -> RuntimeResult<Cell>>(
        self,
        origin: Origin,
        lhs: Origin,
        rhs: Arg,
        operator: Option<&RemOperator<F>>,
    ) -> (r: RuntimeResult<Cell>)
        requires
            operator matches Some(op) ==> call_requires(op.invoke, (origin, Arg { origin: lhs, data: self.receiver }, rhs)),
        ensures
            dispatch_post(
                self,
                origin,
                lhs,
                rhs,
                (match operator { Some(op) => Some(&op.invoke), None => None::<&F> }),
                OperatorKind::Rem,
                r,
            ),
    {
        let invoke = match operator {
            Some(op) => Some(&op.invoke),
            None => None,
        };
        self.dispatch(origin, lhs, rhs, invoke, OperatorKind::Rem)
    }

    /// The assignment (`lhs = rhs`) on this object, with the operator that its type exports;
    /// fails when the type exports none.
    pub fn assign<F: Fn(Origin, Arg, Arg) -> RuntimeResult<()>>(
        self,
        origin: Origin,
        lhs: Origin,
        rhs: Arg,
        operator: Option<&AssignOperator<F>>,
    ) -> (r: RuntimeResult<()>)
        requires
            operator matches Some(op) ==> call_requires(op.invoke, (origin, Arg { origin: lhs, data: self.receiver }, rhs)),
        ensures
            dispatch_post(
                self,
                origin,
                lhs,
                rhs,
                (match operator { Some(op) => Some(&op.invoke), None => None::<&F> }),
                OperatorKind::Assign,
                r,
            ),
    {
        let invoke = match operator {
            Some(op) => Some(&op.invoke),
            None => None,
        };
        self.dispatch(origin, lhs, rhs, invoke, OperatorKind::Assign)
    }

    /// The binding of this function to the context `rhs` on this object, with the operator that its type exports;
    /// fails when the type exports none.
    pub fn bind<F: Fn(Origin, Arg, Arg) -> RuntimeResult<()>>(
        self,
        origin: Origin,
        lhs: Origin,
        rhs: Arg,
        operator: Option<&BindingOperator<F>>,
    ) -> (r: RuntimeResult<()>)
        requires
            operator matches Some(op) ==> call_requires(op.invoke, (origin, Arg { origin: lhs, data: self.receiver }, rhs)),
        ensures
            dispatch_post(
                self,
                origin,
                lhs,
                rhs,
                (match operator { Some(op) => Some(&op.invoke), None => None::<&F> }),
                OperatorKind::Binding,
                r,
            ),
    {
        let invoke = match operator {
            Some(op) => Some(&op.invoke),
            None => None,
        };
        self.dispatch(origin, lhs, rhs, invoke, OperatorKind::Binding)
    }

    /// The compound assignment (`lhs += rhs`) on this object, with the operator that its type exports;
    /// fails when the type exports none.
    pub fn add_assign<F: Fn(Origin, Arg, Arg) -> RuntimeResult<()>>(
        self,
        origin: Origin,
        lhs: Origin,
        rhs: Arg,
        operator: Option<&AddAssignOperator<F>>,
    ) -> (r: RuntimeResult<()>)
        requires
            operator matches Some(op) ==> call_requires(op.invoke, (origin, Arg { origin: lhs, data: self.receiver }, rhs)),
        ensures
            dispatch_post(
                self,
                origin,
                lhs,
                rhs,
                (match operator { Some(op) => Some(&op.invoke), None => None::<&F> }),
                OperatorKind::AddAssign,
                r,
            ),
    {
        let invoke = match operator {
            Some(op) => Some(&op.invoke),
            None => None,
        };
        self.dispatch(origin, lhs, rhs, invoke, OperatorKind::AddAssign)
    }

    /// The compound assignment (`lhs -= rhs`) on this object, with the operator that its type exports;
    /// fails when the type exports none.
    pub fn sub_assign<F: Fn(Origin, Arg, Arg) -> RuntimeResult<()>>(
        self,
        origin: Origin,
        lhs: Origin,
        rhs: Arg,
        operator: Option<&SubAssignOperator<F>>,
    ) -> (r: RuntimeResult<()>)
        requires
            operator matches Some(op) ==> call_requires(op.invoke, (origin, Arg { origin: lhs, data: self.receiver }, rhs)),
        ensures
            dispatch_post(
                self,
                origin,
                lhs,
                rhs,
                (match operator { Some(op) => Some(&op.invoke), None => None::<&F> }),
                OperatorKind::SubAssign,
                r,
            ),
    {
        let invoke = match operator {
            Some(op) => Some(&op.invoke),
            None => None,
        };
        self.dispatch(origin, lhs, rhs, invoke, OperatorKind::SubAssign)
    }

    /// The compound assignment (`lhs *= rhs`) on this object, with the operator that its type exports;
    /// fails when the type exports none.
    pub fn mul_assign<F: Fn(Origin, Arg, Arg) -> RuntimeResult<()>>(
        self,
        origin: Origin,
        lhs: Origin,
        rhs: Arg,
        operator: Option<&MulAssignOperator<F>>,
    ) -> (r: RuntimeResult<()>)
        requires
            operator matches Some(op) ==> call_requires(op.invoke, (origin, Arg { origin: lhs, data: self.receiver }, rhs)),
        ensures
            dispatch_post(
                self,
                origin,
                lhs,
                rhs,
                (match operator { Some(op) => Some(&op.invoke), None => None::<&F> }),
                OperatorKind::MulAssign,
                r,
            ),
    {
        let invoke = match operator {
            Some(op) => Some(&op.invoke),
            None => None,
        };
        self.dispatch(origin, lhs, rhs, invoke, OperatorKind::MulAssign)
    }

    /// The compound assignment (`lhs /= rhs`) on this object, with the operator that its type exports;
    /// fails when the type exports none.
    pub fn div_assign<F: Fn(Origin, Arg, Arg) -> RuntimeResult<()>>(
        self,
        origin: Origin,
        lhs: Origin,
        rhs: Arg,
        operator: Option<&DivAssignOperator<F>>,
    ) -> (r: RuntimeResult<()>)
        requires
            operator matches Some(op) ==> call_requires(op.invoke, (origin, Arg { origin: lhs, data: self.receiver }, rhs)),
        ensures
            dispatch_post(
                self,
                origin,
                lhs,
                rhs,
                (match operator { Some(op) => Some(&op.invoke), None => None::<&F> }),
                OperatorKind::DivAssign,
                r,
            ),
    {
        let invoke = match operator {
            Some(op) => Some(&op.invoke),
            None => None,
        };
        self.dispatch(origin, lhs, rhs, invoke, OperatorKind::DivAssign)
    }

    /// The compound assignment (`lhs &= rhs`) on this object, with the operator that its type exports;
    /// fails when the type exports none.
    pub fn bit_and_assign<F: Fn(Origin, Arg, Arg) -> RuntimeResult<()>>(
        self,
        origin: Origin,
        lhs: Origin,
        rhs: Arg,
        operator: Option<&BitAndAssignOperator<F>>,
    ) -> (r: RuntimeResult<()>)
        requires
            operator matches Some(op) ==> call_requires(op.invoke, (origin, Arg { origin: lhs, data: self.receiver }, rhs)),
        ensures
            dispatch_post(
                self,
                origin,
                lhs,
                rhs,
                (match operator { Some(op) => Some(&op.invoke), None => None::<&F> }),
                OperatorKind::BitAndAssign,
                r,
            ),
    {
        let invoke = match operator {
            Some(op) => Some(&op.invoke),
            None => None,
        };
        self.dispatch(origin, lhs, rhs, invoke, OperatorKind::BitAndAssign)
    }

    /// The compound assignment (`lhs |= rhs`) on this object, with the operator that its type exports;
    /// fails when the type exports none.
    pub fn bit_or_assign<F: Fn(Origin, Arg, Arg) -> RuntimeResult<()>>(
        self,
        origin: Origin,
        lhs: Origin,
        rhs: Arg,
        operator: Option<&BitOrAssignOperator<F>>,
    ) -> (r: RuntimeResult<()>)
        requires
            operator matches Some(op) ==> call_requires(op.invoke, (origin, Arg { origin: lhs, data: self.receiver }, rhs)),
        ensures
            dispatch_post(
                self,
                origin,
                lhs,
                rhs,
                (match operator { Some(op) => Some(&op.invoke), None => None::<&F> }),
                OperatorKind::BitOrAssign,
                r,
            ),
    {
        let invoke = match operator {
            Some(op) => Some(&op.invoke),
            None => None,
        };
        self.dispatch(origin, lhs, rhs, invoke, OperatorKind::BitOrAssign)
    }

    /// The compound assignment (`lhs ^= rhs`) on this object, with the operator that its type exports;
    /// fails when the type exports none.
    pub fn bit_xor_assign<F: Fn(Origin, Arg, Arg) -> RuntimeResult<()>>(
        self,
        origin: Origin,
        lhs: Origin,
        rhs: Arg,
        operator: Option<&BitXorAssignOperator<F>>,
    ) -> (r: RuntimeResult<()>)
        requires
            operator matches Some(op) ==> call_requires(op.invoke, (origin, Arg { origin: lhs, data: self.receiver }, rhs)),
        ensures
            dispatch_post(
                self,
                origin,
                lhs,
                rhs,
                (match operator { Some(op) => Some(&op.invoke), None => None::<&F> }),
                OperatorKind::BitXorAssign,
                r,
            ),
    {
        let invoke = match operator {
            Some(op) => Some(&op.invoke),
            None => None,
        };
        self.dispatch(origin, lhs, rhs, invoke, OperatorKind::BitXorAssign)
    }

    /// The compound assignment (`lhs <<= rhs`) on this object, with the operator that its type exports;
    /// fails when the type exports none.
    pub fn shl_assign<F: Fn(Origin, Arg, Arg) -> RuntimeResult<()>>(
        self,
        origin: Origin,
        lhs: Origin,
        rhs: Arg,
        operator: Option<&ShlAssignOperator<F>>,
    ) -> (r: RuntimeResult<()>)
        requires
            operator matches Some(op) ==> call_requires(op.invoke, (origin, Arg { origin: lhs, data: self.receiver }, rhs)),
        ensures
            dispatch_post(
                self,
                origin,
                lhs,
                rhs,
                (match operator { Some(op) => Some(&op.invoke), None => None::<&F> }),
                OperatorKind::ShlAssign,
                r,
            ),
    {
        let invoke = match operator {
            Some(op) => Some(&op.invoke),
            None => None,
        };
        self.dispatch(origin, lhs, rhs, invoke, OperatorKind::ShlAssign)
    }

    /// The compound assignment (`lhs >>= rhs`) on this object, with the operator that its type exports;
    /// fails when the type exports none.
    pub fn shr_assign<F: Fn(Origin, Arg, Arg) -> RuntimeResult<()>>(
        self,
        origin: Origin,
        lhs: Origin,
        rhs: Arg,
        operator: Option<&ShrAssignOperator<F>>,
    ) -> (r: RuntimeResult<()>)
        requires
            operator matches Some(op) ==> call_requires(op.invoke, (origin, Arg { origin: lhs, data: self.receiver }, rhs)),
        ensures
            dispatch_post(
                self,
                origin,
                lhs,
                rhs,
                (match operator { Some(op) => Some(&op.invoke), None => None::<&F> }),
                OperatorKind::ShrAssign,
                r,
            ),
    {
        let invoke = match operator {
            Some(op) => Some(&op.invoke),
            None => None,
        };
        self.dispatch(origin, lhs, rhs, invoke, OperatorKind::ShrAssign)
    }

    /// The compound assignment (`lhs %= rhs`) on this object, with the operator that its type exports;
    /// fails when the type exports none.
    pub fn rem_assign<F: Fn(Origin, Arg, Arg) -> RuntimeResult<()>>(
        self,
        origin: Origin,
        lhs: Origin,
        rhs: Arg,
        operator: Option<&RemAssignOperator<F>>,
    ) -> (r: RuntimeResult<()>)
        requires
            operator matches Some(op) ==> call_requires(op.invoke, (origin, Arg { origin: lhs, data: self.receiver }, rhs)),
        ensures
            dispatch_post(
                self,
                origin,
                lhs,
                rhs,
                (match operator { Some(op) => Some(&op.invoke), None => None::<&F> }),
                OperatorKind::RemAssign,
                r,
            ),
    {
        let invoke = match operator {
            Some(op) => Some(&op.invoke),
            None => None,
        };
        self.dispatch(origin, lhs, rhs, invoke, OperatorKind::RemAssign)
    }

    /// The equality test (`lhs == rhs`) on this object, with the operator that its type exports;
    /// fails when the type exports none.
    pub fn partial_eq<F: Fn(Origin, Arg, Arg) -> RuntimeResult<bool>>(
        self,
        origin: Origin,
        lhs: Origin,
        rhs: Arg,
        operator: Option<&PartialEqOperator<F>>,
    ) -> (r: RuntimeResult<bool>)
        requires
            operator matches Some(op) ==> call_requires(op.invoke, (origin, Arg { origin: lhs, data: self.receiver }, rhs)),
        ensures
            dispatch_post(
                self,
                origin,
                lhs,
                rhs,
                (match operator { Some(op) => Some(&op.invoke), None => None::<&F> }),
                OperatorKind::PartialEq,
                r,
            ),
    {
        let invoke = match operator {
            Some(op) => Some(&op.invoke),
            None => None,
        };
        self.dispatch(origin, lhs, rhs, invoke, OperatorKind::PartialEq)
    }

    /// The logical negation (`!rhs`) on this object, with the operator that its type exports;
    /// fails when the type exports none.
    pub fn not<F: Fn(Origin, Arg) -> RuntimeResult<Cell>>(
        self,
        origin: Origin,
        rhs: Origin,
        operator: Option<&NotOperator<F>>,
    ) -> (r: RuntimeResult<Cell>)
        requires
            operator matches Some(op) ==> call_requires(op.invoke, (origin, Arg { origin: rhs, data: self.receiver })),
        ensures
            unary_post(
                self,
                origin,
                rhs,
                (match operator { Some(op) => Some(&op.invoke), None => None::<&F> }),
                OperatorKind::Not,
                r,
            ),
    {
        let invoke = match operator {
            Some(op) => Some(&op.invoke),
            None => None,
        };
        self.dispatch_unary(origin, rhs, invoke, OperatorKind::Not)
    }

    /// The numeric negation (`-rhs`) on this object, with the operator that its type exports;
    /// fails when the type exports none.
    pub fn neg<F: Fn(Origin, Arg) -> RuntimeResult<Cell>>(
        self,
        origin: Origin,
        rhs: Origin,
        operator: Option<&NegOperator<F>>,
    ) -> (r: RuntimeResult<Cell>)
        requires
            operator matches Some(op) ==> call_requires(op.invoke, (origin, Arg { origin: rhs, data: self.receiver })),
        ensures
            unary_post(
                self,
                origin,
                rhs,
                (match operator { Some(op) => Some(&op.invoke), None => None::<&F> }),
                OperatorKind::Neg,
                r,
            ),
    {
        let invoke = match operator {
            Some(op) => Some(&op.invoke),
            None => None,
        };
        self.dispatch_unary(origin, rhs, invoke, OperatorKind::Neg)
    }
}

} // verus!

verus! {

/// What a full comparison of an object gives: the type's full ordering
/// operator, else its partial ordering operator when that one orders the
/// two sides (its errors pass through), else the error that the type does
/// not implement full ordering.
pub open spec fn ord_fallback_post<F, G>(
    receiver: Object,
    origin: Origin,
    lhs: Origin,
    rhs: Arg,
    ord: Option<&F>,
    partial_ord: Option<&G>,
    r: RuntimeResult<std::cmp::Ordering>,
) -> bool where
    F: Fn(Origin, Arg, Arg) -> RuntimeResult<std::cmp::Ordering>,
    G: Fn(Origin, Arg, Arg) -> RuntimeResult<Option<std::cmp::Ordering>>,
 {
    let target = Arg { origin: lhs, data: receiver.receiver };
    let undefined = RuntimeError::UndefinedOperator {
        access_origin: origin,
        receiver_origin: Some(receiver.receiver.spec_origin()),
        receiver_type: receiver.ty,
        operator: OperatorKind::Ord,
    };
    match (ord, partial_ord) {
        (Some(f), _) => call_ensures(*f, (origin, target, rhs), r),
        (None, Some(g)) => match r {
            Ok(ordering) => call_ensures(
                *g,
                (origin, target, rhs),
                Ok::<Option<std::cmp::Ordering>, RuntimeError>(Some(ordering)),
            ),
            Err(e) => call_ensures(*g, (origin, target, rhs), Err::<Option<std::cmp::Ordering>, RuntimeError>(e))
                || (e == undefined && call_ensures(
                *g,
                (origin, target, rhs),
                Ok::<Option<std::cmp::Ordering>, RuntimeError>(None),
            )),
        },
        (None, None) => r == Err::<std::cmp::Ordering, RuntimeError>(undefined),
    }
}

impl Object {
    /// The partial comparison of this object with `rhs`, with the partial
    /// ordering operator that its type exports; fails when the type exports
    /// none.
    pub fn partial_ord<F: Fn(Origin, Arg, Arg) -> RuntimeResult<Option<std::cmp::Ordering>>>(
        self,
        origin: Origin,
        lhs: Origin,
        rhs: Arg,
        operator: Option<&PartialOrdOperator<F>>,
    ) -> (r: RuntimeResult<Option<std::cmp::Ordering>>)
        requires
            operator matches Some(op) ==> call_requires(op.invoke, (origin, Arg { origin: lhs, data: self.receiver }, rhs)),
        ensures
            dispatch_post(
                self,
                origin,
                lhs,
                rhs,
                (match operator { Some(op) => Some(&op.invoke), None => None::<&F> }),
                OperatorKind::PartialOrd,
                r,
            ),
    {
        let invoke = match operator {
            Some(op) => Some(&op.invoke),
            None => None,
        };
        self.dispatch(origin, lhs, rhs, invoke, OperatorKind::PartialOrd)
    }

    /// The full comparison of this object with `rhs`, with the full
    /// ordering operator that its type exports; fails when the type exports
    /// none.
    pub fn ord<F: Fn(Origin, Arg, Arg) -> RuntimeResult<std::cmp::Ordering>>(
        self,
        origin: Origin,
        lhs: Origin,
        rhs: Arg,
        operator: Option<&OrdOperator<F>>,
    ) -> (r: RuntimeResult<std::cmp::Ordering>)
        requires
            operator matches Some(op) ==> call_requires(op.invoke, (origin, Arg { origin: lhs, data: self.receiver }, rhs)),
        ensures
            dispatch_post(
                self,
                origin,
                lhs,
                rhs,
                (match operator { Some(op) => Some(&op.invoke), None => None::<&F> }),
                OperatorKind::Ord,
                r,
            ),
    {
        let invoke = match operator {
            Some(op) => Some(&op.invoke),
            None => None,
        };
        self.dispatch(origin, lhs, rhs, invoke, OperatorKind::Ord)
    }

    /// The full comparison of this object with `rhs`: the type's full
    /// ordering operator, else its partial ordering operator when that one
    /// orders the two sides, else the error that the type does not implement
    /// full ordering.
    pub fn ord_fallback<F, G>(
        self,
        origin: Origin,
        lhs: Origin,
        rhs: Arg,
        ord: Option<&OrdOperator<F>>,
        partial_ord: Option<&PartialOrdOperator<G>>,
    ) -> (r: RuntimeResult<std::cmp::Ordering>) where
        F: Fn(Origin, Arg, Arg) -> RuntimeResult<std::cmp::Ordering>,
        G: Fn(Origin, Arg, Arg) -> RuntimeResult<Option<std::cmp::Ordering>>,

        requires
            ord matches Some(op) ==> call_requires(op.invoke, (origin, Arg { origin: lhs, data: self.receiver }, rhs)),
            partial_ord matches Some(op) ==> call_requires(op.invoke, (origin, Arg { origin: lhs, data: self.receiver }, rhs)),
        ensures
            ord_fallback_post(
                self,
                origin,
                lhs,
                rhs,
                (match ord { Some(op) => Some(&op.invoke), None => None::<&F> }),
                (match partial_ord { Some(op) => Some(&op.invoke), None => None::<&G> }),
                r,
            ),
    {
        if let Some(op) = ord {
            return (op.invoke)(origin, self.arg(lhs), rhs);
        }
        let undefined = RuntimeError::UndefinedOperator {
            access_origin: origin,
            receiver_origin: Some(self.receiver.origin()),
            receiver_type: self.ty,
            operator: OperatorKind::Ord,
        };
        if let Some(op) = partial_ord {
            let compared = (op.invoke)(origin, self.arg(lhs), rhs);
            let r = match compared {
                Err(e) => Err(e),
                Ok(Some(ordering)) => Ok(ordering),
                Ok(None) => Err(undefined),
            };
            return r;
        }
        Err(undefined)
    }
}

} // verus!
