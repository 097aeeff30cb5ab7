use vstd::prelude::*;

use crate::origin::Origin;
use crate::ty::TypeMeta;
use crate::range::IndexRange;
use crate::text::{indented_lines, push_indented_lines};

verus! {

/// The kind of a script operator.
#[derive(Clone, Copy, PartialEq, Eq, Structural, Debug)]
pub enum OperatorKind {
    Assign,
    Concat,
    Field,
    Clone,
    Debug,
    Display,
    PartialEq,
    Default,
    PartialOrd,
    Ord,
    Hash,
    Invocation,
    Binding,
    Add,
    AddAssign,
    Sub,
    SubAssign,
    Mul,
    MulAssign,
    Div,
    DivAssign,
    And,
    Or,
    Not,
    Neg,
    BitAnd,
    BitAndAssign,
    BitOr,
    BitOrAssign,
    BitXor,
    BitXorAssign,
    Shl,
    ShlAssign,
    Shr,
    ShrAssign,
    Rem,
    RemAssign,
}

/// Why a number could not be cast into another numeric type.
#[derive(Clone, Copy, PartialEq, Eq, Structural, Debug)]
pub enum NumberCastCause {
    /// The target type cannot represent infinite numbers.
    Infinite,
    /// The target type cannot represent NaN numbers.
    NAN,
    /// The value is too large for the target type.
    Overflow,
    /// The value is too small for the target type.
    Underflow,
}

/// The numeric operation that failed.
#[derive(Clone, Copy, PartialEq, Eq, Structural, Debug)]
pub enum NumericOperationKind {
    Add,
    Sub,
    Mul,
    Div,
    Neg,
    Shl,
    Shr,
    Rem,
}

/// An operand of a failed numeric operation: its type and its display text.
#[derive(Clone, Debug)]
pub struct NumOperand {
    pub ty: TypeMeta,
    pub value: String,
}

/// Any error that may occur during the evaluation of script code.
///
/// Values that the script engine keeps as formattable objects (error causes,
/// numeric values) are held here by their display text.
#[derive(Clone, Debug)]
pub enum RuntimeError {
    Nil { access_origin: Origin },
    NonSingleton { access_origin: Origin, actual: usize },
    ShortSlice { access_origin: Origin, minimum: usize, actual: usize },
    OutOfBounds { access_origin: Origin, index: usize, length: usize },
    ReadOnly { access_origin: Origin, data_origin: Origin },
    WriteOnly { access_origin: Origin, data_origin: Origin },
    ReadToWrite { access_origin: Origin, borrow_origin: Origin },
    WriteToRead { access_origin: Origin, borrow_origin: Origin },
    WriteToWrite { access_origin: Origin, borrow_origin: Origin },
    Utf8Decoding { access_origin: Origin, cause: String },
    BorrowLimit { access_origin: Origin, limit: usize },
    TypeMismatch { access_origin: Origin, data_type: TypeMeta, expected_types: Vec<TypeMeta> },
    DowncastStatic { access_origin: Origin },
    UpcastResult { access_origin: Origin, cause: String },
    NumberCast {
        access_origin: Origin,
        from: TypeMeta,
        to: TypeMeta,
        cause: NumberCastCause,
        value: String,
    },
    NumericOperation {
        invoke_origin: Origin,
        kind: NumericOperationKind,
        lhs: NumOperand,
        rhs: Option<NumOperand>,
        target: TypeMeta,
    },
    RangeCast { access_origin: Origin, from: IndexRange, to: String },
    MalformedRange { access_origin: Origin, start_bound: usize, end_bound: usize },
    PrimitiveParse { access_origin: Origin, from: String, to: TypeMeta, cause: String },
    ArityMismatch {
        invocation_origin: Origin,
        function_origin: Origin,
        parameters: usize,
        arguments: usize,
    },
    UndefinedOperator {
        access_origin: Origin,
        receiver_origin: Option<Origin>,
        receiver_type: TypeMeta,
        operator: OperatorKind,
    },
    UnknownField {
        access_origin: Origin,
        receiver_origin: Origin,
        receiver_type: TypeMeta,
        field: String,
    },
    FormatError { access_origin: Origin, receiver_origin: Origin },
    UnknownPackage { access_origin: Origin, name: String, version: String },
    Interrupted { origin: Origin },
    StackOverflow { origin: Origin },
}

/// The result of a runtime operation.
pub type RuntimeResult<T> = Result<T, RuntimeError>;

} // verus!

verus! {

impl RuntimeError {
    /// The location where the error occurred.
    pub open spec fn spec_primary_origin(&self) -> Origin {
        match self {
            RuntimeError::Nil { access_origin, .. } => *access_origin,
            RuntimeError::NonSingleton { access_origin, .. } => *access_origin,
            RuntimeError::ShortSlice { access_origin, .. } => *access_origin,
            RuntimeError::OutOfBounds { access_origin, .. } => *access_origin,
            RuntimeError::ReadOnly { access_origin, .. } => *access_origin,
            RuntimeError::WriteOnly { access_origin, .. } => *access_origin,
            RuntimeError::ReadToWrite { access_origin, .. } => *access_origin,
            RuntimeError::WriteToRead { access_origin, .. } => *access_origin,
            RuntimeError::WriteToWrite { access_origin, .. } => *access_origin,
            RuntimeError::Utf8Decoding { access_origin, .. } => *access_origin,
            RuntimeError::BorrowLimit { access_origin, .. } => *access_origin,
            RuntimeError::TypeMismatch { access_origin, .. } => *access_origin,
            RuntimeError::DowncastStatic { access_origin, .. } => *access_origin,
            RuntimeError::UpcastResult { access_origin, .. } => *access_origin,
            RuntimeError::NumberCast { access_origin, .. } => *access_origin,
            RuntimeError::RangeCast { access_origin, .. } => *access_origin,
            RuntimeError::MalformedRange { access_origin, .. } => *access_origin,
            RuntimeError::NumericOperation { invoke_origin, .. } => *invoke_origin,
            RuntimeError::PrimitiveParse { access_origin, .. } => *access_origin,
            RuntimeError::ArityMismatch { invocation_origin, .. } => *invocation_origin,
            RuntimeError::UndefinedOperator { access_origin, .. } => *access_origin,
            RuntimeError::UnknownField { access_origin, .. } => *access_origin,
            RuntimeError::FormatError { access_origin, .. } => *access_origin,
            RuntimeError::UnknownPackage { access_origin, .. } => *access_origin,
            RuntimeError::Interrupted { origin } => *origin,
            RuntimeError::StackOverflow { origin } => *origin,
        }
    }

    /// An extra location related to the cause of the error, if the error
    /// has one.
    pub open spec fn spec_secondary_origin(&self) -> Option<Origin> {
        match self {
            RuntimeError::ReadOnly { data_origin, .. } => Some(*data_origin),
            RuntimeError::WriteOnly { data_origin, .. } => Some(*data_origin),
            RuntimeError::ReadToWrite { borrow_origin, .. } => Some(*borrow_origin),
            RuntimeError::WriteToRead { borrow_origin, .. } => Some(*borrow_origin),
            RuntimeError::WriteToWrite { borrow_origin, .. } => Some(*borrow_origin),
            RuntimeError::ArityMismatch { function_origin, .. } => Some(*function_origin),
            RuntimeError::UndefinedOperator { receiver_origin, .. } => *receiver_origin,
            RuntimeError::UnknownField { receiver_origin, .. } => Some(*receiver_origin),
            RuntimeError::FormatError { receiver_origin, .. } => Some(*receiver_origin),
            _ => None,
        }
    }

    /// The message that describes the secondary origin; empty when the
    /// error has no secondary origin.
    pub open spec fn spec_secondary_description(&self) -> Seq<char> {
        match self {
            RuntimeError::ReadOnly { .. } => "data object origin"@,
            RuntimeError::WriteOnly { .. } => "data object origin"@,
            RuntimeError::ReadToWrite { .. } => "active read access"@,
            RuntimeError::WriteToRead { .. } => "active write access"@,
            RuntimeError::WriteToWrite { .. } => "active write access"@,
            RuntimeError::ArityMismatch { .. } => "function origin"@,
            RuntimeError::UndefinedOperator { receiver_origin, .. } => if receiver_origin.is_some() {
                "receiver origin"@
            } else {
                Seq::<char>::empty()
            },
            RuntimeError::UnknownField { .. } => "receiver origin"@,
            RuntimeError::FormatError { .. } => "receiver object"@,
            _ => Seq::<char>::empty(),
        }
    }

    /// A detailed explanation of the error.
    pub open spec fn spec_summary(&self) -> Seq<char> {
        match self {
            RuntimeError::Nil { .. } => "The requested operation has been applied on the void data.\n\nThe source of the void data could be:\n    - an empty array \"[]\",\n    - a struct field that does not exists in the struct,\n    - a function or operator that does not return any value,\n    - a function that returns \"Option::None\",\n    - or any other source.\n\nUse the ? operator to check if the value is void: \"if a? {...}\"."@,
            RuntimeError::NonSingleton { .. } => "Most script operations require singleton objects (just normal objects)\nand cannot be applied to arrays with zero or more than one element.\n\nConsider using the index operator to retrieve a single element from the array:\n    \"my_array[3] + 10\" instead of \"my_array + 10\"."@,
            RuntimeError::ShortSlice { .. } => "The underlying operation requires an array of longer length."@,
            RuntimeError::OutOfBounds { .. } => "The specified range or an index is out of the array bounds."@,
            RuntimeError::ReadOnly { .. } => "The underlying operation requires write access to one of its arguments,\nbut the argument reference provides read-only access."@,
            RuntimeError::WriteOnly { .. } => "The underlying operation requires read access to one of its arguments,\nbut the argument reference provides write-only access."@,
            RuntimeError::ReadToWrite { .. } => "The underlying operation requires write access to one of its arguments,\nbut the argument object is currently being read.\n\nThe script engine does not allow simultaneous read and write access\nto the same data.\n\nFor instance, if the script calls a function (or an operator) with this object\nas an argument and the function returns a reference that indirectly points\nto the argument's data, the object is blocked for writing until the reference's\nlifetime ends."@,
            RuntimeError::WriteToRead { .. } => "The underlying operation requires read access to one of its arguments,\nbut the argument object is currently being written.\n\nThe script engine does not allow simultaneous read and write access\nto the same data.\n\nFor instance, if the script calls a function (or an operator) with this object\nas an argument and the function returns a reference that indirectly modifies\nargument's data, the object is blocked for reading until the reference's\nlifetime ends."@,
            RuntimeError::WriteToWrite { .. } => "The underlying operation requires write access to one of its arguments,\nbut the argument object is currently being written.\n\nThe script engine mandates that the ongoing write access to the data object\nis exclusive.\n\nFor instance, if the script calls a function (or an operator) with this object\nas an argument and the function returns a reference that indirectly modifies\nargument's data, the object is blocked from another write access until\nthe reference's lifetime ends."@,
            RuntimeError::BorrowLimit { .. } => "The script engine has a predefined limit for active references\nto the same data object.\n\nThis limit may be exceeded, for example, if a recursive function attempts\nto access the same object too many times."@,
            RuntimeError::TypeMismatch { .. } => "The underlying function (or operator) requires an argument of a different type\nthan the one being provided."@,
            RuntimeError::DowncastStatic { .. } => "The underlying function (or operator) requested a data object\nwith a lifetime that may be different from the actual object's lifetime."@,
            RuntimeError::RangeCast { .. } => "Failed to cast a range to another range type."@,
            RuntimeError::MalformedRange { .. } => "Malformed range bounds."@,
            RuntimeError::UndefinedOperator { .. } => "The object's type that is responsible to perform specified operation does not\nimplement this operator."@,
            RuntimeError::UnknownField { .. } => "The object does not have specified field."@,
            RuntimeError::FormatError { .. } => "Failed to turn the object into string representation."@,
            RuntimeError::UnknownPackage { .. } => "Package lookup failure."@,
            RuntimeError::Interrupted { .. } => "The script explicitly terminated by the host request."@,
            RuntimeError::StackOverflow { .. } => "The script engine failed to invoke the function,\nbecause the engine's thread stack exceeded its limit.\n                \nThis situation may occur in functions with unlimited recursion."@,
            RuntimeError::Utf8Decoding { cause, .. } => "The underlying operation is attempting to reinterpret an array of bytes\nas a UTF-8 encoding of the Unicode text, but the script engine has detected\nthat this encoding is invalid.\n\nError description:"@ + indented_lines(cause@),
            RuntimeError::UpcastResult { cause, .. } => "The invoked function (or operator) returned explicit error.\n\nError description:"@ + indented_lines(cause@),
            RuntimeError::PrimitiveParse { cause, .. } => "String parse error:"@ + indented_lines(cause@),
            RuntimeError::NumberCast { cause, .. } => match cause {
                NumberCastCause::Infinite | NumberCastCause::NAN => "Failed to cast primitive numeric type to another numeric type."@,
                NumberCastCause::Overflow => "Failed to cast primitive numeric type to another numeric type.\n\nThe source value is bigger than the target type upper bound.\n"@,
                NumberCastCause::Underflow => "Failed to cast primitive numeric type to another numeric type.\n\nThe source value is lesser than the target type lower bound.\n"@,
            },
            RuntimeError::NumericOperation { target, .. } => "Failed to perform numeric operation between two primitive types\n\nThe result overflows "@ + target.name@
                + " bounds."@,
            RuntimeError::ArityMismatch { parameters, arguments, .. } => if *parameters > *arguments {
                "Not enough arguments."@
            } else {
                "Too many arguments."@
            },
        }
    }

    /// A detailed explanation of the error, as shown below the annotated
    /// source code.
    pub fn summary(&self) -> (r: String)
        ensures
            r@ == self.spec_summary(),
    {
        match self {
            RuntimeError::Nil { .. } => String::from_str("The requested operation has been applied on the void data.\n\nThe source of the void data could be:\n    - an empty array \"[]\",\n    - a struct field that does not exists in the struct,\n    - a function or operator that does not return any value,\n    - a function that returns \"Option::None\",\n    - or any other source.\n\nUse the ? operator to check if the value is void: \"if a? {...}\"."),
            RuntimeError::NonSingleton { .. } => String::from_str("Most script operations require singleton objects (just normal objects)\nand cannot be applied to arrays with zero or more than one element.\n\nConsider using the index operator to retrieve a single element from the array:\n    \"my_array[3] + 10\" instead of \"my_array + 10\"."),
            RuntimeError::ShortSlice { .. } => String::from_str("The underlying operation requires an array of longer length."),
            RuntimeError::OutOfBounds { .. } => String::from_str("The specified range or an index is out of the array bounds."),
            RuntimeError::ReadOnly { .. } => String::from_str("The underlying operation requires write access to one of its arguments,\nbut the argument reference provides read-only access."),
            RuntimeError::WriteOnly { .. } => String::from_str("The underlying operation requires read access to one of its arguments,\nbut the argument reference provides write-only access."),
            RuntimeError::ReadToWrite { .. } => String::from_str("The underlying operation requires write access to one of its arguments,\nbut the argument object is currently being read.\n\nThe script engine does not allow simultaneous read and write access\nto the same data.\n\nFor instance, if the script calls a function (or an operator) with this object\nas an argument and the function returns a reference that indirectly points\nto the argument's data, the object is blocked for writing until the reference's\nlifetime ends."),
            RuntimeError::WriteToRead { .. } => String::from_str("The underlying operation requires read access to one of its arguments,\nbut the argument object is currently being written.\n\nThe script engine does not allow simultaneous read and write access\nto the same data.\n\nFor instance, if the script calls a function (or an operator) with this object\nas an argument and the function returns a reference that indirectly modifies\nargument's data, the object is blocked for reading until the reference's\nlifetime ends."),
            RuntimeError::WriteToWrite { .. } => String::from_str("The underlying operation requires write access to one of its arguments,\nbut the argument object is currently being written.\n\nThe script engine mandates that the ongoing write access to the data object\nis exclusive.\n\nFor instance, if the script calls a function (or an operator) with this object\nas an argument and the function returns a reference that indirectly modifies\nargument's data, the object is blocked from another write access until\nthe reference's lifetime ends."),
            RuntimeError::BorrowLimit { .. } => String::from_str("The script engine has a predefined limit for active references\nto the same data object.\n\nThis limit may be exceeded, for example, if a recursive function attempts\nto access the same object too many times."),
            RuntimeError::TypeMismatch { .. } => String::from_str("The underlying function (or operator) requires an argument of a different type\nthan the one being provided."),
            RuntimeError::DowncastStatic { .. } => String::from_str("The underlying function (or operator) requested a data object\nwith a lifetime that may be different from the actual object's lifetime."),
            RuntimeError::RangeCast { .. } => String::from_str("Failed to cast a range to another range type."),
            RuntimeError::MalformedRange { .. } => String::from_str("Malformed range bounds."),
            RuntimeError::UndefinedOperator { .. } => String::from_str("The object's type that is responsible to perform specified operation does not\nimplement this operator."),
            RuntimeError::UnknownField { .. } => String::from_str("The object does not have specified field."),
            RuntimeError::FormatError { .. } => String::from_str("Failed to turn the object into string representation."),
            RuntimeError::UnknownPackage { .. } => String::from_str("Package lookup failure."),
            RuntimeError::Interrupted { .. } => String::from_str("The script explicitly terminated by the host request."),
            RuntimeError::StackOverflow { .. } => String::from_str("The script engine failed to invoke the function,\nbecause the engine's thread stack exceeded its limit.\n                \nThis situation may occur in functions with unlimited recursion."),
            RuntimeError::Utf8Decoding { cause, .. } => {
                let mut result = String::from_str("The underlying operation is attempting to reinterpret an array of bytes\nas a UTF-8 encoding of the Unicode text, but the script engine has detected\nthat this encoding is invalid.\n\nError description:");
                push_indented_lines(&mut result, cause.as_str());
                result
            },
            RuntimeError::UpcastResult { cause, .. } => {
                let mut result = String::from_str("The invoked function (or operator) returned explicit error.\n\nError description:");
                push_indented_lines(&mut result, cause.as_str());
                result
            },
            RuntimeError::PrimitiveParse { cause, .. } => {
                let mut result = String::from_str("String parse error:");
                push_indented_lines(&mut result, cause.as_str());
                result
            },
            RuntimeError::NumberCast { cause, .. } => match cause {
                NumberCastCause::Infinite | NumberCastCause::NAN => String::from_str("Failed to cast primitive numeric type to another numeric type."),
                NumberCastCause::Overflow => String::from_str("Failed to cast primitive numeric type to another numeric type.\n\nThe source value is bigger than the target type upper bound.\n"),
                NumberCastCause::Underflow => String::from_str("Failed to cast primitive numeric type to another numeric type.\n\nThe source value is lesser than the target type lower bound.\n"),
            },
            RuntimeError::NumericOperation { target, .. } => {
                let mut result = String::from_str("Failed to perform numeric operation between two primitive types\n\nThe result overflows ");
                result.append(target.name);
                result.append(" bounds.");
                result
            },
            RuntimeError::ArityMismatch { parameters, arguments, .. } => {
                if *parameters > *arguments {
                    String::from_str("Not enough arguments.")
                } else {
                    String::from_str("Too many arguments.")
                }
            },
        }
    }

    /// The location where the error occurred.
    pub fn primary_origin(&self) -> (r: Origin)
        ensures
            r == self.spec_primary_origin(),
    {
        match self {
            RuntimeError::Nil { access_origin, .. } => *access_origin,
            RuntimeError::NonSingleton { access_origin, .. } => *access_origin,
            RuntimeError::ShortSlice { access_origin, .. } => *access_origin,
            RuntimeError::OutOfBounds { access_origin, .. } => *access_origin,
            RuntimeError::ReadOnly { access_origin, .. } => *access_origin,
            RuntimeError::WriteOnly { access_origin, .. } => *access_origin,
            RuntimeError::ReadToWrite { access_origin, .. } => *access_origin,
            RuntimeError::WriteToRead { access_origin, .. } => *access_origin,
            RuntimeError::WriteToWrite { access_origin, .. } => *access_origin,
            RuntimeError::Utf8Decoding { access_origin, .. } => *access_origin,
            RuntimeError::BorrowLimit { access_origin, .. } => *access_origin,
            RuntimeError::TypeMismatch { access_origin, .. } => *access_origin,
            RuntimeError::DowncastStatic { access_origin, .. } => *access_origin,
            RuntimeError::UpcastResult { access_origin, .. } => *access_origin,
            RuntimeError::NumberCast { access_origin, .. } => *access_origin,
            RuntimeError::RangeCast { access_origin, .. } => *access_origin,
            RuntimeError::MalformedRange { access_origin, .. } => *access_origin,
            RuntimeError::NumericOperation { invoke_origin, .. } => *invoke_origin,
            RuntimeError::PrimitiveParse { access_origin, .. } => *access_origin,
            RuntimeError::ArityMismatch { invocation_origin, .. } => *invocation_origin,
            RuntimeError::UndefinedOperator { access_origin, .. } => *access_origin,
            RuntimeError::UnknownField { access_origin, .. } => *access_origin,
            RuntimeError::FormatError { access_origin, .. } => *access_origin,
            RuntimeError::UnknownPackage { access_origin, .. } => *access_origin,
            RuntimeError::Interrupted { origin } => *origin,
            RuntimeError::StackOverflow { origin } => *origin,
        }
    }

    /// An extra location related to the cause of the error: the previous
    /// borrow for the borrowing errors, the data's origin for access errors,
    /// the function's origin for arity errors, the receiver's origin for
    /// operator, field and format errors. Other errors have none.
    pub fn secondary_origin(&self) -> (r: Option<Origin>)
        ensures
            r == self.spec_secondary_origin(),
    {
        match self {
            RuntimeError::ReadOnly { data_origin, .. } => Some(*data_origin),
            RuntimeError::WriteOnly { data_origin, .. } => Some(*data_origin),
            RuntimeError::ReadToWrite { borrow_origin, .. } => Some(*borrow_origin),
            RuntimeError::WriteToRead { borrow_origin, .. } => Some(*borrow_origin),
            RuntimeError::WriteToWrite { borrow_origin, .. } => Some(*borrow_origin),
            RuntimeError::ArityMismatch { function_origin, .. } => Some(*function_origin),
            RuntimeError::UndefinedOperator { receiver_origin, .. } => *receiver_origin,
            RuntimeError::UnknownField { receiver_origin, .. } => Some(*receiver_origin),
            RuntimeError::FormatError { receiver_origin, .. } => Some(*receiver_origin),
            _ => None,
        }
    }

    /// The message that describes the secondary origin; empty when the
    /// error has no secondary origin.
    pub fn secondary_description(&self) -> (r: String)
        ensures
            r@ == self.spec_secondary_description(),
    {
        match self {
            RuntimeError::ReadOnly { .. } => String::from_str("data object origin"),
            RuntimeError::WriteOnly { .. } => String::from_str("data object origin"),
            RuntimeError::ReadToWrite { .. } => String::from_str("active read access"),
            RuntimeError::WriteToRead { .. } => String::from_str("active write access"),
            RuntimeError::WriteToWrite { .. } => String::from_str("active write access"),
            RuntimeError::ArityMismatch { .. } => String::from_str("function origin"),
            RuntimeError::UndefinedOperator { receiver_origin, .. } => {
                if receiver_origin.is_some() {
                    String::from_str("receiver origin")
                } else {
                    String::new()
                }
            },
            RuntimeError::UnknownField { .. } => String::from_str("receiver origin"),
            RuntimeError::FormatError { .. } => String::from_str("receiver object"),
            _ => String::new(),
        }
    }
}

} // verus!

verus! {

/// A value that a numeric error reports: printable and shareable between
/// threads.
pub trait NumValue: core::fmt::Debug + core::fmt::Display + Send + Sync + 'static {}

impl<T: core::fmt::Debug + core::fmt::Display + Send + Sync + 'static> NumValue for T {}

/// Unwrapping of runtime results.
pub trait RuntimeResultExt: Sized {
    /// The type of the successful value.
    type OkType;

    /// Whether the result holds a successful value.
    spec fn succeeded(&self) -> bool;

    /// The successful value.
    spec fn ok_value(&self) -> Self::OkType;

    /// The successful value of a result that succeeded.
    fn expect_blame(self, message: &str) -> (r: Self::OkType)
        requires
            self.succeeded(),
        ensures
            r == self.ok_value(),
    ;
}

impl<T> RuntimeResultExt for RuntimeResult<T> {
    type OkType = T;

    open spec fn succeeded(&self) -> bool {
        self is Ok
    }

    open spec fn ok_value(&self) -> T {
        self->Ok_0
    }

    fn expect_blame(self, message: &str) -> (r: T) {
        self.unwrap()
    }
}

} // verus!

verus! {

/// An error has a description of its secondary origin exactly when it has a
/// secondary origin: the description is empty for errors without one.
pub proof fn law_secondary_description_iff_origin(e: RuntimeError)
    ensures
        (e.spec_secondary_description().len() == 0) <==> (e.spec_secondary_origin() is None),
{
    reveal_strlit("data object origin");
    reveal_strlit("active read access");
    reveal_strlit("active write access");
    reveal_strlit("function origin");
    reveal_strlit("receiver origin");
    reveal_strlit("receiver object");
}

} // verus!
