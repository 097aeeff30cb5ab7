use ad_astra::error::{
    NumOperand, NumberCastCause, NumericOperationKind, OperatorKind, RuntimeError,
};
use ad_astra::origin::{Origin, RustOrigin, ScriptOrigin};
use ad_astra::range::IndexRange;
use ad_astra::ty::{FamilyInfo, TypeMeta};

fn at(start: usize) -> Origin {
    Origin::Script(ScriptOrigin { id: 3, start, end: start + 1 })
}

fn number_family() -> FamilyInfo {
    FamilyInfo { id: 500, name: "number", len: 3, is_fn: false }
}

fn number(id: u64, name: &'static str) -> TypeMeta {
    TypeMeta {
        id,
        name,
        size: 4,
        family: number_family(),
        origin: RustOrigin { file: 9, line: 1, column: 1 },
    }
}

fn single(id: u64, name: &'static str) -> TypeMeta {
    TypeMeta {
        id,
        name,
        size: 1,
        family: FamilyInfo { id: 600 + id, name, len: 1, is_fn: false },
        origin: RustOrigin { file: 9, line: 2, column: 1 },
    }
}

fn function(id: u64, name: &'static str) -> TypeMeta {
    TypeMeta {
        id,
        name,
        size: 8,
        family: FamilyInfo { id: 700, name: "fn", len: 2, is_fn: true },
        origin: RustOrigin { file: 9, line: 3, column: 1 },
    }
}

#[test]
fn simple_descriptions() {
    let cases = vec![
        (RuntimeError::Nil { access_origin: at(0) }, "inaccessible data"),
        (RuntimeError::ReadOnly { access_origin: at(0), data_origin: at(1) }, "read-only data"),
        (RuntimeError::WriteOnly { access_origin: at(0), data_origin: at(1) }, "write-only data"),
        (
            RuntimeError::ReadToWrite { access_origin: at(0), borrow_origin: at(1) },
            "cannot access data for write while it is being read",
        ),
        (
            RuntimeError::WriteToRead { access_origin: at(0), borrow_origin: at(1) },
            "cannot access data for read while it is being written",
        ),
        (
            RuntimeError::WriteToWrite { access_origin: at(0), borrow_origin: at(1) },
            "cannot access data for write more than once",
        ),
        (
            RuntimeError::Utf8Decoding { access_origin: at(0), cause: String::from("bad") },
            "invalid utf-8 encoding",
        ),
        (
            RuntimeError::BorrowLimit { access_origin: at(0), limit: 64 },
            "too many simultaneous data accesses",
        ),
        (
            RuntimeError::DowncastStatic { access_origin: at(0) },
            "cannot get static reference to the data owned by the script engine",
        ),
        (
            RuntimeError::UpcastResult { access_origin: at(0), cause: String::from("x") },
            "the function returned explicit error",
        ),
        (
            RuntimeError::FormatError { access_origin: at(0), receiver_origin: at(1) },
            "an error occurred during Debug or Display format function call",
        ),
        (RuntimeError::Interrupted { origin: at(0) }, "script evaluation interrupted"),
        (RuntimeError::StackOverflow { origin: at(0) }, "script engine stack overflow"),
    ];
    for (error, expected) in cases {
        assert_eq!(error.primary_description(), expected);
    }
}

#[test]
fn counting_descriptions() {
    assert_eq!(
        RuntimeError::NonSingleton { access_origin: at(0), actual: 0 }.primary_description(),
        "expected a single data instance, but the array with 0 elements provided",
    );
    assert_eq!(
        RuntimeError::ShortSlice { access_origin: at(0), minimum: 12, actual: 7 }.primary_description(),
        "expected an array with at least 12 elements, but the array with 7 elements provided",
    );
    assert_eq!(
        RuntimeError::OutOfBounds { access_origin: at(0), index: 105, length: 100 }.primary_description(),
        "index 105 out of 0..100 bounds",
    );
    assert_eq!(
        RuntimeError::MalformedRange { access_origin: at(0), start_bound: 30, end_bound: 4 }
            .primary_description(),
        "range 30 start bound is greater than the range end bound 4",
    );
    assert_eq!(
        RuntimeError::RangeCast {
            access_origin: at(0),
            from: IndexRange { start: 10, end: 2 },
            to: String::from("RangeInclusive"),
        }
        .primary_description(),
        "cannot cast 10..2 range to RangeInclusive type. target type bounds mismatch",
    );
    assert_eq!(
        RuntimeError::ArityMismatch {
            invocation_origin: at(0),
            function_origin: at(1),
            parameters: 1,
            arguments: 3,
        }
        .primary_description(),
        "the function requires 1 argument, but 3 provided",
    );
    assert_eq!(
        RuntimeError::ArityMismatch {
            invocation_origin: at(0),
            function_origin: at(1),
            parameters: 2,
            arguments: 0,
        }
        .primary_description(),
        "the function requires 2 arguments, but 0 provided",
    );
}

#[test]
fn decimal_of_large_numbers() {
    assert_eq!(
        RuntimeError::OutOfBounds { access_origin: at(0), index: usize::MAX, length: 1000 }
            .primary_description(),
        format!("index {} out of 0..1000 bounds", usize::MAX),
    );
}

#[test]
fn named_descriptions() {
    let i32_type = number(1, "i32");
    assert_eq!(
        RuntimeError::UndefinedOperator {
            access_origin: at(0),
            receiver_origin: None,
            receiver_type: i32_type,
            operator: OperatorKind::Default,
        }
        .primary_description(),
        "type 'i32' does not implement default constructor",
    );
    assert_eq!(
        RuntimeError::UnknownField {
            access_origin: at(0),
            receiver_origin: at(1),
            receiver_type: i32_type,
            field: String::from("foo"),
        }
        .primary_description(),
        "type 'i32' does not have field 'foo'",
    );
    assert_eq!(
        RuntimeError::UnknownPackage {
            access_origin: at(0),
            name: String::from("pkg"),
            version: String::from("1.2.3"),
        }
        .primary_description(),
        "unknown pkg@1.2.3 script package",
    );
    assert_eq!(
        RuntimeError::PrimitiveParse {
            access_origin: at(0),
            from: String::from("12\"x"),
            to: TypeMeta::of_usize(),
            cause: String::from("invalid digit"),
        }
        .primary_description(),
        "failed to parse \"12\\\"x\" as usize",
    );
}

#[test]
fn number_cast_descriptions() {
    let from = number(1, "i32");
    let to = single(2, "u8");
    let cast = |cause| RuntimeError::NumberCast {
        access_origin: at(0),
        from,
        to,
        cause,
        value: String::from("300"),
    };
    assert_eq!(cast(NumberCastCause::Overflow).primary_description(), "cannot cast 300i32 to u8 type");
    assert_eq!(cast(NumberCastCause::Underflow).primary_description(), "cannot cast 300i32 to u8 type");
    assert_eq!(
        cast(NumberCastCause::Infinite).primary_description(),
        "cannot cast infinity value of i32 type to u8",
    );
    assert_eq!(cast(NumberCastCause::NAN).primary_description(), "cannot cast NAN value of i32 type to u8");
}

#[test]
fn numeric_operation_descriptions() {
    let lhs = NumOperand { ty: number(1, "i32"), value: String::from("7") };
    let rhs = NumOperand { ty: single(2, "u8"), value: String::from("200") };
    let op = |kind, rhs: Option<NumOperand>| RuntimeError::NumericOperation {
        invoke_origin: at(0),
        kind,
        lhs: lhs.clone(),
        rhs,
        target: number(1, "i32"),
    };
    let some = Some(rhs.clone());
    assert_eq!(op(NumericOperationKind::Add, some.clone()).primary_description(), "cannot add 200u8 to 7i32");
    assert_eq!(
        op(NumericOperationKind::Sub, some.clone()).primary_description(),
        "cannot subtract 200u8 from 7i32",
    );
    assert_eq!(
        op(NumericOperationKind::Mul, some.clone()).primary_description(),
        "cannot multiply 200u8 by 7i32",
    );
    assert_eq!(op(NumericOperationKind::Div, some.clone()).primary_description(), "cannot divide 200u8 by 7i32");
    assert_eq!(
        op(NumericOperationKind::Shl, some.clone()).primary_description(),
        "cannot shift 7i32 left by 200u8 bits",
    );
    assert_eq!(
        op(NumericOperationKind::Shr, some.clone()).primary_description(),
        "cannot shift 7i32 right by 200u8 bits",
    );
    assert_eq!(
        op(NumericOperationKind::Rem, some.clone()).primary_description(),
        "cannot get 7i32 reminder of division by 200u8",
    );
    assert_eq!(op(NumericOperationKind::Neg, None).primary_description(), "cannot get negative number of 7i32");
    assert_eq!(op(NumericOperationKind::Neg, some).primary_description(), "invalid numeric operation");
    assert_eq!(op(NumericOperationKind::Add, None).primary_description(), "invalid numeric operation");
}

#[test]
fn type_mismatch_descriptions() {
    let str_type = TypeMeta::of_str();
    let mismatch = |expected: Vec<TypeMeta>| RuntimeError::TypeMismatch {
        access_origin: at(0),
        data_type: str_type,
        expected_types: expected,
    };
    assert_eq!(mismatch(vec![]).primary_description(), "unexpected 'str' data type");
    assert_eq!(
        mismatch(vec![number(2, "i64"), number(1, "i32")]).primary_description(),
        "expected 'i32', or 'i64', but 'str' data type provided",
    );
    assert_eq!(
        mismatch(vec![number(2, "i64"), number(1, "i32"), number(1, "i32"), number(3, "u16")])
            .primary_description(),
        "expected 'number', but 'str' data type provided",
    );
    assert_eq!(
        mismatch(vec![single(9, "bool"), function(20, "fn(x)"), function(21, "fn(y)")])
            .primary_description(),
        "expected 'bool', or 'fn(x)', or 'fn(y)', but 'str' data type provided",
    );
}

#[test]
fn partition_groups_complete_families() {
    let types = vec![number(3, "u16"), single(9, "bool"), number(1, "i32"), number(2, "i64")];
    let names = RuntimeError::partition_types(&types);
    assert_eq!(names, vec![String::from("'bool'"), String::from("'number'")]);
    let partial = vec![number(3, "u16"), number(1, "i32"), number(3, "u16")];
    assert_eq!(
        RuntimeError::partition_types(&partial),
        vec![String::from("'i32'"), String::from("'u16'")],
    );
    assert!(RuntimeError::partition_types(&vec![]).is_empty());
}

#[test]
fn origins_of_errors() {
    let error = RuntimeError::ReadToWrite { access_origin: at(4), borrow_origin: at(8) };
    assert_eq!(error.primary_origin(), at(4));
    assert_eq!(error.secondary_origin(), Some(at(8)));
    assert_eq!(error.secondary_description(), "active read access");
    let error = RuntimeError::UndefinedOperator {
        access_origin: at(1),
        receiver_origin: None,
        receiver_type: number(1, "i32"),
        operator: OperatorKind::Add,
    };
    assert_eq!(error.secondary_origin(), None);
    assert_eq!(error.secondary_description(), "");
    let error = RuntimeError::NumericOperation {
        invoke_origin: at(2),
        kind: NumericOperationKind::Add,
        lhs: NumOperand { ty: number(1, "i32"), value: String::from("1") },
        rhs: None,
        target: number(1, "i32"),
    };
    assert_eq!(error.primary_origin(), at(2));
    assert_eq!(error.secondary_origin(), None);
    assert_eq!(error.secondary_description(), "");
    let error = RuntimeError::ArityMismatch {
        invocation_origin: at(5),
        function_origin: at(6),
        parameters: 1,
        arguments: 2,
    };
    assert_eq!(error.primary_origin(), at(5));
    assert_eq!(error.secondary_origin(), Some(at(6)));
    assert_eq!(error.secondary_description(), "function origin");
}

#[test]
fn summaries() {
    assert_eq!(
        RuntimeError::MalformedRange { access_origin: at(0), start_bound: 1, end_bound: 0 }.summary(),
        "Malformed range bounds.",
    );
    assert_eq!(
        RuntimeError::ArityMismatch { invocation_origin: at(0), function_origin: at(1), parameters: 3, arguments: 1 }
            .summary(),
        "Not enough arguments.",
    );
    assert_eq!(
        RuntimeError::ArityMismatch { invocation_origin: at(0), function_origin: at(1), parameters: 1, arguments: 3 }
            .summary(),
        "Too many arguments.",
    );
    assert_eq!(
        RuntimeError::PrimitiveParse {
            access_origin: at(0),
            from: String::from("x"),
            to: TypeMeta::of_usize(),
            cause: String::from("line one\nline two"),
        }
        .summary(),
        "String parse error:\n    line one\n    line two",
    );
    assert_eq!(
        RuntimeError::NumericOperation {
            invoke_origin: at(0),
            kind: NumericOperationKind::Mul,
            lhs: NumOperand { ty: number(1, "i32"), value: String::from("1") },
            rhs: None,
            target: number(1, "i32"),
        }
        .summary(),
        "Failed to perform numeric operation between two primitive types\n\nThe result overflows i32 bounds.",
    );
}
