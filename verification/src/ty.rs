use vstd::prelude::*;

use crate::origin::RustOrigin;

verus! {

/// The identity of a Rust type known to the Script Engine.
pub type TypeKey = u64;

/// The key of the unit type `()`, the type of the Nil data.
pub const NIL_TYPE: TypeKey = 0;

/// The key of the `u8` type.
pub const U8_TYPE: TypeKey = 1;

/// The key of the `str` type.
pub const STR_TYPE: TypeKey = 2;

/// The key of the `usize` type.
pub const USIZE_TYPE: TypeKey = 3;

/// The key of the `bool` type.
pub const BOOL_TYPE: TypeKey = 4;

/// Static facts about a type family: a group of types that the script
/// considers interchangeable (for example, all primitive integers).
#[derive(Clone, Copy, Debug)]
pub struct FamilyInfo {
    pub id: u64,
    pub name: &'static str,
    /// The number of types in the family.
    pub len: usize,
    /// Whether this is the family of function types.
    pub is_fn: bool,
}

/// Runtime metadata of a Rust type known to the Script Engine.
#[derive(Clone, Copy, Debug)]
pub struct TypeMeta {
    pub id: TypeKey,
    pub name: &'static str,
    /// The size of a value of this type in bytes.
    pub size: usize,
    pub family: FamilyInfo,
    /// Where the type was declared.
    pub origin: RustOrigin,
}

/// A type family together with all of its member types.
#[derive(Clone, Debug)]
pub struct TypeFamily {
    pub info: FamilyInfo,
    pub types: Vec<TypeMeta>,
}

impl TypeMeta {
    /// The metadata of the unit type `()`, the type of the Nil data.
    pub open spec fn spec_nil() -> TypeMeta {
        TypeMeta {
            id: NIL_TYPE,
            name: "nil",
            size: 0,
            family: FamilyInfo { id: NIL_TYPE as u64, name: "nil", len: 1, is_fn: false },
            origin: RustOrigin { file: 0, line: 0, column: 0 },
        }
    }

    /// The metadata of the `str` type.
    pub open spec fn spec_str() -> TypeMeta {
        TypeMeta {
            id: STR_TYPE,
            name: "str",
            size: 1,
            family: FamilyInfo { id: STR_TYPE as u64, name: "str", len: 1, is_fn: false },
            origin: RustOrigin { file: 0, line: 0, column: 0 },
        }
    }

    /// The metadata of the unit type `()`, the type of the Nil data.
    pub fn nil() -> (t: TypeMeta)
        ensures
            t == TypeMeta::spec_nil(),
    {
        TypeMeta {
            id: NIL_TYPE,
            name: "nil",
            size: 0,
            family: FamilyInfo { id: NIL_TYPE as u64, name: "nil", len: 1, is_fn: false },
            origin: RustOrigin { file: 0, line: 0, column: 0 },
        }
    }

    /// The metadata of the `str` type.
    pub fn of_str() -> (t: TypeMeta)
        ensures
            t == TypeMeta::spec_str(),
    {
        TypeMeta {
            id: STR_TYPE,
            name: "str",
            size: 1,
            family: FamilyInfo { id: STR_TYPE as u64, name: "str", len: 1, is_fn: false },
            origin: RustOrigin { file: 0, line: 0, column: 0 },
        }
    }

    /// The metadata of the `u8` type.
    pub open spec fn spec_u8() -> TypeMeta {
        TypeMeta {
            id: U8_TYPE,
            name: "u8",
            size: 1,
            family: FamilyInfo { id: U8_TYPE as u64, name: "u8", len: 1, is_fn: false },
            origin: RustOrigin { file: 0, line: 0, column: 0 },
        }
    }

    /// The metadata of the `u8` type.
    pub fn of_u8() -> (t: TypeMeta)
        ensures
            t == TypeMeta::spec_u8(),
    {
        TypeMeta {
            id: U8_TYPE,
            name: "u8",
            size: 1,
            family: FamilyInfo { id: U8_TYPE as u64, name: "u8", len: 1, is_fn: false },
            origin: RustOrigin { file: 0, line: 0, column: 0 },
        }
    }

    /// The metadata of the `bool` type.
    pub open spec fn spec_bool() -> TypeMeta {
        TypeMeta {
            id: BOOL_TYPE,
            name: "bool",
            size: 1,
            family: FamilyInfo { id: BOOL_TYPE as u64, name: "bool", len: 1, is_fn: false },
            origin: RustOrigin { file: 0, line: 0, column: 0 },
        }
    }

    /// The metadata of the `bool` type.
    pub fn of_bool() -> (t: TypeMeta)
        ensures
            t == TypeMeta::spec_bool(),
    {
        TypeMeta {
            id: BOOL_TYPE,
            name: "bool",
            size: 1,
            family: FamilyInfo { id: BOOL_TYPE as u64, name: "bool", len: 1, is_fn: false },
            origin: RustOrigin { file: 0, line: 0, column: 0 },
        }
    }

    /// The metadata of the `usize` type.
    pub open spec fn spec_usize() -> TypeMeta {
        TypeMeta {
            id: USIZE_TYPE,
            name: "usize",
            size: 8,
            family: FamilyInfo { id: USIZE_TYPE as u64, name: "usize", len: 1, is_fn: false },
            origin: RustOrigin { file: 0, line: 0, column: 0 },
        }
    }

    /// The metadata of the `usize` type.
    pub fn of_usize() -> (t: TypeMeta)
        ensures
            t == TypeMeta::spec_usize(),
    {
        TypeMeta {
            id: USIZE_TYPE,
            name: "usize",
            size: 8,
            family: FamilyInfo { id: USIZE_TYPE as u64, name: "usize", len: 1, is_fn: false },
            origin: RustOrigin { file: 0, line: 0, column: 0 },
        }
    }

    /// Two metadata objects describe the same type.
    pub open spec fn same_type(self, other: TypeMeta) -> bool {
        self.id == other.id
    }

    /// Whether this type is the unit type `()`.
    pub open spec fn spec_is_nil(self) -> bool {
        self.id == NIL_TYPE
    }
}

/// The declaration of a type exported to the Script Engine.
#[derive(Clone, Copy, Debug)]
pub struct TypeMetaDeclaration {
    pub name: &'static str,
    pub doc: Option<&'static str>,
    pub id: TypeKey,
    pub family: Option<FamilyInfo>,
    pub size: usize,
}

} // verus!
