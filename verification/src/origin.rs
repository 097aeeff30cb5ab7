use vstd::prelude::*;

verus! {

/// A source code location inside Rust code.
#[derive(Clone, Copy, PartialEq, Eq, Structural, Debug)]
pub struct RustOrigin {
    pub file: u64,
    pub line: u32,
    pub column: u32,
}

/// A source code range inside a script module.
#[derive(Clone, Copy, PartialEq, Eq, Structural, Debug)]
pub struct ScriptOrigin {
    pub id: u64,
    pub start: usize,
    pub end: usize,
}

/// A location in Rust or Script source code.
#[derive(Clone, Copy, PartialEq, Eq, Structural, Debug)]
pub enum Origin {
    Rust(RustOrigin),
    Script(ScriptOrigin),
}

impl Origin {
    pub open spec fn spec_nil() -> Origin {
        Origin::Rust(RustOrigin { file: 0, line: 0, column: 0 })
    }

    /// The origin that points nowhere.
    pub fn nil() -> (o: Origin)
        ensures
            o == Origin::spec_nil(),
    {
        Origin::Rust(RustOrigin { file: 0, line: 0, column: 0 })
    }
}

} // verus!
