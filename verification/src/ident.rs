use vstd::prelude::*;

use crate::origin::RustOrigin;
use crate::text::{lemma_lex_antisymmetric, lemma_lex_reflexive, str_le};

verus! {

/// A name declared in Rust code, such as the name of an exported field.
#[derive(Clone, Copy, Debug)]
pub struct RustIdent {
    pub origin: RustOrigin,
    pub string: &'static str,
}

impl PartialEq for RustIdent {
    /// Two names are equal when their texts are, wherever they were
    /// declared.
    fn eq(&self, other: &Self) -> (r: bool) {
        let r = str_le(self.string, other.string) && str_le(other.string, self.string);
        proof {
            if r {
                lemma_lex_antisymmetric(self.string@, other.string@);
            }
            if self.string@ == other.string@ {
                lemma_lex_reflexive(self.string@);
            }
        }
        r
    }
}

impl vstd::std_specs::cmp::PartialEqSpecImpl for RustIdent {
    open spec fn obeys_eq_spec() -> bool {
        true
    }

    open spec fn eq_spec(&self, other: &Self) -> bool {
        self.string@ == other.string@
    }
}

} // verus!
