//! Optional constraints of a list request.
use vstd::prelude::*;

verus! {

/// Query-string filters of a list request; an absent field constrains nothing.
#[derive(Clone, Debug, PartialEq, Eq)]
pub struct Filters {
    pub limit: Option<u32>,
    pub author: Option<String>,
}

/// The text of an optional string.
pub open spec fn opt_text(o: Option<String>) -> Option<Seq<char>> {
    match o {
        Some(s) => Some(s@),
        None => None,
    }
}

} // verus!
