//! Views of texts that may be absent.

use vstd::prelude::*;

verus! {

/// The characters of a string that may be absent.
pub open spec fn text_view(s: Option<String>) -> Option<Seq<char>> {
    match s {
        Some(text) => Some(text@),
        None => None,
    }
}

} // verus!
