//! The error side of responses.

use vstd::prelude::*;

verus! {

/// the error of a handler that has no error of its own: it answers with the
/// general server error
pub struct Empty;

impl Empty {
    /// what the error says of itself
    pub fn message(&self) -> (rtn: &'static str)
        ensures
            rtn@ == "Empty error response"@,
    {
        "Empty error response"
    }
}

} // verus!
