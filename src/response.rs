//! What came back from a request.
use vstd::prelude::*;

verus! {

/// The status and the whole body of a response.
#[derive(Debug, Clone, PartialEq, Eq)]
pub struct Response {
    pub status: u32,
    pub body: String,
}

} // verus!
