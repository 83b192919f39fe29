use vstd::prelude::*;

verus! {

/// The body of a query response: the time the query took in milliseconds,
/// the query as the API read it, and the documents it found.
pub struct ApiResponse<C> {
    pub ms: u32,
    pub query: String,
    pub result: Vec<C>,
}

} // verus!
