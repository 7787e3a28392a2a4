//! Parameter and response types of the trending-terms endpoint.

use vstd::prelude::*;

use crate::{Limit, DEFAULT_LIMIT};

verus! {

/// Extra options of a trending-terms request.
#[derive(Debug, Clone)]
pub struct Parameters {
    pub client_key: String,
    pub limit: Limit,
}

impl Default for Parameters {
    fn default() -> (r: Self)
        ensures
            r.client_key@ == Seq::<char>::empty(),
            r.limit == DEFAULT_LIMIT,
    {
        Self { client_key: String::new(), limit: DEFAULT_LIMIT }
    }
}

/// One trending-terms payload: an immutable snapshot, with no cross-request
/// identity.
#[derive(Debug, Clone, PartialEq)]
pub struct Response {
    /// Locale of the returned terms.
    pub locale: String,
    /// The trending search terms, in order.
    pub results: Vec<String>,
}

} // verus!
