//! Parameter and response types of the categories endpoint.

use vstd::prelude::*;

use crate::ContentFilter;

verus! {

/// Extra options of a categories request.
#[derive(Debug, Clone)]
pub struct Parameters {
    pub client_key: String,
    pub content_filter: ContentFilter,
}

impl Default for Parameters {
    fn default() -> (r: Self)
        ensures
            r.client_key@ == Seq::<char>::empty(),
            r.content_filter == ContentFilter::Off,
    {
        Self { client_key: String::new(), content_filter: ContentFilter::Off }
    }
}

/// One categories payload: an immutable snapshot, with no cross-request
/// identity.
#[derive(Debug, Clone, PartialEq)]
pub struct Response {
    /// Language code of the returned content.
    pub locale: String,
    /// All the [`Tag`]s found.
    pub tags: Vec<Tag>,
}

/// One tagged category.
#[derive(Debug, Clone, PartialEq)]
pub struct Tag {
    /// The term, example: "excited".
    pub searchterm: String,
    /// Image api path.
    pub path: String,
    /// Full url of the gif.
    pub image: String,
    /// The name, example: "#excited".
    pub name: String,
}

} // verus!
