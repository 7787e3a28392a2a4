//! Parameter types of the featured endpoint; its responses share the shapes
//! of the search endpoint.

use vstd::prelude::*;

use crate::{ArRange, ContentFilter, Limit, MediaFilter, SearchFilter, DEFAULT_LIMIT};

verus! {

/// Extra options of a featured request.
#[derive(Debug, Clone)]
pub struct Parameters {
    /// Client identifier. The featured request does not render it into the
    /// URL.
    pub client_key: String,
    pub search_filter: Option<SearchFilter>,
    pub media_filter: Option<Vec<MediaFilter>>,
    pub ar_range: ArRange,
    pub content_filter: ContentFilter,
    pub limit: Limit,
    /// Pagination cursor of an earlier response, to continue from where it
    /// left off.
    pub position: Option<String>,
}

impl Default for Parameters {
    fn default() -> (r: Self)
        ensures
            r.client_key@ == "my_test_app"@,
            r.search_filter is None,
            r.media_filter matches Some(fs) && fs@ == MediaFilter::spec_all(),
            r.ar_range == ArRange::All,
            r.content_filter == ContentFilter::Off,
            r.limit == DEFAULT_LIMIT,
            r.position is None,
    {
        Self {
            client_key: "my_test_app".to_owned(),
            search_filter: None,
            media_filter: Some(MediaFilter::all()),
            ar_range: ArRange::All,
            content_filter: ContentFilter::Off,
            limit: DEFAULT_LIMIT,
            position: None,
        }
    }
}

} // verus!
