//! Parameter and response types of the search endpoint. The featured
//! endpoint returns the same response shapes.

use vstd::prelude::*;

use crate::{ArRange, ContentFilter, Limit, MediaFilter, SearchFilter, DEFAULT_LIMIT};

verus! {

/// Extra options of a search request.
#[derive(Debug, Clone)]
pub struct Parameters {
    pub client_key: String,
    pub search_filter: Option<SearchFilter>,
    pub content_filter: ContentFilter,
    pub media_filter: Option<Vec<MediaFilter>>,
    pub ar_range: ArRange,
    pub random: bool,
    pub limit: Limit,
    /// Pagination cursor of an earlier response, to continue from where it
    /// left off.
    pub position: Option<String>,
}

impl Default for Parameters {
    fn default() -> (r: Self)
        ensures
            r.client_key@ == "my_test_app"@,
            r.search_filter is None,
            r.content_filter == ContentFilter::Off,
            r.media_filter matches Some(fs) && fs@ == MediaFilter::spec_all(),
            r.ar_range == ArRange::All,
            !r.random,
            r.limit == DEFAULT_LIMIT,
            r.position is None,
    {
        Self {
            client_key: "my_test_app".to_owned(),
            search_filter: None,
            content_filter: ContentFilter::Off,
            media_filter: Some(MediaFilter::all()),
            ar_range: ArRange::All,
            random: false,
            limit: DEFAULT_LIMIT,
            position: None,
        }
    }
}

/// One search or featured payload: an ordered list of result items and the
/// opaque pagination cursor to feed back into a follow-up request. An
/// immutable snapshot, with no cross-request identity or merging.
#[derive(Debug, Clone, PartialEq)]
pub struct Response {
    pub results: Vec<ResponseObject>,
    pub next: String,
}

/// One result item. Even though `hascaption` and `bg_color` are listed in
/// the service's table they do not exist in the response so they are omitted.
///
/// The creation timestamp is a fractional number of seconds in the payload;
/// it is carried here as the decimal text of that number.
#[derive(Debug, Clone, PartialEq)]
pub struct ResponseObject {
    pub created: String,
    pub hasaudio: bool,
    pub id: String,
    pub media_formats: ContentFormats,
    pub tags: Vec<String>,
    pub title: String,
    pub content_description: String,
    pub itemurl: String,
    pub flags: Vec<String>,
    pub url: String,
}

/// The service offers the following five base formats in a variety of sizes:
///    GIF
///    MP4
///    WebM
///    Transparent WebP
///    Transparent GIF
///
/// The MP4 and WebM formats play their clip only once, with the exception of
/// the loopedmp4, which plays the clip a few times. The GIF format plays its
/// clip on a continuous loop. The transparent formats are for sticker content
/// and aren't available in GIF search results.
#[derive(Debug, Clone, PartialEq)]
pub struct ContentFormats {
    pub gifpreview: Option<Gifpreview>,
    pub gif: Option<Gif>,
    pub mediumgif: Option<Mediumgif>,
    pub tinygif: Option<Tinygif>,
    pub nanogif: Option<Nanogif>,
    pub mp4: Option<Mp4>,
    pub loopedmp4: Option<Loopedmp4>,
    pub tinymp4: Option<Tinymp4>,
    pub nanomp4: Option<Nanomp4>,
    pub webm: Option<Webm>,
    pub tinywebm: Option<Tinywebm>,
    pub nanowebm: Option<Nanowebm>,
    pub webp: Option<Webp>,
    pub tinygifpreview: Option<Tinygifpreview>,
    pub nanogifpreview: Option<Nanogifpreview>,
}

/// One media rendition: its URL, duration, preview URL, pixel dimensions and
/// byte size. The duration is a fractional number of seconds in the payload;
/// it is carried here as the decimal text of that number.
#[derive(Debug, Clone, PartialEq)]
pub struct Gifpreview {
    pub url: String,
    pub duration: String,
    pub preview: String,
    pub dimensions: Vec<i64>,
    pub size: i64,
}

#[derive(Debug, Clone, PartialEq)]
pub struct Gif {
    pub url: String,
    pub duration: String,
    pub preview: String,
    pub dimensions: Vec<i64>,
    pub size: i64,
}

#[derive(Debug, Clone, PartialEq)]
pub struct Mediumgif {
    pub url: String,
    pub duration: String,
    pub preview: String,
    pub dimensions: Vec<i64>,
    pub size: i64,
}

#[derive(Debug, Clone, PartialEq)]
pub struct Tinygif {
    pub url: String,
    pub duration: String,
    pub preview: String,
    pub dimensions: Vec<i64>,
    pub size: i64,
}

#[derive(Debug, Clone, PartialEq)]
pub struct Nanogif {
    pub url: String,
    pub duration: String,
    pub preview: String,
    pub dimensions: Vec<i64>,
    pub size: i64,
}

#[derive(Debug, Clone, PartialEq)]
pub struct Mp4 {
    pub url: String,
    pub duration: String,
    pub preview: String,
    pub dimensions: Vec<i64>,
    pub size: i64,
}

#[derive(Debug, Clone, PartialEq)]
pub struct Loopedmp4 {
    pub url: String,
    pub duration: String,
    pub preview: String,
    pub dimensions: Vec<i64>,
    pub size: i64,
}

#[derive(Debug, Clone, PartialEq)]
pub struct Tinymp4 {
    pub url: String,
    pub duration: String,
    pub preview: String,
    pub dimensions: Vec<i64>,
    pub size: i64,
}

#[derive(Debug, Clone, PartialEq)]
pub struct Nanomp4 {
    pub url: String,
    pub duration: String,
    pub preview: String,
    pub dimensions: Vec<i64>,
    pub size: i64,
}

#[derive(Debug, Clone, PartialEq)]
pub struct Webm {
    pub url: String,
    pub duration: String,
    pub preview: String,
    pub dimensions: Vec<i64>,
    pub size: i64,
}

#[derive(Debug, Clone, PartialEq)]
pub struct Tinywebm {
    pub url: String,
    pub duration: String,
    pub preview: String,
    pub dimensions: Vec<i64>,
    pub size: i64,
}

#[derive(Debug, Clone, PartialEq)]
pub struct Nanowebm {
    pub url: String,
    pub duration: String,
    pub preview: String,
    pub dimensions: Vec<i64>,
    pub size: i64,
}

#[derive(Debug, Clone, PartialEq)]
pub struct Webp {
    pub url: String,
    pub duration: String,
    pub preview: String,
    pub dimensions: Vec<i64>,
    pub size: i64,
}

#[derive(Debug, Clone, PartialEq)]
pub struct Tinygifpreview {
    pub url: String,
    pub duration: String,
    pub preview: String,
    pub dimensions: Vec<i64>,
    pub size: i64,
}

#[derive(Debug, Clone, PartialEq)]
pub struct Nanogifpreview {
    pub url: String,
    pub duration: String,
    pub preview: String,
    pub dimensions: Vec<i64>,
    pub size: i64,
}

} // verus!
