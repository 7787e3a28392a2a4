//! Typed client library for a GIF/sticker search service's REST API.
//!
//! The library models the service's request parameters (filter enums, locale
//! codes, limits, pagination cursors) and response payloads, and renders
//! parameter values into the query-string fragments the service expects.
//! Every encoding function carries a contract pinning the exact character
//! sequence it produces; encoding is total over the parameter domains and
//! never fails.
//!
//! Issuing the HTTP requests and decoding JSON bodies are left to the caller;
//! the library builds the full request URLs and defines the typed shapes that
//! response payloads are converted into.

pub mod categories;
pub mod featured;
pub mod search;
pub mod tenor;
pub mod trending;

pub use tenor::Tenor;

use vstd::prelude::*;
use vstd::string::StringExecFns;

verus! {

/// Number of results to fetch. The service caps it at [`MAX_LIMIT`], but the
/// cap is not enforced locally: larger values are passed through unchanged
/// and the service decides.
pub type Limit = u8;

/// Fetch up to the specified number of results. Use this as the default if you are unsure.
pub const DEFAULT_LIMIT: Limit = 20;

/// Fetch up to the specified number of results, and the maximum value is 50 inclusive.
pub const MAX_LIMIT: Limit = 50;

/// The two ways a call to the service can fail: the transport call itself
/// failed, or the response body did not match the expected schema. Each
/// variant carries the underlying error's message. Neither is retried,
/// translated, or enriched.
#[derive(Debug, Clone, PartialEq, Eq)]
pub enum Error {
    Request(String),
    Serialization(String),
}

/// Filter the Response Objects to only include GIFs with aspect ratios that fit within the selected range.
/// The default value is all. The accepted values are all, wide, and standard:
///
/// all: No constraints
/// wide: 0.42 <= aspect ratio <= 2.36
/// standard: 0.56 <= aspect ratio <= 1.78
///
#[derive(Debug, Clone, Copy, PartialEq, Eq, Structural)]
pub enum ArRange {
    All,
    Wide,
    Standard,
}

impl ArRange {
    /// The token this value encodes to in a query string.
    pub open spec fn spec_token(self) -> Seq<char> {
        match self {
            ArRange::All => "all"@,
            ArRange::Wide => "wide"@,
            ArRange::Standard => "standard"@,
        }
    }

    /// The full query-string fragment for this value: key, then token.
    pub open spec fn spec_query_parameter(self) -> Seq<char> {
        "&ar_range="@ + self.spec_token()
    }

    fn token_str(&self) -> (r: &'static str)
        ensures
            r@ == self.spec_token(),
    {
        match self {
            ArRange::All => "all",
            ArRange::Wide => "wide",
            ArRange::Standard => "standard",
        }
    }

    pub fn to_query_parameter(&self) -> (r: String)
        ensures
            r@ == self.spec_query_parameter(),
    {
        let mut r = "&ar_range=".to_owned();
        r.append(self.token_str());
        r
    }
}

impl Default for ArRange {
    fn default() -> (r: Self)
        ensures
            r == ArRange::All,
    {
        ArRange::All
    }
}

/// Specify the content safety filter level.
/// The default value is off. The accepted values are off, low, medium, and high.
#[derive(Debug, Clone, Copy, PartialEq, Eq, Structural)]
pub enum ContentFilter {
    Off,
    Low,
    Medium,
    High,
}

impl ContentFilter {
    /// The token this value encodes to in a query string.
    pub open spec fn spec_token(self) -> Seq<char> {
        match self {
            ContentFilter::Off => "off"@,
            ContentFilter::Low => "low"@,
            ContentFilter::Medium => "medium"@,
            ContentFilter::High => "high"@,
        }
    }

    /// The full query-string fragment for this value: key, then token.
    pub open spec fn spec_query_parameter(self) -> Seq<char> {
        "&contentfilter="@ + self.spec_token()
    }

    fn token_str(&self) -> (r: &'static str)
        ensures
            r@ == self.spec_token(),
    {
        match self {
            ContentFilter::Off => "off",
            ContentFilter::Low => "low",
            ContentFilter::Medium => "medium",
            ContentFilter::High => "high",
        }
    }

    pub fn to_query_parameter(&self) -> (r: String)
        ensures
            r@ == self.spec_query_parameter(),
    {
        let mut r = "&contentfilter=".to_owned();
        r.append(self.token_str());
        r
    }
}

impl Default for ContentFilter {
    fn default() -> (r: Self)
        ensures
            r == ContentFilter::Off,
    {
        ContentFilter::Off
    }
}

/// Comma-separated list of non-GIF content types to filter the Response Objects. By default, searchfilter returns GIF content only.
/// Doesn't have a default value. The accepted values are sticker, static, and -static:
///
/// searchfilter=sticker returns both static and animated sticker content.
/// searchfilter=sticker,-static returns only animated sticker content.
/// searchfilter=sticker,static returns only static sticker content.
///
/// For GIF content, either leave searchfilter blank or don't use it.
///
#[derive(Debug, Clone, Copy, PartialEq, Eq, Structural)]
pub enum SearchFilter {
    Sticker,
    Static,
    NonStatic,
}

impl SearchFilter {
    /// The token sequence this value encodes to; the compound variants emit
    /// two comma-joined tokens under the one key.
    pub open spec fn spec_token(self) -> Seq<char> {
        match self {
            SearchFilter::Sticker => "sticker"@,
            SearchFilter::Static => "sticker,static"@,
            SearchFilter::NonStatic => "sticker,-static"@,
        }
    }

    /// The full query-string fragment for this value: key, then tokens.
    pub open spec fn spec_query_parameter(self) -> Seq<char> {
        "&searchfilter="@ + self.spec_token()
    }

    fn token_str(&self) -> (r: &'static str)
        ensures
            r@ == self.spec_token(),
    {
        match self {
            SearchFilter::Sticker => "sticker",
            SearchFilter::Static => "sticker,static",
            SearchFilter::NonStatic => "sticker,-static",
        }
    }

    pub fn to_query_parameter(&self) -> (r: String)
        ensures
            r@ == self.spec_query_parameter(),
    {
        let mut r = "&searchfilter=".to_owned();
        r.append(self.token_str());
        r
    }
}

/// Comma-separated list of GIF formats to filter the Response Objects. By default, media_filter returns all formats for each Response Object.
/// Example: media_filter=gif,tinygif,mp4,tinymp4
/// Doesn't have a default value.
#[derive(Debug, Clone, Copy, PartialEq, Eq, Structural)]
pub enum MediaFilter {
    Preview,
    Gif,
    MediumGif,
    TinyGif,
    NanoGif,
    Mp4,
    LoopedMp4,
    TinyMp4,
    NanoMp4,
    Webm,
    TinyWebm,
    NanoWebm,
    WebpTransparent,
    TinyWebpTransparent,
    NanoWebpTransparent,
    GifTransparent,
    TinyGifTransparent,
    NanoGifTransparent,
}

/// The comma-joined encoding of a list of media formats, in list order, with
/// no separator before the first token and none after the last. An empty
/// list encodes to the empty sequence.
pub open spec fn spec_media_filter_tokens(filters: Seq<MediaFilter>) -> Seq<char>
    decreases filters.len(),
{
    if filters.len() == 0 {
        Seq::empty()
    } else if filters.len() == 1 {
        filters[0].spec_token()
    } else {
        spec_media_filter_tokens(filters.drop_last()) + ","@ + filters.last().spec_token()
    }
}

impl MediaFilter {
    /// The token this format encodes to in a media-filter list.
    pub open spec fn spec_token(self) -> Seq<char> {
        match self {
            MediaFilter::Preview => "preview"@,
            MediaFilter::Gif => "gif"@,
            MediaFilter::MediumGif => "mediumgif"@,
            MediaFilter::TinyGif => "tinygif"@,
            MediaFilter::NanoGif => "nanogif"@,
            MediaFilter::Mp4 => "mp4"@,
            MediaFilter::LoopedMp4 => "loopedmp4"@,
            MediaFilter::TinyMp4 => "tinymp4"@,
            MediaFilter::NanoMp4 => "nanomp4"@,
            MediaFilter::Webm => "webm"@,
            MediaFilter::TinyWebm => "tinywebm"@,
            MediaFilter::NanoWebm => "nanowebm"@,
            MediaFilter::WebpTransparent => "webp_transparent"@,
            MediaFilter::TinyWebpTransparent => "tinywebp_transparent"@,
            MediaFilter::NanoWebpTransparent => "nanowebp_transparent"@,
            MediaFilter::GifTransparent => "gif_transparent"@,
            MediaFilter::TinyGifTransparent => "tinygif_transparent"@,
            MediaFilter::NanoGifTransparent => "nanogif_transparent"@,
        }
    }

    /// The list of every format, in declaration order: the "all formats"
    /// selection, which is also the default media filter of a search request.
    pub open spec fn spec_all() -> Seq<MediaFilter> {
        seq![
            MediaFilter::Preview,
            MediaFilter::Gif,
            MediaFilter::MediumGif,
            MediaFilter::TinyGif,
            MediaFilter::NanoGif,
            MediaFilter::Mp4,
            MediaFilter::LoopedMp4,
            MediaFilter::TinyMp4,
            MediaFilter::NanoMp4,
            MediaFilter::Webm,
            MediaFilter::TinyWebm,
            MediaFilter::NanoWebm,
            MediaFilter::WebpTransparent,
            MediaFilter::TinyWebpTransparent,
            MediaFilter::NanoWebpTransparent,
            MediaFilter::GifTransparent,
            MediaFilter::TinyGifTransparent,
            MediaFilter::NanoGifTransparent,
        ]
    }

    fn token_str(&self) -> (r: &'static str)
        ensures
            r@ == self.spec_token(),
    {
        match self {
            MediaFilter::Preview => "preview",
            MediaFilter::Gif => "gif",
            MediaFilter::MediumGif => "mediumgif",
            MediaFilter::TinyGif => "tinygif",
            MediaFilter::NanoGif => "nanogif",
            MediaFilter::Mp4 => "mp4",
            MediaFilter::LoopedMp4 => "loopedmp4",
            MediaFilter::TinyMp4 => "tinymp4",
            MediaFilter::NanoMp4 => "nanomp4",
            MediaFilter::Webm => "webm",
            MediaFilter::TinyWebm => "tinywebm",
            MediaFilter::NanoWebm => "nanowebm",
            MediaFilter::WebpTransparent => "webp_transparent",
            MediaFilter::TinyWebpTransparent => "tinywebp_transparent",
            MediaFilter::NanoWebpTransparent => "nanowebp_transparent",
            MediaFilter::GifTransparent => "gif_transparent",
            MediaFilter::TinyGifTransparent => "tinygif_transparent",
            MediaFilter::NanoGifTransparent => "nanogif_transparent",
        }
    }

    /// The token this format encodes to in a media-filter list.
    pub fn token(&self) -> (r: String)
        ensures
            r@ == self.spec_token(),
    {
        self.token_str().to_owned()
    }

    /// Every format, in declaration order.
    pub fn all() -> (r: Vec<MediaFilter>)
        ensures
            r@ == MediaFilter::spec_all(),
    {
        let r: Vec<MediaFilter> = vec![
            MediaFilter::Preview,
            MediaFilter::Gif,
            MediaFilter::MediumGif,
            MediaFilter::TinyGif,
            MediaFilter::NanoGif,
            MediaFilter::Mp4,
            MediaFilter::LoopedMp4,
            MediaFilter::TinyMp4,
            MediaFilter::NanoMp4,
            MediaFilter::Webm,
            MediaFilter::TinyWebm,
            MediaFilter::NanoWebm,
            MediaFilter::WebpTransparent,
            MediaFilter::TinyWebpTransparent,
            MediaFilter::NanoWebpTransparent,
            MediaFilter::GifTransparent,
            MediaFilter::TinyGifTransparent,
            MediaFilter::NanoGifTransparent,
        ];
        assert(r@ =~= MediaFilter::spec_all());
        r
    }

    /// Each format's token is non-empty and does not end with a comma.
    proof fn lemma_token_shape(self)
        ensures
            self.spec_token().len() > 0,
            self.spec_token().last() != ',',
    {
        reveal_strlit("preview");
        reveal_strlit("gif");
        reveal_strlit("mediumgif");
        reveal_strlit("tinygif");
        reveal_strlit("nanogif");
        reveal_strlit("mp4");
        reveal_strlit("loopedmp4");
        reveal_strlit("tinymp4");
        reveal_strlit("nanomp4");
        reveal_strlit("webm");
        reveal_strlit("tinywebm");
        reveal_strlit("nanowebm");
        reveal_strlit("webp_transparent");
        reveal_strlit("tinywebp_transparent");
        reveal_strlit("nanowebp_transparent");
        reveal_strlit("gif_transparent");
        reveal_strlit("tinygif_transparent");
        reveal_strlit("nanogif_transparent");
    }

    /// Encode a list of formats as its comma-joined token sequence, in list
    /// order. No comma is emitted after the last token: the encoding carries
    /// no trailing separator.
    pub fn encode_list(filters: &[MediaFilter]) -> (r: String)
        ensures
            r@ == spec_media_filter_tokens(filters@),
    {
        let mut r = String::new();
        assert(r@ =~= spec_media_filter_tokens(filters@.take(0)));
        for i in 0..filters.len()
            invariant
                r@ == spec_media_filter_tokens(filters@.take(i as int)),
        {
            if i != 0 {
                r.append(",");
            }
            r.append(filters[i].token_str());
            assert(filters@.take(i + 1).drop_last() =~= filters@.take(i as int));
            assert(filters@.take(i + 1).last() == filters@[i as int]);
        }
        assert(filters@.take(filters@.len() as int) =~= filters@);
        r
    }
}

/// The encoding of a non-empty media-filter list is itself non-empty and
/// never ends with a comma: the list's join carries no trailing separator,
/// whatever the list's length and content.
pub proof fn lemma_media_filter_tokens_no_trailing_comma(filters: Seq<MediaFilter>)
    requires
        filters.len() > 0,
    ensures
        spec_media_filter_tokens(filters).len() > 0,
        spec_media_filter_tokens(filters).last() != ',',
{
    filters.last().lemma_token_shape();
    if filters.len() == 1 {
        assert(filters.last() == filters[0]);
    }
}

/// What one character lowercases to: an ASCII capital letter maps to its
/// small counterpart, every other character stays as it is.
pub open spec fn spec_lower_char(c: char) -> Seq<char> {
    if c == 'A' { "a"@ }
    else if c == 'B' { "b"@ }
    else if c == 'C' { "c"@ }
    else if c == 'D' { "d"@ }
    else if c == 'E' { "e"@ }
    else if c == 'F' { "f"@ }
    else if c == 'G' { "g"@ }
    else if c == 'H' { "h"@ }
    else if c == 'I' { "i"@ }
    else if c == 'J' { "j"@ }
    else if c == 'K' { "k"@ }
    else if c == 'L' { "l"@ }
    else if c == 'M' { "m"@ }
    else if c == 'N' { "n"@ }
    else if c == 'O' { "o"@ }
    else if c == 'P' { "p"@ }
    else if c == 'Q' { "q"@ }
    else if c == 'R' { "r"@ }
    else if c == 'S' { "s"@ }
    else if c == 'T' { "t"@ }
    else if c == 'U' { "u"@ }
    else if c == 'V' { "v"@ }
    else if c == 'W' { "w"@ }
    else if c == 'X' { "x"@ }
    else if c == 'Y' { "y"@ }
    else if c == 'Z' { "z"@ }
    else { seq![c] }
}

/// What one character uppercases to: an ASCII small letter maps to its
/// capital counterpart, every other character stays as it is.
pub open spec fn spec_upper_char(c: char) -> Seq<char> {
    if c == 'a' { "A"@ }
    else if c == 'b' { "B"@ }
    else if c == 'c' { "C"@ }
    else if c == 'd' { "D"@ }
    else if c == 'e' { "E"@ }
    else if c == 'f' { "F"@ }
    else if c == 'g' { "G"@ }
    else if c == 'h' { "H"@ }
    else if c == 'i' { "I"@ }
    else if c == 'j' { "J"@ }
    else if c == 'k' { "K"@ }
    else if c == 'l' { "L"@ }
    else if c == 'm' { "M"@ }
    else if c == 'n' { "N"@ }
    else if c == 'o' { "O"@ }
    else if c == 'p' { "P"@ }
    else if c == 'q' { "Q"@ }
    else if c == 'r' { "R"@ }
    else if c == 's' { "S"@ }
    else if c == 't' { "T"@ }
    else if c == 'u' { "U"@ }
    else if c == 'v' { "V"@ }
    else if c == 'w' { "W"@ }
    else if c == 'x' { "X"@ }
    else if c == 'y' { "Y"@ }
    else if c == 'z' { "Z"@ }
    else { seq![c] }
}

/// The character sequence lowercased, character by character.
pub open spec fn spec_lower(s: Seq<char>) -> Seq<char>
    decreases s.len(),
{
    if s.len() == 0 {
        Seq::empty()
    } else {
        spec_lower(s.drop_last()) + spec_lower_char(s.last())
    }
}

/// The character sequence uppercased, character by character.
pub open spec fn spec_upper(s: Seq<char>) -> Seq<char>
    decreases s.len(),
{
    if s.len() == 0 {
        Seq::empty()
    } else {
        spec_upper(s.drop_last()) + spec_upper_char(s.last())
    }
}

/// Lowercase the ASCII capital letters of `s`; other characters pass through
/// unchanged.
pub fn ascii_to_lower(s: &str) -> (r: String)
    ensures
        r@ == spec_lower(s@),
{
    let mut r = String::new();
    let n = s.unicode_len();
    assert(r@ =~= spec_lower(s@.take(0)));
    for i in 0..n
        invariant
            n == s@.len(),
            r@ == spec_lower(s@.take(i as int)),
    {
        let c = s.get_char(i);
        let mapped: &str = match c {
            'A' => "a",
            'B' => "b",
            'C' => "c",
            'D' => "d",
            'E' => "e",
            'F' => "f",
            'G' => "g",
            'H' => "h",
            'I' => "i",
            'J' => "j",
            'K' => "k",
            'L' => "l",
            'M' => "m",
            'N' => "n",
            'O' => "o",
            'P' => "p",
            'Q' => "q",
            'R' => "r",
            'S' => "s",
            'T' => "t",
            'U' => "u",
            'V' => "v",
            'W' => "w",
            'X' => "x",
            'Y' => "y",
            'Z' => "z",
            _ => {
                let piece = s.substring_char(i, i + 1);
                proof {
                    assert(piece@ =~= seq![s@[i as int]]);
                }
                piece
            },
        };
        assert(mapped@ == spec_lower_char(s@[i as int]));
        r.append(mapped);
        assert(s@.take(i + 1).drop_last() =~= s@.take(i as int));
        assert(s@.take(i + 1).last() == s@[i as int]);
    }
    assert(s@.take(s@.len() as int) =~= s@);
    r
}

/// Uppercase the ASCII small letters of `s`; other characters pass through
/// unchanged.
pub fn ascii_to_upper(s: &str) -> (r: String)
    ensures
        r@ == spec_upper(s@),
{
    let mut r = String::new();
    let n = s.unicode_len();
    assert(r@ =~= spec_upper(s@.take(0)));
    for i in 0..n
        invariant
            n == s@.len(),
            r@ == spec_upper(s@.take(i as int)),
    {
        let c = s.get_char(i);
        let mapped: &str = match c {
            'a' => "A",
            'b' => "B",
            'c' => "C",
            'd' => "D",
            'e' => "E",
            'f' => "F",
            'g' => "G",
            'h' => "H",
            'i' => "I",
            'j' => "J",
            'k' => "K",
            'l' => "L",
            'm' => "M",
            'n' => "N",
            'o' => "O",
            'p' => "P",
            'q' => "Q",
            'r' => "R",
            's' => "S",
            't' => "T",
            'u' => "U",
            'v' => "V",
            'w' => "W",
            'x' => "X",
            'y' => "Y",
            'z' => "Z",
            _ => {
                let piece = s.substring_char(i, i + 1);
                proof {
                    assert(piece@ =~= seq![s@[i as int]]);
                }
                piece
            },
        };
        assert(mapped@ == spec_upper_char(s@[i as int]));
        r.append(mapped);
        assert(s@.take(i + 1).drop_last() =~= s@.take(i as int));
        assert(s@.take(i + 1).last() == s@[i as int]);
    }
    assert(s@.take(s@.len() as int) =~= s@);
    r
}

/// The decimal digit character for one digit value.
pub open spec fn spec_decimal_digit(d: int) -> Seq<char> {
    if d == 0 { "0"@ }
    else if d == 1 { "1"@ }
    else if d == 2 { "2"@ }
    else if d == 3 { "3"@ }
    else if d == 4 { "4"@ }
    else if d == 5 { "5"@ }
    else if d == 6 { "6"@ }
    else if d == 7 { "7"@ }
    else if d == 8 { "8"@ }
    else { "9"@ }
}

/// The usual decimal rendering of a non-negative integer: most significant
/// digit first, no leading zeros except for the value zero itself.
pub open spec fn spec_decimal(n: nat) -> Seq<char>
    decreases n,
{
    if n < 10 {
        spec_decimal_digit(n as int)
    } else {
        spec_decimal(n / 10) + spec_decimal_digit((n % 10) as int)
    }
}

fn decimal_digit_str(d: u8) -> (r: &'static str)
    requires
        d < 10,
    ensures
        r@ == spec_decimal_digit(d as int),
{
    match d {
        0 => "0",
        1 => "1",
        2 => "2",
        3 => "3",
        4 => "4",
        5 => "5",
        6 => "6",
        7 => "7",
        8 => "8",
        _ => "9",
    }
}

/// Render a result limit as its decimal digits.
pub fn encode_limit(n: Limit) -> (r: String)
    ensures
        r@ == spec_decimal(n as nat),
    decreases n,
{
    if n < 10 {
        decimal_digit_str(n).to_owned()
    } else {
        let mut r = encode_limit(n / 10);
        r.append(decimal_digit_str(n % 10));
        r
    }
}

/// The token a boolean flag encodes to in a query string.
pub open spec fn spec_bool_token(b: bool) -> Seq<char> {
    if b { "true"@ } else { "false"@ }
}

fn bool_token_str(b: bool) -> (r: &'static str)
    ensures
        r@ == spec_bool_token(b),
{
    if b { "true" } else { "false" }
}

/// Specify the default language to interpret the search string. The language
/// is an ISO 639-1 language code, while the region is the two-letter
/// ISO 3166-1 country code. You can use the country code that you provide in
/// locale to differentiate between dialects of the given language.
/// The default value is en_US.
///
/// The codes are held as plain strings; encoding lowercases the language
/// token and uppercases the region token, so either may be given in any
/// letter case.
#[derive(Debug, Clone)]
pub struct Locale {
    pub language: String,
    pub country: String,
}

impl Locale {
    /// The locale rendered as `lang_REGION`: the language token lowercased,
    /// the region token uppercased, joined with an underscore.
    pub open spec fn spec_code(self) -> Seq<char> {
        spec_lower(self.language@) + "_"@ + spec_upper(self.country@)
    }

    /// The full query-string fragment for this locale: key, then code.
    pub open spec fn spec_query_parameter(self) -> Seq<char> {
        "&locale="@ + self.spec_code()
    }

    pub fn new(language: String, country: String) -> (r: Self)
        ensures
            r.language == language,
            r.country == country,
    {
        Self { language, country }
    }

    /// Render the locale as `lang_REGION`, for example `en_US`.
    pub fn encode(&self) -> (r: String)
        ensures
            r@ == self.spec_code(),
    {
        let mut r = ascii_to_lower(self.language.as_str());
        r.append("_");
        let upper = ascii_to_upper(self.country.as_str());
        r.append(upper.as_str());
        r
    }

    pub fn to_query_parameter(&self) -> (r: String)
        ensures
            r@ == self.spec_query_parameter(),
    {
        let mut r = "&locale=".to_owned();
        let code = self.encode();
        r.append(code.as_str());
        r
    }
}

impl Default for Locale {
    /// The default locale, `en_US`.
    fn default() -> (r: Self)
        ensures
            r.language@ == "en"@,
            r.country@ == "US"@,
    {
        Self { language: "en".to_owned(), country: "US".to_owned() }
    }
}

impl PartialEq for Locale {
    fn eq(&self, other: &Self) -> (r: bool) {
        self.language == other.language && self.country == other.country
    }
}

impl vstd::std_specs::cmp::PartialEqSpecImpl for Locale {
    open spec fn obeys_eq_spec() -> bool {
        true
    }

    open spec fn eq_spec(&self, other: &Self) -> bool {
        self.language@ == other.language@ && self.country@ == other.country@
    }
}

} // verus!
