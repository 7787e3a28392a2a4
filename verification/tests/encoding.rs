//! Tests of the query-string encoders: filter tokens, locale codes, limits
//! and media-format lists.

use tenor::{
    ascii_to_lower, ascii_to_upper, encode_limit, ArRange, ContentFilter, Error, Locale,
    MediaFilter, SearchFilter, DEFAULT_LIMIT, MAX_LIMIT,
};

#[test]
fn content_filter_tokens() {
    assert_eq!(ContentFilter::Off.to_query_parameter(), "&contentfilter=off");
    assert_eq!(ContentFilter::Low.to_query_parameter(), "&contentfilter=low");
    assert_eq!(ContentFilter::Medium.to_query_parameter(), "&contentfilter=medium");
    assert_eq!(ContentFilter::High.to_query_parameter(), "&contentfilter=high");
    assert_eq!(ContentFilter::default(), ContentFilter::Off);
}

#[test]
fn ar_range_tokens() {
    assert_eq!(ArRange::All.to_query_parameter(), "&ar_range=all");
    assert_eq!(ArRange::Wide.to_query_parameter(), "&ar_range=wide");
    assert_eq!(ArRange::Standard.to_query_parameter(), "&ar_range=standard");
    assert_eq!(ArRange::default(), ArRange::All);
}

#[test]
fn search_filter_tokens() {
    assert_eq!(SearchFilter::Sticker.to_query_parameter(), "&searchfilter=sticker");
    assert_eq!(SearchFilter::Static.to_query_parameter(), "&searchfilter=sticker,static");
    assert_eq!(SearchFilter::NonStatic.to_query_parameter(), "&searchfilter=sticker,-static");
}

#[test]
fn media_filter_tokens() {
    assert_eq!(MediaFilter::Preview.token(), "preview");
    assert_eq!(MediaFilter::Gif.token(), "gif");
    assert_eq!(MediaFilter::MediumGif.token(), "mediumgif");
    assert_eq!(MediaFilter::TinyGif.token(), "tinygif");
    assert_eq!(MediaFilter::NanoGif.token(), "nanogif");
    assert_eq!(MediaFilter::Mp4.token(), "mp4");
    assert_eq!(MediaFilter::LoopedMp4.token(), "loopedmp4");
    assert_eq!(MediaFilter::TinyMp4.token(), "tinymp4");
    assert_eq!(MediaFilter::NanoMp4.token(), "nanomp4");
    assert_eq!(MediaFilter::Webm.token(), "webm");
    assert_eq!(MediaFilter::TinyWebm.token(), "tinywebm");
    assert_eq!(MediaFilter::NanoWebm.token(), "nanowebm");
    assert_eq!(MediaFilter::WebpTransparent.token(), "webp_transparent");
    assert_eq!(MediaFilter::TinyWebpTransparent.token(), "tinywebp_transparent");
    assert_eq!(MediaFilter::NanoWebpTransparent.token(), "nanowebp_transparent");
    assert_eq!(MediaFilter::GifTransparent.token(), "gif_transparent");
    assert_eq!(MediaFilter::TinyGifTransparent.token(), "tinygif_transparent");
    assert_eq!(MediaFilter::NanoGifTransparent.token(), "nanogif_transparent");
}

#[test]
fn media_filter_list_gif_mp4() {
    // The comma-joined list carries no trailing separator.
    let filters = vec![MediaFilter::Gif, MediaFilter::Mp4];
    assert_eq!(MediaFilter::encode_list(&filters), "gif,mp4");
}

#[test]
fn media_filter_list_empty_and_single() {
    let empty: Vec<MediaFilter> = vec![];
    assert_eq!(MediaFilter::encode_list(&empty), "");
    let single = vec![MediaFilter::TinyGif];
    assert_eq!(MediaFilter::encode_list(&single), "tinygif");
}

#[test]
fn media_filter_all_formats() {
    let all = MediaFilter::all();
    assert_eq!(all.len(), 18);
    let encoded = MediaFilter::encode_list(&all);
    assert_eq!(
        encoded,
        "preview,gif,mediumgif,tinygif,nanogif,mp4,loopedmp4,tinymp4,nanomp4,\
         webm,tinywebm,nanowebm,webp_transparent,tinywebp_transparent,\
         nanowebp_transparent,gif_transparent,tinygif_transparent,nanogif_transparent"
    );
    assert!(!encoded.ends_with(','));
}

#[test]
fn locale_en_us() {
    let locale = Locale::new("en".to_string(), "US".to_string());
    assert_eq!(locale.encode(), "en_US");
}

#[test]
fn locale_ja_jp() {
    let locale = Locale::new("ja".to_string(), "JP".to_string());
    assert_eq!(locale.encode(), "ja_JP");
}

#[test]
fn locale_normalizes_letter_case() {
    let locale = Locale::new("En".to_string(), "us".to_string());
    assert_eq!(locale.encode(), "en_US");
}

#[test]
fn locale_default_and_query_parameter() {
    let locale = Locale::default();
    assert_eq!(locale.encode(), "en_US");
    assert_eq!(locale.to_query_parameter(), "&locale=en_US");
    assert_eq!(locale, Locale::new("en".to_string(), "US".to_string()));
}

#[test]
fn ascii_case_mapping() {
    assert_eq!(ascii_to_lower("AbC"), "abc");
    assert_eq!(ascii_to_upper("AbC"), "ABC");
    assert_eq!(ascii_to_lower("already lower 42!"), "already lower 42!");
    assert_eq!(ascii_to_upper("mixed-42_x"), "MIXED-42_X");
    assert_eq!(ascii_to_lower(""), "");
    assert_eq!(ascii_to_upper(""), "");
}

#[test]
fn limit_constants() {
    assert_eq!(DEFAULT_LIMIT, 20);
    assert_eq!(MAX_LIMIT, 50);
}

#[test]
fn limit_encoding() {
    assert_eq!(encode_limit(0), "0");
    assert_eq!(encode_limit(7), "7");
    assert_eq!(encode_limit(20), "20");
    assert_eq!(encode_limit(50), "50");
    assert_eq!(encode_limit(255), "255");
}

#[test]
fn error_variants() {
    let request = Error::Request("connection refused".to_string());
    let serialization = Error::Serialization("expected value".to_string());
    assert!(matches!(request, Error::Request(_)));
    assert!(matches!(serialization, Error::Serialization(_)));
    assert_ne!(request, serialization);
    assert_eq!(request.clone(), request);
}
