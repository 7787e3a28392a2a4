//! Tests of the typed response shapes against JSON payloads of each
//! endpoint: a fixture converts into the matching typed structure with no
//! field lost, and a malformed body yields an error, never a panic.

use serde_json::Value;

use tenor::{categories, search, trending, Error};

const SEARCH_FIXTURE: &str = r#"{
  "results": [
    {
      "created": 1621014189.75935,
      "hasaudio": false,
      "id": "16989471141791455574",
      "media_formats": {
        "gif": {
          "url": "https://media.example/gif/excited.gif",
          "duration": 1.5,
          "preview": "https://media.example/gif/excited-preview.png",
          "dims": [498, 373],
          "size": 1001521
        }
      },
      "tags": ["excited", "happy"],
      "title": "Excited",
      "content_description": "An excited celebration",
      "itemurl": "https://example.com/view/excited",
      "flags": ["sticker"],
      "url": "https://example.com/excited"
    }
  ],
  "next": "CAAQGw"
}"#;

const CATEGORIES_FIXTURE: &str = r##"{
  "locale": "en",
  "tags": [
    {
      "searchterm": "excited",
      "path": "/v2/search?q=excited&locale=en_US&component=categories&contentfilter=off",
      "image": "https://media.example/excited.gif",
      "name": "#excited"
    }
  ]
}"##;

const TRENDING_FIXTURE: &str = r#"{
  "locale": "en_US",
  "results": ["good morning", "happy friday"]
}"#;

fn string_field(value: &Value, field: &str) -> String {
    value.get(field).and_then(Value::as_str).expect(field).to_string()
}

fn number_text(value: &Value, field: &str) -> String {
    value.get(field).expect(field).to_string()
}

fn media_object(value: &Value) -> (String, String, String, Vec<i64>, i64) {
    let dimensions = value
        .get("dims")
        .and_then(Value::as_array)
        .expect("dims")
        .iter()
        .map(|d| d.as_i64().expect("dimension"))
        .collect();
    (
        string_field(value, "url"),
        number_text(value, "duration"),
        string_field(value, "preview"),
        dimensions,
        value.get("size").and_then(Value::as_i64).expect("size"),
    )
}

fn search_response_of(body: &str) -> Result<search::Response, Error> {
    let value: Value = serde_json::from_str(body).map_err(|e| Error::Serialization(e.to_string()))?;
    let mut results: Vec<search::ResponseObject> = Vec::new();
    for item in value.get("results").and_then(Value::as_array).expect("results") {
        let formats = item.get("media_formats").expect("media_formats");
        let gif = formats.get("gif").map(|v| {
            let (url, duration, preview, dimensions, size) = media_object(v);
            search::Gif { url, duration, preview, dimensions, size }
        });
        results.push(search::ResponseObject {
            created: number_text(item, "created"),
            hasaudio: item.get("hasaudio").and_then(Value::as_bool).expect("hasaudio"),
            id: string_field(item, "id"),
            media_formats: search::ContentFormats {
                gifpreview: None,
                gif,
                mediumgif: None,
                tinygif: None,
                nanogif: None,
                mp4: None,
                loopedmp4: None,
                tinymp4: None,
                nanomp4: None,
                webm: None,
                tinywebm: None,
                nanowebm: None,
                webp: None,
                tinygifpreview: None,
                nanogifpreview: None,
            },
            tags: item
                .get("tags")
                .and_then(Value::as_array)
                .expect("tags")
                .iter()
                .map(|t| t.as_str().expect("tag").to_string())
                .collect(),
            title: string_field(item, "title"),
            content_description: string_field(item, "content_description"),
            itemurl: string_field(item, "itemurl"),
            flags: item
                .get("flags")
                .and_then(Value::as_array)
                .expect("flags")
                .iter()
                .map(|f| f.as_str().expect("flag").to_string())
                .collect(),
            url: string_field(item, "url"),
        });
    }
    Ok(search::Response { results, next: string_field(&value, "next") })
}

#[test]
fn search_fixture_converts_with_no_field_lost() {
    let response = search_response_of(SEARCH_FIXTURE).expect("well-formed fixture");
    assert_eq!(response.next, "CAAQGw");
    assert_eq!(response.results.len(), 1);

    let item = &response.results[0];
    assert_eq!(item.created, "1621014189.75935");
    assert!(!item.hasaudio);
    assert_eq!(item.id, "16989471141791455574");
    assert_eq!(item.tags, vec!["excited".to_string(), "happy".to_string()]);
    assert_eq!(item.title, "Excited");
    assert_eq!(item.content_description, "An excited celebration");
    assert_eq!(item.itemurl, "https://example.com/view/excited");
    assert_eq!(item.flags, vec!["sticker".to_string()]);
    assert_eq!(item.url, "https://example.com/excited");

    let gif = item.media_formats.gif.as_ref().expect("gif format");
    assert_eq!(gif.url, "https://media.example/gif/excited.gif");
    assert_eq!(gif.duration, "1.5");
    assert_eq!(gif.preview, "https://media.example/gif/excited-preview.png");
    assert_eq!(gif.dimensions, vec![498, 373]);
    assert_eq!(gif.size, 1001521);
    assert!(item.media_formats.mp4.is_none());
}

#[test]
fn search_fixture_round_trips_as_json() {
    let value: Value = serde_json::from_str(SEARCH_FIXTURE).expect("well-formed fixture");
    let rendered = serde_json::to_string(&value).expect("render");
    let reparsed: Value = serde_json::from_str(&rendered).expect("reparse");
    assert_eq!(value, reparsed);
}

#[test]
fn categories_fixture_converts_with_no_field_lost() {
    let value: Value = serde_json::from_str(CATEGORIES_FIXTURE).expect("well-formed fixture");
    let response = categories::Response {
        locale: string_field(&value, "locale"),
        tags: value
            .get("tags")
            .and_then(Value::as_array)
            .expect("tags")
            .iter()
            .map(|tag| categories::Tag {
                searchterm: string_field(tag, "searchterm"),
                path: string_field(tag, "path"),
                image: string_field(tag, "image"),
                name: string_field(tag, "name"),
            })
            .collect(),
    };
    assert_eq!(response.locale, "en");
    assert_eq!(response.tags.len(), 1);
    assert_eq!(response.tags[0].searchterm, "excited");
    assert_eq!(
        response.tags[0].path,
        "/v2/search?q=excited&locale=en_US&component=categories&contentfilter=off"
    );
    assert_eq!(response.tags[0].image, "https://media.example/excited.gif");
    assert_eq!(response.tags[0].name, "#excited");
}

#[test]
fn trending_fixture_converts_with_no_field_lost() {
    let value: Value = serde_json::from_str(TRENDING_FIXTURE).expect("well-formed fixture");
    let response = trending::Response {
        locale: string_field(&value, "locale"),
        results: value
            .get("results")
            .and_then(Value::as_array)
            .expect("results")
            .iter()
            .map(|term| term.as_str().expect("term").to_string())
            .collect(),
    };
    assert_eq!(response.locale, "en_US");
    assert_eq!(response.results, vec!["good morning".to_string(), "happy friday".to_string()]);
}

#[test]
fn malformed_body_yields_serialization_error() {
    let outcome = search_response_of("{ this is not json");
    let error = outcome.expect_err("malformed body must fail");
    assert!(matches!(error, Error::Serialization(_)));
}

#[test]
fn empty_body_yields_serialization_error() {
    let outcome = search_response_of("");
    assert!(matches!(outcome, Err(Error::Serialization(_))));
}
