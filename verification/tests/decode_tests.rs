use pori::decode::{decode_extraction, deserialize_to_digest, digest_from_value};
use pori::digest::{Author, ContentItem, Digest};
use pori::json::JsonValue;
use pori::types::{Errors, FetchError};
use pori::utilities::{minimize_url, str_contains};

#[test]
fn both_envelope_shapes_decode_to_zero_entries() {
    let wrapped = deserialize_to_digest(r#"{"digest": {"entries": []}}"#).unwrap();
    assert!(wrapped.title.is_none());
    assert_eq!(wrapped.entries.len(), 0);

    let bare = deserialize_to_digest(r#"{"entries": []}"#).unwrap();
    assert!(bare.title.is_none());
    assert_eq!(bare.entries.len(), 0);
}

#[test]
fn both_envelope_shapes_decode_alike_on_values() {
    let inner = JsonValue::Object(vec![(
        "entries".to_string(),
        JsonValue::Array(vec![JsonValue::Object(vec![(
            "title".to_string(),
            JsonValue::Text("E1".to_string()),
        )])]),
    )]);
    let bare = digest_from_value(&inner).unwrap();
    let wrapped_value = JsonValue::Object(vec![("digest".to_string(), inner)]);
    let wrapped = digest_from_value(&wrapped_value).unwrap();
    assert_eq!(bare.entries.len(), wrapped.entries.len());
    assert_eq!(bare.entries[0].title, wrapped.entries[0].title);
}

#[test]
fn full_entry_fields_are_decoded() {
    let digest = deserialize_to_digest(
        r#"{
            "title": "Front Page",
            "entries": [{
                "title": "A story",
                "content": "Body text",
                "url": "https://example.com/a",
                "discussionUrl": "https://example.com/a/comments",
                "author": {"name": "carol", "url": "https://example.com/u/carol"},
                "timestamp": "2024-01-02T03:04:05Z",
                "score": "42",
                "tags": ["one", "two"]
            }]
        }"#,
    )
    .unwrap();
    assert_eq!(digest.title, Some("Front Page".to_string()));
    let e = &digest.entries[0];
    assert_eq!(e.title, Some("A story".to_string()));
    assert_eq!(e.content, Some("Body text".to_string()));
    assert_eq!(e.url, Some("https://example.com/a".to_string()));
    assert_eq!(e.discussion_url, Some("https://example.com/a/comments".to_string()));
    assert_eq!(e.author.as_ref().unwrap().name, Some("carol".to_string()));
    assert_eq!(
        e.author.as_ref().unwrap().url,
        Some("https://example.com/u/carol".to_string())
    );
    assert_eq!(e.timestamp, Some("2024-01-02T03:04:05Z".to_string()));
    assert_eq!(e.score, Some("42".to_string()));
    assert_eq!(e.tags, Some(vec!["one".to_string(), "two".to_string()]));
}

#[test]
fn absent_and_null_fields_both_mean_no_value() {
    let digest = deserialize_to_digest(
        r#"{"entries": [{"title": null, "content": null, "author": null, "tags": null}]}"#,
    )
    .unwrap();
    let e = &digest.entries[0];
    assert!(e.title.is_none());
    assert!(e.content.is_none());
    assert!(e.author.is_none());
    assert!(e.tags.is_none());
}

#[test]
fn malformed_entries_fail_the_decode() {
    let err = deserialize_to_digest(r#"{"entries": "not-a-list"}"#).unwrap_err();
    assert!(matches!(err, Errors::TranslationError(_)));
}

#[test]
fn missing_entries_fail_the_decode() {
    let err = deserialize_to_digest(r#"{"title": "T"}"#).unwrap_err();
    assert!(matches!(err, Errors::TranslationError(_)));
}

#[test]
fn entries_must_be_objects() {
    let err = deserialize_to_digest(r#"{"entries": [17]}"#).unwrap_err();
    assert!(matches!(err, Errors::TranslationError(_)));
}

#[test]
fn mistyped_fields_fail_the_decode() {
    let err = deserialize_to_digest(r#"{"entries": [{"title": 7}]}"#).unwrap_err();
    assert!(matches!(err, Errors::TranslationError(_)));
    let err = deserialize_to_digest(r#"{"entries": [{"tags": ["ok", 3]}]}"#).unwrap_err();
    assert!(matches!(err, Errors::TranslationError(_)));
    let err = deserialize_to_digest(r#"{"entries": [{"author": "carol"}]}"#).unwrap_err();
    assert!(matches!(err, Errors::TranslationError(_)));
}

#[test]
fn unknown_fields_are_ignored() {
    let digest =
        deserialize_to_digest(r#"{"entries": [{"title": "A", "rank": 3}], "extra": true}"#)
            .unwrap();
    assert_eq!(digest.entries[0].title, Some("A".to_string()));
}

#[test]
fn text_that_is_not_json_fails_the_decode() {
    let err = deserialize_to_digest("not json at all").unwrap_err();
    assert!(matches!(err, Errors::TranslationError(_)));
}

#[test]
fn extraction_decode_failure_is_an_extraction_failure() {
    let err = decode_extraction(r#"{"entries": "not-a-list"}"#).unwrap_err();
    assert!(matches!(err, FetchError::ExtractionFailure(_)));
    let ok = decode_extraction(r#"{"entries": []}"#).unwrap();
    assert_eq!(ok.entries.len(), 0);
}

#[test]
fn schema_names_the_wire_fields() {
    let schema = Digest::get_json_schema();
    assert!(str_contains(schema, "discussionUrl"));
    assert!(str_contains(schema, "entries"));
    assert!(str_contains(schema, "digest"));
}

#[test]
fn details_string_joins_present_fields() {
    let item = ContentItem {
        title: Some("ignored by details".to_string()),
        content: Some("Body".to_string()),
        url: Some("https://example.com/a".to_string()),
        discussion_url: None,
        author: Some(Author { name: Some("carol".to_string()), url: None }),
        timestamp: Some("2024-01-02".to_string()),
        score: Some("42".to_string()),
        tags: None,
    };
    assert_eq!(
        item.to_details_string(),
        " - Body - https://example.com/a - 2024-01-02 - 42"
    );
    let empty_item = ContentItem {
        title: None,
        content: None,
        url: None,
        discussion_url: None,
        author: None,
        timestamp: None,
        score: None,
        tags: None,
    };
    assert_eq!(empty_item.to_details_string(), "");
}

#[test]
fn display_title_falls_back_to_untitled() {
    let digest = deserialize_to_digest(r#"{"entries": [{"title": "A"}, {}]}"#).unwrap();
    assert_eq!(digest.entries[0].display_title(), "A");
    assert_eq!(digest.entries[1].display_title(), "Untitled");
}

#[test]
fn minimize_url_keeps_the_host() {
    assert_eq!(minimize_url("https://example.com/path/deeper"), "example.com");
    assert_eq!(minimize_url("https://news.ycombinator.com"), "news.ycombinator.com");
    assert_eq!(minimize_url("no slashes"), "no slashes");
    assert_eq!(minimize_url("one/slash"), "one/slash");
}

#[test]
fn str_contains_finds_runs() {
    assert!(str_contains("reddit.com/r/programming", "reddit"));
    assert!(str_contains("anything", ""));
    assert!(!str_contains("short", "much longer needle"));
    assert!(!str_contains("abcd", "bd"));
    assert!(str_contains("abcd", "bc"));
}
