use vstd::prelude::*;
use vstd::string::StringExecFns;

use crate::digest::{Author, AuthorView, ContentItem, ContentItemView, Digest, DigestView};
use crate::json::{json_lookup, json_of, lookup_field, parse_json, JsonValue};
use crate::types::{Errors, FetchError};

verus! {

/// An optional string field: absent or null is a present "no value";
/// text is the value; anything else does not fit the result model.
pub open spec fn opt_string_of(fields: Seq<(String, JsonValue)>, key: Seq<char>) -> Option<
    Option<Seq<char>>,
> {
    match json_lookup(fields, key) {
        Option::None => Option::Some(Option::None),
        Option::Some(v) => match v {
            JsonValue::Null => Option::Some(Option::None),
            JsonValue::Text(s) => Option::Some(Option::Some(s@)),
            _ => Option::None,
        },
    }
}

/// An author object: optional `name` and `url` strings.
pub open spec fn author_of(v: JsonValue) -> Option<AuthorView> {
    match v {
        JsonValue::Object(fields) => match (
            opt_string_of(fields@, "name"@),
            opt_string_of(fields@, "url"@),
        ) {
            (Option::Some(name), Option::Some(url)) => Option::Some(AuthorView { name, url }),
            _ => Option::None,
        },
        _ => Option::None,
    }
}

/// An optional author field: absent or null is "no author".
pub open spec fn opt_author_of(fields: Seq<(String, JsonValue)>, key: Seq<char>) -> Option<
    Option<AuthorView>,
> {
    match json_lookup(fields, key) {
        Option::None => Option::Some(Option::None),
        Option::Some(v) => match v {
            JsonValue::Null => Option::Some(Option::None),
            _ => match author_of(v) {
                Option::Some(a) => Option::Some(Option::Some(a)),
                Option::None => Option::None,
            },
        },
    }
}

/// A list of tags: every element must be text.
pub open spec fn strings_of(items: Seq<JsonValue>) -> Option<Seq<Seq<char>>>
    decreases items.len(),
{
    if items.len() == 0 {
        Option::Some(Seq::empty())
    } else {
        match strings_of(items.drop_last()) {
            Option::Some(rest) => match items.last() {
                JsonValue::Text(s) => Option::Some(rest.push(s@)),
                _ => Option::None,
            },
            Option::None => Option::None,
        }
    }
}

/// An optional tags field: absent or null is "no tags"; otherwise an
/// array of strings.
pub open spec fn opt_tags_of(fields: Seq<(String, JsonValue)>, key: Seq<char>) -> Option<
    Option<Seq<Seq<char>>>,
> {
    match json_lookup(fields, key) {
        Option::None => Option::Some(Option::None),
        Option::Some(v) => match v {
            JsonValue::Null => Option::Some(Option::None),
            JsonValue::Array(items) => match strings_of(items@) {
                Option::Some(tags) => Option::Some(Option::Some(tags)),
                Option::None => Option::None,
            },
            _ => Option::None,
        },
    }
}

/// One entry of a digest: an object whose known fields, all optional,
/// must each fit the result model; unknown fields are ignored.
pub open spec fn entry_of(v: JsonValue) -> Option<ContentItemView> {
    match v {
        JsonValue::Object(fields) => match (
            opt_string_of(fields@, "title"@),
            opt_string_of(fields@, "content"@),
            opt_string_of(fields@, "url"@),
            opt_string_of(fields@, "discussionUrl"@),
            opt_author_of(fields@, "author"@),
            opt_string_of(fields@, "timestamp"@),
            opt_string_of(fields@, "score"@),
            opt_tags_of(fields@, "tags"@),
        ) {
            (
                Option::Some(title),
                Option::Some(content),
                Option::Some(url),
                Option::Some(discussion_url),
                Option::Some(author),
                Option::Some(timestamp),
                Option::Some(score),
                Option::Some(tags),
            ) => Option::Some(
                ContentItemView {
                    title,
                    content,
                    url,
                    discussion_url,
                    author,
                    timestamp,
                    score,
                    tags,
                },
            ),
            _ => Option::None,
        },
        _ => Option::None,
    }
}

/// The entries array: every element must be an entry object.
pub open spec fn entries_of(items: Seq<JsonValue>) -> Option<Seq<ContentItemView>>
    decreases items.len(),
{
    if items.len() == 0 {
        Option::Some(Seq::empty())
    } else {
        match entries_of(items.drop_last()) {
            Option::Some(rest) => match entry_of(items.last()) {
                Option::Some(e) => Option::Some(rest.push(e)),
                Option::None => Option::None,
            },
            Option::None => Option::None,
        }
    }
}

/// A digest in its bare shape: an object with an optional string
/// `title` and a required `entries` array of entry objects.
pub open spec fn digest_of(v: JsonValue) -> Option<DigestView> {
    match v {
        JsonValue::Object(fields) => match (
            opt_string_of(fields@, "title"@),
            json_lookup(fields@, "entries"@),
        ) {
            (Option::Some(title), Option::Some(JsonValue::Array(items))) => match entries_of(
                items@,
            ) {
                Option::Some(entries) => Option::Some(DigestView { title, entries }),
                Option::None => Option::None,
            },
            _ => Option::None,
        },
        _ => Option::None,
    }
}

/// The tolerant shape rule: if the value is an object with a field
/// literally named `"digest"`, the digest is decoded from that field's
/// value; otherwise from the value itself.
pub open spec fn tolerant_digest_of(v: JsonValue) -> Option<DigestView> {
    match v {
        JsonValue::Object(fields) => match json_lookup(fields@, "digest"@) {
            Option::Some(inner) => digest_of(inner),
            Option::None => digest_of(v),
        },
        _ => digest_of(v),
    }
}

/// What decoding a whole text yields: parse it as JSON, then apply the
/// tolerant shape rule; `None` where either step fails.
pub open spec fn digest_of_text(s: Seq<char>) -> Option<DigestView> {
    match json_of(s) {
        Option::Some(v) => tolerant_digest_of(v),
        Option::None => Option::None,
    }
}

/// The wrapped and the bare shape decode alike: where an object carries
/// a `"digest"` field, the digest read from the whole object is exactly
/// the digest read from that field's value.
pub proof fn lemma_tolerant_unwraps(v: JsonValue, inner: JsonValue)
    requires
        v matches JsonValue::Object(fields) && json_lookup(fields@, "digest"@)
            == Option::Some(inner),
    ensures
        tolerant_digest_of(v) == digest_of(inner),
{
}

/// Where a value carries no `"digest"` field, the tolerant rule changes
/// nothing: the digest is read from the value itself.
pub proof fn lemma_tolerant_bare(v: JsonValue)
    requires
        v matches JsonValue::Object(fields) ==> json_lookup(fields@, "digest"@) is None,
    ensures
        tolerant_digest_of(v) == digest_of(v),
{
}

fn get_string_field(fields: &Vec<(String, JsonValue)>, key: &str) -> (r: Result<Option<String>, ()>)
    ensures
        match opt_string_of(fields@, key@) {
            Option::Some(v) => r matches Ok(o) && o.deep_view() == v,
            Option::None => r is Err,
        },
{
    match lookup_field(fields, key) {
        Option::None => Ok(Option::None),
        Option::Some(JsonValue::Null) => Ok(Option::None),
        Option::Some(JsonValue::Text(s)) => Ok(Option::Some(s.clone())),
        Option::Some(_) => Err(()),
    }
}

fn decode_author(v: &JsonValue) -> (r: Result<Author, ()>)
    ensures
        match author_of(*v) {
            Option::Some(a) => r matches Ok(x) && x@ == a,
            Option::None => r is Err,
        },
{
    match v {
        JsonValue::Object(fields) => {
            let name = get_string_field(fields, "name")?;
            let url = get_string_field(fields, "url")?;
            Ok(Author { name, url })
        },
        _ => Err(()),
    }
}

fn get_author_field(fields: &Vec<(String, JsonValue)>, key: &str) -> (r: Result<Option<Author>, ()>)
    ensures
        match opt_author_of(fields@, key@) {
            Option::Some(v) => r matches Ok(o) && o.deep_view() == v,
            Option::None => r is Err,
        },
{
    match lookup_field(fields, key) {
        Option::None => Ok(Option::None),
        Option::Some(JsonValue::Null) => Ok(Option::None),
        Option::Some(v) => {
            let a = decode_author(v)?;
            Ok(Option::Some(a))
        },
    }
}

proof fn lemma_strings_of_bad(items: Seq<JsonValue>, i: int)
    requires
        0 <= i < items.len(),
        !(items[i] matches JsonValue::Text(_)),
    ensures
        strings_of(items) is None,
    decreases items.len(),
{
    if i < items.len() - 1 {
        lemma_strings_of_bad(items.drop_last(), i);
    }
}

fn decode_strings(items: &Vec<JsonValue>) -> (r: Result<Vec<String>, ()>)
    ensures
        match strings_of(items@) {
            Option::Some(v) => r matches Ok(o) && o.deep_view() == v,
            Option::None => r is Err,
        },
{
    let mut acc: Vec<String> = Vec::new();
    let mut i: usize = 0;
    while i < items.len()
        invariant
            0 <= i <= items@.len(),
            strings_of(items@.take(i as int)) == Option::Some(acc.deep_view()),
        decreases items@.len() - i,
    {
        match &items[i] {
            JsonValue::Text(s) => {
                let ghost prev = acc.deep_view();
                acc.push(s.clone());
                proof {
                    assert(acc.deep_view() =~= prev.push(s@));
                }
            },
            _ => {
                proof {
                    lemma_strings_of_bad(items@, i as int);
                }
                return Err(());
            },
        }
        proof {
            assert(items@.take(i + 1).drop_last() =~= items@.take(i as int));
            assert(items@.take(i + 1).last() == items@[i as int]);
        }
        i = i + 1;
    }
    proof {
        assert(items@.take(items@.len() as int) =~= items@);
    }
    Ok(acc)
}

fn get_tags_field(fields: &Vec<(String, JsonValue)>, key: &str) -> (r: Result<
    Option<Vec<String>>,
    (),
>)
    ensures
        match opt_tags_of(fields@, key@) {
            Option::Some(v) => r matches Ok(o) && o.deep_view() == v,
            Option::None => r is Err,
        },
{
    match lookup_field(fields, key) {
        Option::None => Ok(Option::None),
        Option::Some(JsonValue::Null) => Ok(Option::None),
        Option::Some(JsonValue::Array(items)) => {
            let tags = decode_strings(items)?;
            Ok(Option::Some(tags))
        },
        Option::Some(_) => Err(()),
    }
}

fn decode_entry(v: &JsonValue) -> (r: Result<ContentItem, ()>)
    ensures
        match entry_of(*v) {
            Option::Some(e) => r matches Ok(x) && x@ == e,
            Option::None => r is Err,
        },
{
    match v {
        JsonValue::Object(fields) => {
            let title = get_string_field(fields, "title")?;
            let content = get_string_field(fields, "content")?;
            let url = get_string_field(fields, "url")?;
            let discussion_url = get_string_field(fields, "discussionUrl")?;
            let author = get_author_field(fields, "author")?;
            let timestamp = get_string_field(fields, "timestamp")?;
            let score = get_string_field(fields, "score")?;
            let tags = get_tags_field(fields, "tags")?;
            Ok(ContentItem { title, content, url, discussion_url, author, timestamp, score, tags })
        },
        _ => Err(()),
    }
}

proof fn lemma_entries_of_bad(items: Seq<JsonValue>, i: int)
    requires
        0 <= i < items.len(),
        entry_of(items[i]) is None,
    ensures
        entries_of(items) is None,
    decreases items.len(),
{
    if i < items.len() - 1 {
        lemma_entries_of_bad(items.drop_last(), i);
    }
}

fn decode_entries(items: &Vec<JsonValue>) -> (r: Result<Vec<ContentItem>, ()>)
    ensures
        match entries_of(items@) {
            Option::Some(v) => r matches Ok(o) && o.deep_view() == v,
            Option::None => r is Err,
        },
{
    let mut acc: Vec<ContentItem> = Vec::new();
    let mut i: usize = 0;
    while i < items.len()
        invariant
            0 <= i <= items@.len(),
            entries_of(items@.take(i as int)) == Option::Some(acc.deep_view()),
        decreases items@.len() - i,
    {
        match decode_entry(&items[i]) {
            Ok(e) => {
                let ghost prev = acc.deep_view();
                let ghost ev = e@;
                acc.push(e);
                proof {
                    assert(acc.deep_view() =~= prev.push(ev));
                }
            },
            Err(()) => {
                proof {
                    lemma_entries_of_bad(items@, i as int);
                }
                return Err(());
            },
        }
        proof {
            assert(items@.take(i + 1).drop_last() =~= items@.take(i as int));
            assert(items@.take(i + 1).last() == items@[i as int]);
        }
        i = i + 1;
    }
    proof {
        assert(items@.take(items@.len() as int) =~= items@);
    }
    Ok(acc)
}

fn decode_digest(v: &JsonValue) -> (r: Result<Digest, ()>)
    ensures
        match digest_of(*v) {
            Option::Some(d) => r matches Ok(x) && x@ == d,
            Option::None => r is Err,
        },
{
    match v {
        JsonValue::Object(fields) => {
            let title = get_string_field(fields, "title")?;
            match lookup_field(fields, "entries") {
                Option::Some(JsonValue::Array(items)) => {
                    let entries = decode_entries(items)?;
                    Ok(Digest { title, entries })
                },
                _ => Err(()),
            }
        },
        _ => Err(()),
    }
}

/// Decodes a digest from a JSON value by the tolerant shape rule: a
/// `"digest"` field's value if the object carries one, the value itself
/// otherwise; `None` exactly where neither shape fits the result model.
pub fn digest_from_value(v: &JsonValue) -> (r: Option<Digest>)
    ensures
        match tolerant_digest_of(*v) {
            Option::Some(d) => r matches Some(x) && x@ == d,
            Option::None => r is None,
        },
{
    let direct = match v {
        JsonValue::Object(fields) => match lookup_field(fields, "digest") {
            Option::Some(inner) => decode_digest(inner),
            Option::None => decode_digest(v),
        },
        _ => decode_digest(v),
    };
    match direct {
        Ok(d) => Some(d),
        Err(()) => Option::None,
    }
}

/// Parses a text as JSON and decodes a digest from it tolerantly;
/// `Err` exactly where the text is not JSON or neither shape fits.
pub fn deserialize_to_digest(json_data: &str) -> (r: Result<Digest, Errors>)
    ensures
        match digest_of_text(json_data@) {
            Option::Some(d) => r matches Ok(x) && x@ == d,
            Option::None => r matches Err(e) && e matches Errors::TranslationError(_),
        },
{
    match parse_json(json_data) {
        Option::Some(v) => match digest_from_value(&v) {
            Option::Some(d) => Ok(d),
            Option::None => Err(
                Errors::TranslationError(String::from_str("content does not fit the digest model")),
            ),
        },
        Option::None => Err(Errors::TranslationError(String::from_str("content is not JSON"))),
    }
}

/// Decodes what the content-extraction service returned, as one step of
/// a fetch: a failure here is an extraction failure.
pub fn decode_extraction(json_data: &str) -> (r: Result<Digest, FetchError>)
    ensures
        match digest_of_text(json_data@) {
            Option::Some(d) => r matches Ok(x) && x@ == d,
            Option::None => r matches Err(e) && e matches FetchError::ExtractionFailure(_),
        },
{
    match deserialize_to_digest(json_data) {
        Ok(d) => Ok(d),
        Err(_) => Err(
            FetchError::ExtractionFailure(
                String::from_str("could not decode the extracted content"),
            ),
        ),
    }
}

} // verus!
