use vstd::prelude::*;
use vstd::string::StringExecFns;

use crate::decode::{digest_from_value, tolerant_digest_of};
use crate::digest::Digest;
use crate::json::{json_lookup, json_of, lookup_field, parse_json, JsonValue};
use crate::types::Errors;
use crate::utilities::{contains_seq, str_contains};

verus! {

/// Built-in sample digests, keyed by scenario, in the same wire shapes
/// the extraction service produces; one of them stands wrapped under a
/// `"digest"` key, the others bare.
pub const SAMPLE_DIGESTS: &'static str = r#"
{
  "hacker_news": {
    "title": "Hacker News",
    "entries": [
      {
        "title": "Show HN: A tiny terminal reader",
        "url": "https://example.com/reader",
        "discussionUrl": "https://news.ycombinator.com/item?id=1",
        "author": {"name": "alice"},
        "timestamp": "2024-05-01T12:00:00Z",
        "score": "128 points",
        "tags": ["show", "terminal"]
      },
      {
        "title": "The art of loop invariants",
        "content": "A long-form essay.",
        "url": "https://example.org/essay",
        "score": "96 points"
      },
      {"url": "https://example.net/untitled"}
    ]
  },
  "reddit_programming": {
    "title": "r/programming",
    "entries": [
      {
        "title": "Why state machines are underrated",
        "url": "https://example.com/fsm",
        "score": "412"
      },
      {
        "title": "A gentle intro to solvers",
        "discussionUrl": "https://reddit.com/r/programming/comments/abc",
        "author": {"name": "bob", "url": "https://reddit.com/u/bob"}
      }
    ]
  },
  "tech_blog": {
    "title": "Engineering Notes",
    "entries": [
      {
        "title": "Lessons from a rewrite",
        "content": "What moved and what stayed.",
        "timestamp": "2024-04-18T09:30:00Z"
      }
    ]
  },
  "minimal": {"digest": {"entries": [{"title": "Lone entry"}]}},
  "empty": {"title": "Nothing Here", "entries": []}
}
"#;

/// The sample table a JSON value yields: its fields where it is an
/// object, nothing otherwise.
pub open spec fn provider_table(v: JsonValue) -> Seq<(String, JsonValue)> {
    match v {
        JsonValue::Object(fields) => fields@,
        _ => Seq::empty(),
    }
}

/// Sample data provider: serves the built-in digests so the session
/// can be exercised without the real retrieval and extraction
/// services.
pub struct MockProvider {
    pub test_data: Vec<(String, JsonValue)>,
}

impl View for MockProvider {
    type V = Seq<(String, JsonValue)>;

    open spec fn view(&self) -> Seq<(String, JsonValue)> {
        self.test_data@
    }
}

/// Which sample key a location falls under: the first matching pattern
/// wins, and an unmatched location falls back to the first sample.
pub open spec fn url_key(url: Seq<char>) -> Seq<char> {
    if contains_seq(url, "news.ycombinator"@) || contains_seq(url, "hackernews"@) || contains_seq(
        url,
        "hn"@,
    ) {
        "hacker_news"@
    } else if contains_seq(url, "reddit.com/r/programming"@) || contains_seq(url, "reddit"@) {
        "reddit_programming"@
    } else if contains_seq(url, "blog"@) || contains_seq(url, "tech"@) {
        "tech_blog"@
    } else if contains_seq(url, "minimal"@) {
        "minimal"@
    } else if contains_seq(url, "empty"@) {
        "empty"@
    } else {
        "hacker_news"@
    }
}

impl MockProvider {
    /// Loads the built-in sample table: each top-level field of the
    /// sample JSON becomes one keyed digest value.
    pub fn new() -> (r: Result<MockProvider, Errors>)
        ensures
            match json_of(SAMPLE_DIGESTS@) {
                Some(v) => r matches Ok(p) && p@ == provider_table(v),
                None => r matches Err(e) && e matches Errors::UnexpectedError(_),
            },
    {
        match parse_json(SAMPLE_DIGESTS) {
            Some(JsonValue::Object(fields)) => Ok(MockProvider { test_data: fields }),
            Some(_) => Ok(MockProvider { test_data: Vec::new() }),
            None => Err(
                Errors::UnexpectedError(String::from_str("could not parse the sample data")),
            ),
        }
    }

    /// The digest stored under `key`, decoded tolerantly: an unknown
    /// key and an undecodable value fail with distinct errors.
    pub fn get_digest_by_key(&self, key: &str) -> (r: Result<Digest, Errors>)
        ensures
            match json_lookup(self@, key@) {
                Some(v) => match tolerant_digest_of(v) {
                    Some(d) => r matches Ok(x) && x@ == d,
                    None => r matches Err(e) && e matches Errors::TranslationError(_),
                },
                None => r matches Err(e) && e matches Errors::UnexpectedError(_),
            },
    {
        match lookup_field(&self.test_data, key) {
            Some(v) => match digest_from_value(v) {
                Some(d) => Ok(d),
                None => Err(
                    Errors::TranslationError(
                        String::from_str("could not decode the sample digest"),
                    ),
                ),
            },
            None => Err(
                Errors::UnexpectedError(String::from_str("no sample data under the key")),
            ),
        }
    }

    /// The sample digest a location falls under, by [`url_key`].
    pub fn get_digest_for_url(&self, url: &str) -> (r: Result<Digest, Errors>)
        ensures
            match json_lookup(self@, url_key(url@)) {
                Some(v) => match tolerant_digest_of(v) {
                    Some(d) => r matches Ok(x) && x@ == d,
                    None => r matches Err(e) && e matches Errors::TranslationError(_),
                },
                None => r matches Err(e) && e matches Errors::UnexpectedError(_),
            },
    {
        let key: &str = if str_contains(url, "news.ycombinator") || str_contains(url, "hackernews")
            || str_contains(url, "hn") {
            "hacker_news"
        } else if str_contains(url, "reddit.com/r/programming") || str_contains(url, "reddit") {
            "reddit_programming"
        } else if str_contains(url, "blog") || str_contains(url, "tech") {
            "tech_blog"
        } else if str_contains(url, "minimal") {
            "minimal"
        } else if str_contains(url, "empty") {
            "empty"
        } else {
            "hacker_news"
        };
        self.get_digest_by_key(key)
    }

    /// The keys the sample table holds, in table order.
    pub fn available_keys(&self) -> (r: Vec<String>)
        ensures
            r@.len() == self@.len(),
            forall|i: int| 0 <= i < r@.len() ==> r@[i]@ == self@[i].0@,
    {
        let mut keys: Vec<String> = Vec::new();
        let mut i: usize = 0;
        while i < self.test_data.len()
            invariant
                0 <= i <= self.test_data@.len(),
                keys@.len() == i,
                forall|j: int| 0 <= j < i ==> keys@[j]@ == self.test_data@[j].0@,
            decreases self.test_data@.len() - i,
        {
            keys.push(self.test_data[i].0.clone());
            i = i + 1;
        }
        keys
    }
}

} // verus!
