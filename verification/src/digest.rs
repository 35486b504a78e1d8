use vstd::prelude::*;
use vstd::string::StringExecFns;

verus! {

/// The JSON schema handed to the content-extraction service. The object it
/// describes is what the tolerant decoder accepts back, either bare or
/// wrapped under a `"digest"` key.
pub const JSON_SCHEMA: &'static str = r#"
{
  "$schema": "http://json-schema.org/draft-07/schema#",
  "title": "digest",
  "type": "object",
  "description": "A digest is a type of digital platform or webpage that aggregates and presents a curated collection of content, typically organized in a concise and accessible format. It may be algorithmically generated, or derived from user submissions. These often feature summaries, snippets, or headlines that provide a quick overview of the content. Digests are designed to facilitate easy browsing and discovery, allowing users to quickly scan through a variety of topics and delve deeper into those of interest. They often include user interactions such as comments, votes, or recommendations",
  "properties": {
    "title": {
      "type": "string",
      "description": "The title of the website or page."
    },
    "entries": {
      "type": "array",
      "description": "A list of content items on the page.",
      "items": {
        "type": "object",
        "description": "A content item object",
        "properties": {
          "title": {
            "type": "string",
            "description": "The title of the content item."
          },
          "content": {
            "type": "string",
            "description": "The main content or description of the item."
          },
          "url": {
            "type": "string",
            "format": "uri",
            "description": "The URL to the full content or external link."
          },
          "discussionUrl": {
            "type": "string",
            "format": "uri",
            "description": "The URL to the comments or discussion of the content item."
          },
          "author": {
            "type": "object",
            "description": "Information about the author of the content item.",
            "properties": {
              "name": {
                "type": "string",
                "description": "The name of the author."
              },
              "url": {
                "type": "string",
                "format": "uri",
                "description": "The URL to the author's profile page."
              }
            }
          },
          "timestamp": {
            "type": "string",
            "format": "date-time",
            "description": "The date and time when the item was published or created."
          },
          "score": {
            "type": "string",
            "description": "The score or ranking of the content item, if applicable."
          },
          "tags": {
            "type": "array",
            "description": "A list of tags or categories associated with the content item.",
            "items": {
              "type": "string",
              "description": "A tag item"
            }
          }
        }
      }
    }
  }
}
"#;

/// Who wrote a content item, as far as the page says.
#[derive(Debug, Clone)]
pub struct Author {
    pub name: Option<String>,
    pub url: Option<String>,
}

/// One item of a digest. Every field is optional; absence is a value of
/// its own and is never coerced to an empty string here.
#[derive(Debug, Clone)]
pub struct ContentItem {
    pub title: Option<String>,
    pub content: Option<String>,
    pub url: Option<String>,
    pub discussion_url: Option<String>,
    pub author: Option<Author>,
    pub timestamp: Option<String>,
    pub score: Option<String>,
    pub tags: Option<Vec<String>>,
}

/// A fetched summary: an optional page title and the entries in the order
/// the page gave them. An empty list of entries is a valid result, not an
/// error. A digest is built whole by one successful fetch and never
/// patched afterwards.
#[derive(Debug, Clone)]
pub struct Digest {
    pub title: Option<String>,
    pub entries: Vec<ContentItem>,
}

/// Mathematical model of an [`Author`].
pub struct AuthorView {
    pub name: Option<Seq<char>>,
    pub url: Option<Seq<char>>,
}

/// Mathematical model of a [`ContentItem`].
pub struct ContentItemView {
    pub title: Option<Seq<char>>,
    pub content: Option<Seq<char>>,
    pub url: Option<Seq<char>>,
    pub discussion_url: Option<Seq<char>>,
    pub author: Option<AuthorView>,
    pub timestamp: Option<Seq<char>>,
    pub score: Option<Seq<char>>,
    pub tags: Option<Seq<Seq<char>>>,
}

/// Mathematical model of a [`Digest`].
pub struct DigestView {
    pub title: Option<Seq<char>>,
    pub entries: Seq<ContentItemView>,
}

impl DeepView for Author {
    type V = AuthorView;

    open spec fn deep_view(&self) -> AuthorView {
        AuthorView { name: self.name.deep_view(), url: self.url.deep_view() }
    }
}

impl View for Author {
    type V = AuthorView;

    open spec fn view(&self) -> AuthorView {
        self.deep_view()
    }
}

impl DeepView for ContentItem {
    type V = ContentItemView;

    open spec fn deep_view(&self) -> ContentItemView {
        ContentItemView {
            title: self.title.deep_view(),
            content: self.content.deep_view(),
            url: self.url.deep_view(),
            discussion_url: self.discussion_url.deep_view(),
            author: self.author.deep_view(),
            timestamp: self.timestamp.deep_view(),
            score: self.score.deep_view(),
            tags: self.tags.deep_view(),
        }
    }
}

impl View for ContentItem {
    type V = ContentItemView;

    open spec fn view(&self) -> ContentItemView {
        self.deep_view()
    }
}

impl DeepView for Digest {
    type V = DigestView;

    open spec fn deep_view(&self) -> DigestView {
        DigestView { title: self.title.deep_view(), entries: self.entries.deep_view() }
    }
}

impl View for Digest {
    type V = DigestView;

    open spec fn view(&self) -> DigestView {
        self.deep_view()
    }
}

impl Digest {
    /// The schema passed to the content-extraction service.
    pub fn get_json_schema() -> (r: &'static str)
        ensures
            r@ == JSON_SCHEMA@,
    {
        JSON_SCHEMA
    }
}

/// The detail line of an entry: `" - "` followed by each present field,
/// in the order content, url, discussion url, timestamp, score.
pub open spec fn details_of(e: ContentItemView) -> Seq<char> {
    let r = Seq::<char>::empty();
    let r = if e.content is Some {
        r + " - "@ + e.content->Some_0
    } else {
        r
    };
    let r = if e.url is Some {
        r + " - "@ + e.url->Some_0
    } else {
        r
    };
    let r = if e.discussion_url is Some {
        r + " - "@ + e.discussion_url->Some_0
    } else {
        r
    };
    let r = if e.timestamp is Some {
        r + " - "@ + e.timestamp->Some_0
    } else {
        r
    };
    if e.score is Some {
        r + " - "@ + e.score->Some_0
    } else {
        r
    }
}

impl ContentItem {
    /// The title for display: the literal `"Untitled"` placeholder
    /// stands in where no title is set. Only the display boundary
    /// coerces absence like this; the model keeps it distinct.
    pub fn display_title(&self) -> (r: String)
        ensures
            self@.title matches Some(t) ==> r@ == t,
            self@.title is None ==> r@ == "Untitled"@,
    {
        match &self.title {
            Some(t) => t.clone(),
            None => String::from_str("Untitled"),
        }
    }

    /// Joins the present detail fields for display.
    pub fn to_details_string(&self) -> (r: String)
        ensures
            r@ == details_of(self@),
    {
        let mut result = String::new();
        if let Some(content) = &self.content {
            result.append(" - ");
            result.append(content.as_str());
        }
        if let Some(url) = &self.url {
            result.append(" - ");
            result.append(url.as_str());
        }
        if let Some(discussion_url) = &self.discussion_url {
            result.append(" - ");
            result.append(discussion_url.as_str());
        }
        if let Some(timestamp) = &self.timestamp {
            result.append(" - ");
            result.append(timestamp.as_str());
        }
        if let Some(score) = &self.score {
            result.append(" - ");
            result.append(score.as_str());
        }
        result
    }
}

} // verus!
