use vstd::prelude::*;

use crate::error::{Error, ErrorV};
use crate::json::opt_str_view;

verus! {

/// The body of an item: HTML, plain text, or both.
#[derive(Debug, Clone, PartialEq)]
pub enum Content {
    Html(String),
    Text(String),
    Both(String, String),
}

/// Mathematical model of [`Content`].
pub enum ContentV {
    Html(Seq<char>),
    Text(Seq<char>),
    Both(Seq<char>, Seq<char>),
}

impl View for Content {
    type V = ContentV;

    open spec fn view(&self) -> ContentV {
        match self {
            Content::Html(h) => ContentV::Html(h@),
            Content::Text(t) => ContentV::Text(t@),
            Content::Both(h, t) => ContentV::Both(h@, t@),
        }
    }
}

/// The name reported when an item has neither content field.
pub open spec fn content_fields() -> Seq<char> {
    "content_html or content_text"@
}

/// The two wire fields, `content_html` and `content_text`, of a content.
pub open spec fn encode_content(c: ContentV) -> (Option<Seq<char>>, Option<Seq<char>>) {
    match c {
        ContentV::Html(h) => (Some(h), None),
        ContentV::Text(t) => (None, Some(t)),
        ContentV::Both(h, t) => (Some(h), Some(t)),
    }
}

/// The content given by the two wire fields; at least one must be present.
pub open spec fn decode_content(html: Option<Seq<char>>, text: Option<Seq<char>>) -> Result<ContentV, ErrorV> {
    match (html, text) {
        (Some(h), Some(t)) => Ok(ContentV::Both(h, t)),
        (Some(h), None) => Ok(ContentV::Html(h)),
        (None, Some(t)) => Ok(ContentV::Text(t)),
        (None, None) => Err(ErrorV::MissingField(content_fields())),
    }
}

impl Content {
    /// Splits the content into its `content_html` and `content_text` fields.
    pub fn encode(&self) -> (r: (Option<String>, Option<String>))
        ensures
            (opt_str_view(r.0), opt_str_view(r.1)) == encode_content(self@),
    {
        match self {
            Content::Html(h) => (Some(h.clone()), None),
            Content::Text(t) => (None, Some(t.clone())),
            Content::Both(h, t) => (Some(h.clone()), Some(t.clone())),
        }
    }

    /// Joins the `content_html` and `content_text` fields into a content.
    pub fn decode(html: Option<String>, text: Option<String>) -> (r: Result<Content, Error>)
        ensures
            crate::error::result_matches(r, decode_content(opt_str_view(html), opt_str_view(text))),
    {
        match (html, text) {
            (Some(h), Some(t)) => Ok(Content::Both(h, t)),
            (Some(h), None) => Ok(Content::Html(h)),
            (None, Some(t)) => Ok(Content::Text(t)),
            (None, None) => Err(Error::MissingField("content_html or content_text".to_owned())),
        }
    }

    /// The HTML body, if any.
    pub fn html(&self) -> (r: Option<&String>)
        ensures
            match r {
                Some(h) => encode_content(self@).0 == Some(h@),
                None => encode_content(self@).0 is None,
            },
    {
        match self {
            Content::Html(h) => Some(h),
            Content::Text(_) => None,
            Content::Both(h, _) => Some(h),
        }
    }

    /// The plain-text body, if any.
    pub fn text(&self) -> (r: Option<&String>)
        ensures
            match r {
                Some(t) => encode_content(self@).1 == Some(t@),
                None => encode_content(self@).1 is None,
            },
    {
        match self {
            Content::Html(_) => None,
            Content::Text(t) => Some(t),
            Content::Both(_, t) => Some(t),
        }
    }
}

/// Splitting a content into its two fields and joining them again gives the
/// same content, for each of the three kinds.
pub proof fn lemma_content_round_trip(c: ContentV)
    ensures
        decode_content(encode_content(c).0, encode_content(c).1) == Ok::<ContentV, ErrorV>(c),
{
}

/// With neither field present there is no content: decoding reports the
/// missing field.
pub proof fn lemma_content_required()
    ensures
        decode_content(None, None) == Err::<ContentV, ErrorV>(ErrorV::MissingField(content_fields())),
{
}

} // verus!
