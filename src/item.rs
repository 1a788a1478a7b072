use vstd::prelude::*;

use crate::content::{decode_content, encode_content, Content, ContentV};
use crate::error::{result_matches, Error, ErrorV};
use crate::feed::{
    attachment_dec, attachment_enc, attachment_list_json, attachment_list_view, author_dec, author_enc,
    author_list_view, lemma_attachment_round_trip, lemma_author_round_trip, opt_attachment_list, opt_author,
    opt_author_list, opt_author_of, author_list_json, Attachment, AttachmentV, Author, AuthorV,
};
use crate::json::{
    array_json, collect_fields, distinct, emit, emit_object, entries_view, fields_of, json_view,
    key_views, lemma_array_view, lemma_fields_of_emit, lemma_list_err_stays, lemma_object_view,
    lemma_opt_list_round_trip, list_of, list_slot, object_json, opt_json_view, opt_list_of,
    opt_ref_view, opt_str, opt_str_list, opt_str_of, opt_str_view, push_field, req_str, req_str_of,
    slot, str_elem, str_json, str_json_view, str_list_view, str_slot, Json, JsonV, lemma_absent_key_empty,
    lemma_emit_keys, object_entries, lemma_repeated_key_fails,
};

verus! {

/// One entry of a feed.
#[derive(Debug, Clone, PartialEq)]
pub struct Item {
    /// Identifier, unique within its feed.
    pub id: String,
    pub language: Option<String>,
    pub url: Option<String>,
    pub external_url: Option<String>,
    pub title: Option<String>,
    /// The body: HTML, text, or both.
    pub content: Content,
    pub summary: Option<String>,
    pub image: Option<String>,
    pub banner_image: Option<String>,
    pub date_published: Option<String>,
    pub date_modified: Option<String>,
    pub authors: Option<Vec<Author>>,
    pub tags: Option<Vec<String>>,
    pub attachments: Option<Vec<Attachment>>,
}

/// Mathematical model of [`Item`].
pub struct ItemV {
    pub id: Seq<char>,
    pub language: Option<Seq<char>>,
    pub url: Option<Seq<char>>,
    pub external_url: Option<Seq<char>>,
    pub title: Option<Seq<char>>,
    pub content: ContentV,
    pub summary: Option<Seq<char>>,
    pub image: Option<Seq<char>>,
    pub banner_image: Option<Seq<char>>,
    pub date_published: Option<Seq<char>>,
    pub date_modified: Option<Seq<char>>,
    pub authors: Option<Seq<AuthorV>>,
    pub tags: Option<Seq<Seq<char>>>,
    pub attachments: Option<Seq<AttachmentV>>,
}

impl View for Item {
    type V = ItemV;

    open spec fn view(&self) -> ItemV {
        ItemV {
            id: self.id@,
            language: opt_str_view(self.language),
            url: opt_str_view(self.url),
            external_url: opt_str_view(self.external_url),
            title: opt_str_view(self.title),
            content: self.content@,
            summary: opt_str_view(self.summary),
            image: opt_str_view(self.image),
            banner_image: opt_str_view(self.banner_image),
            date_published: opt_str_view(self.date_published),
            date_modified: opt_str_view(self.date_modified),
            authors: author_list_view(self.authors),
            tags: str_list_view(self.tags),
            attachments: attachment_list_view(self.attachments),
        }
    }
}

/// The keys of an item, in the order they are written. The singular
/// `author` is read for older documents and never written.
pub open spec fn item_keys() -> Seq<Seq<char>> {
    seq!["id"@, "language"@, "url"@, "external_url"@, "title"@, "content_html"@, "content_text"@, "summary"@, "image"@, "banner_image"@, "date_published"@, "date_modified"@, "author"@, "authors"@, "tags"@, "attachments"@]
}

/// The slot values written for an item, one per key.
pub open spec fn item_slots(x: ItemV) -> Seq<Option<JsonV>> {
    seq![
        Some(JsonV::Str(x.id)),
        str_slot(x.language),
        str_slot(x.url),
        str_slot(x.external_url),
        str_slot(x.title),
        str_slot(encode_content(x.content).0),
        str_slot(encode_content(x.content).1),
        str_slot(x.summary),
        str_slot(x.image),
        str_slot(x.banner_image),
        str_slot(x.date_published),
        str_slot(x.date_modified),
        None,
        list_slot(x.authors, author_enc()),
        list_slot(x.tags, |s: Seq<char>| str_json_view(s)),
        list_slot(x.attachments, attachment_enc()),
    ]
}

/// The object written for an item.
pub open spec fn encode_item(x: ItemV) -> JsonV {
    emit_object(item_keys(), item_slots(x))
}

/// The authors of an item: the `authors` list, or else a list of the one
/// legacy `author`.
pub open spec fn merge_authors(authors: Option<Seq<AuthorV>>, author: Option<AuthorV>) -> Option<Seq<AuthorV>> {
    match authors {
        Some(xs) => Some(xs),
        None => match author {
            Some(a) => Some(seq![a]),
            None => None,
        },
    }
}

/// The item given by its slots: each field is read in key order, the first
/// bad one fails; then the content must be present.
pub open spec fn item_from_slots(v: Seq<Option<JsonV>>) -> Result<ItemV, ErrorV> {
    let id = req_str_of(v[0], "id"@);
    let language = opt_str_of(v[1], "language"@);
    let url = opt_str_of(v[2], "url"@);
    let external_url = opt_str_of(v[3], "external_url"@);
    let title = opt_str_of(v[4], "title"@);
    let content_html = opt_str_of(v[5], "content_html"@);
    let content_text = opt_str_of(v[6], "content_text"@);
    let summary = opt_str_of(v[7], "summary"@);
    let image = opt_str_of(v[8], "image"@);
    let banner_image = opt_str_of(v[9], "banner_image"@);
    let date_published = opt_str_of(v[10], "date_published"@);
    let date_modified = opt_str_of(v[11], "date_modified"@);
    let author = opt_author_of(v[12], "author"@);
    let authors = opt_list_of(v[13], "authors"@, author_dec());
    let tags = opt_list_of(v[14], "tags"@, str_elem("tags"@));
    let attachments = opt_list_of(v[15], "attachments"@, attachment_dec());
    if id is Err {
        Err(id->Err_0)
    } else if language is Err {
        Err(language->Err_0)
    } else if url is Err {
        Err(url->Err_0)
    } else if external_url is Err {
        Err(external_url->Err_0)
    } else if title is Err {
        Err(title->Err_0)
    } else if content_html is Err {
        Err(content_html->Err_0)
    } else if content_text is Err {
        Err(content_text->Err_0)
    } else if summary is Err {
        Err(summary->Err_0)
    } else if image is Err {
        Err(image->Err_0)
    } else if banner_image is Err {
        Err(banner_image->Err_0)
    } else if date_published is Err {
        Err(date_published->Err_0)
    } else if date_modified is Err {
        Err(date_modified->Err_0)
    } else if author is Err {
        Err(author->Err_0)
    } else if authors is Err {
        Err(authors->Err_0)
    } else if tags is Err {
        Err(tags->Err_0)
    } else if attachments is Err {
        Err(attachments->Err_0)
    } else {
        match decode_content(content_html->Ok_0, content_text->Ok_0) {
            Err(e) => Err(e),
            Ok(content) => Ok(
                ItemV {
                    id: id->Ok_0,
                    language: language->Ok_0,
                    url: url->Ok_0,
                    external_url: external_url->Ok_0,
                    title: title->Ok_0,
                    content,
                    summary: summary->Ok_0,
                    image: image->Ok_0,
                    banner_image: banner_image->Ok_0,
                    date_published: date_published->Ok_0,
                    date_modified: date_modified->Ok_0,
                    authors: merge_authors(authors->Ok_0, author->Ok_0),
                    tags: tags->Ok_0,
                    attachments: attachments->Ok_0,
                },
            ),
        }
    }
}

/// The item read from a JSON value.
pub open spec fn decode_item(j: JsonV) -> Result<ItemV, ErrorV> {
    match j {
        JsonV::Object(obj) => match fields_of(obj, item_keys()) {
            Ok(v) => item_from_slots(v),
            Err(e) => Err(e),
        },
        _ => Err(ErrorV::ExpectedObject),
    }
}

pub open spec fn item_enc() -> spec_fn(ItemV) -> JsonV {
    |x: ItemV| encode_item(x)
}

pub open spec fn item_dec() -> spec_fn(JsonV) -> Result<ItemV, ErrorV> {
    |j: JsonV| decode_item(j)
}

pub proof fn lemma_item_keys()
    ensures
        distinct(item_keys()),
{
    reveal_strlit("id");
    reveal_strlit("language");
    reveal_strlit("url");
    reveal_strlit("external_url");
    reveal_strlit("title");
    reveal_strlit("content_html");
    reveal_strlit("content_text");
    reveal_strlit("summary");
    reveal_strlit("image");
    reveal_strlit("banner_image");
    reveal_strlit("date_published");
    reveal_strlit("date_modified");
    reveal_strlit("author");
    reveal_strlit("authors");
    reveal_strlit("tags");
    reveal_strlit("attachments");
    let k = item_keys();
    assert(k[0].len() != k[1].len());
    assert(k[0].len() != k[2].len());
    assert(k[0].len() != k[3].len());
    assert(k[0].len() != k[4].len());
    assert(k[0].len() != k[5].len());
    assert(k[0].len() != k[6].len());
    assert(k[0].len() != k[7].len());
    assert(k[0].len() != k[8].len());
    assert(k[0].len() != k[9].len());
    assert(k[0].len() != k[10].len());
    assert(k[0].len() != k[11].len());
    assert(k[0].len() != k[12].len());
    assert(k[0].len() != k[13].len());
    assert(k[0].len() != k[14].len());
    assert(k[0].len() != k[15].len());
    assert(k[1].len() != k[2].len());
    assert(k[1].len() != k[3].len());
    assert(k[1].len() != k[4].len());
    assert(k[1].len() != k[5].len());
    assert(k[1].len() != k[6].len());
    assert(k[1].len() != k[7].len());
    assert(k[1].len() != k[8].len());
    assert(k[1].len() != k[9].len());
    assert(k[1].len() != k[10].len());
    assert(k[1].len() != k[11].len());
    assert(k[1].len() != k[12].len());
    assert(k[1].len() != k[13].len());
    assert(k[1].len() != k[14].len());
    assert(k[1].len() != k[15].len());
    assert(k[2].len() != k[3].len());
    assert(k[2].len() != k[4].len());
    assert(k[2].len() != k[5].len());
    assert(k[2].len() != k[6].len());
    assert(k[2].len() != k[7].len());
    assert(k[2].len() != k[8].len());
    assert(k[2].len() != k[9].len());
    assert(k[2].len() != k[10].len());
    assert(k[2].len() != k[11].len());
    assert(k[2].len() != k[12].len());
    assert(k[2].len() != k[13].len());
    assert(k[2].len() != k[14].len());
    assert(k[2].len() != k[15].len());
    assert(k[3].len() != k[4].len());
    assert(k[3][0] != k[5][0]);
    assert(k[3][0] != k[6][0]);
    assert(k[3].len() != k[7].len());
    assert(k[3].len() != k[8].len());
    assert(k[3][0] != k[9][0]);
    assert(k[3].len() != k[10].len());
    assert(k[3].len() != k[11].len());
    assert(k[3].len() != k[12].len());
    assert(k[3].len() != k[13].len());
    assert(k[3].len() != k[14].len());
    assert(k[3].len() != k[15].len());
    assert(k[4].len() != k[5].len());
    assert(k[4].len() != k[6].len());
    assert(k[4].len() != k[7].len());
    assert(k[4][0] != k[8][0]);
    assert(k[4].len() != k[9].len());
    assert(k[4].len() != k[10].len());
    assert(k[4].len() != k[11].len());
    assert(k[4].len() != k[12].len());
    assert(k[4].len() != k[13].len());
    assert(k[4].len() != k[14].len());
    assert(k[4].len() != k[15].len());
    assert(k[5][8] != k[6][8]);
    assert(k[5].len() != k[7].len());
    assert(k[5].len() != k[8].len());
    assert(k[5][0] != k[9][0]);
    assert(k[5].len() != k[10].len());
    assert(k[5].len() != k[11].len());
    assert(k[5].len() != k[12].len());
    assert(k[5].len() != k[13].len());
    assert(k[5].len() != k[14].len());
    assert(k[5].len() != k[15].len());
    assert(k[6].len() != k[7].len());
    assert(k[6].len() != k[8].len());
    assert(k[6][0] != k[9][0]);
    assert(k[6].len() != k[10].len());
    assert(k[6].len() != k[11].len());
    assert(k[6].len() != k[12].len());
    assert(k[6].len() != k[13].len());
    assert(k[6].len() != k[14].len());
    assert(k[6].len() != k[15].len());
    assert(k[7].len() != k[8].len());
    assert(k[7].len() != k[9].len());
    assert(k[7].len() != k[10].len());
    assert(k[7].len() != k[11].len());
    assert(k[7].len() != k[12].len());
    assert(k[7][0] != k[13][0]);
    assert(k[7].len() != k[14].len());
    assert(k[7].len() != k[15].len());
    assert(k[8].len() != k[9].len());
    assert(k[8].len() != k[10].len());
    assert(k[8].len() != k[11].len());
    assert(k[8].len() != k[12].len());
    assert(k[8].len() != k[13].len());
    assert(k[8].len() != k[14].len());
    assert(k[8].len() != k[15].len());
    assert(k[9].len() != k[10].len());
    assert(k[9].len() != k[11].len());
    assert(k[9].len() != k[12].len());
    assert(k[9].len() != k[13].len());
    assert(k[9].len() != k[14].len());
    assert(k[9].len() != k[15].len());
    assert(k[10].len() != k[11].len());
    assert(k[10].len() != k[12].len());
    assert(k[10].len() != k[13].len());
    assert(k[10].len() != k[14].len());
    assert(k[10].len() != k[15].len());
    assert(k[11].len() != k[12].len());
    assert(k[11].len() != k[13].len());
    assert(k[11].len() != k[14].len());
    assert(k[11].len() != k[15].len());
    assert(k[12].len() != k[13].len());
    assert(k[12].len() != k[14].len());
    assert(k[12].len() != k[15].len());
    assert(k[13].len() != k[14].len());
    assert(k[13].len() != k[15].len());
    assert(k[14].len() != k[15].len());
    assert forall|i: int, j: int| 0 <= i < 16 && 0 <= j < 16 && i != j implies #[trigger] k[i] != #[trigger] k[j] by {
        assert(i == 0 || i == 1 || i == 2 || i == 3 || i == 4 || i == 5 || i == 6 || i == 7 || i == 8 || i == 9 || i == 10 || i == 11 || i == 12 || i == 13 || i == 14 || i == 15);
        assert(j == 0 || j == 1 || j == 2 || j == 3 || j == 4 || j == 5 || j == 6 || j == 7 || j == 8 || j == 9 || j == 10 || j == 11 || j == 12 || j == 13 || j == 14 || j == 15);
    }
}

fn item_key_list() -> (r: Vec<String>)
    ensures
        key_views(r@) == item_keys(),
        distinct(key_views(r@)),
{
    let r = vec!["id".to_owned(), "language".to_owned(), "url".to_owned(), "external_url".to_owned(), "title".to_owned(), "content_html".to_owned(), "content_text".to_owned(), "summary".to_owned(), "image".to_owned(), "banner_image".to_owned(), "date_published".to_owned(), "date_modified".to_owned(), "author".to_owned(), "authors".to_owned(), "tags".to_owned(), "attachments".to_owned()];
    proof {
        assert(key_views(r@) =~= item_keys());
        lemma_item_keys();
    }
    r
}

impl Item {
    /// Writes the item as a JSON object, in key order; unset fields are left
    /// out, and the content gives `content_html`, `content_text` or both.
    pub fn to_json(&self) -> (r: Json)
        ensures
            r@ == encode_item(self@),
    {
        let ghost keys = item_keys();
        let ghost vals = item_slots(self@);
        let (html, text) = self.content.encode();
        let mut e: Vec<(String, Json)> = Vec::new();
        assert(entries_view(e@) =~= emit(keys, vals, 0));
        push_field(&mut e, "id", Some(Json::Str(self.id.clone())), Ghost(keys), Ghost(vals), Ghost(0));
        push_field(&mut e, "language", str_json(&self.language), Ghost(keys), Ghost(vals), Ghost(1));
        push_field(&mut e, "url", str_json(&self.url), Ghost(keys), Ghost(vals), Ghost(2));
        push_field(&mut e, "external_url", str_json(&self.external_url), Ghost(keys), Ghost(vals), Ghost(3));
        push_field(&mut e, "title", str_json(&self.title), Ghost(keys), Ghost(vals), Ghost(4));
        push_field(&mut e, "content_html", str_json(&html), Ghost(keys), Ghost(vals), Ghost(5));
        push_field(&mut e, "content_text", str_json(&text), Ghost(keys), Ghost(vals), Ghost(6));
        push_field(&mut e, "summary", str_json(&self.summary), Ghost(keys), Ghost(vals), Ghost(7));
        push_field(&mut e, "image", str_json(&self.image), Ghost(keys), Ghost(vals), Ghost(8));
        push_field(&mut e, "banner_image", str_json(&self.banner_image), Ghost(keys), Ghost(vals), Ghost(9));
        push_field(&mut e, "date_published", str_json(&self.date_published), Ghost(keys), Ghost(vals), Ghost(10));
        push_field(&mut e, "date_modified", str_json(&self.date_modified), Ghost(keys), Ghost(vals), Ghost(11));
        push_field(&mut e, "author", None, Ghost(keys), Ghost(vals), Ghost(12));
        push_field(&mut e, "authors", author_list_json(&self.authors), Ghost(keys), Ghost(vals), Ghost(13));
        push_field(&mut e, "tags", crate::json::str_list_json(&self.tags), Ghost(keys), Ghost(vals), Ghost(14));
        push_field(&mut e, "attachments", attachment_list_json(&self.attachments), Ghost(keys), Ghost(vals), Ghost(15));
        object_json(e)
    }

    /// Reads an item from a JSON object. Unknown and repeated keys are
    /// refused; `id` is required, and so is one of the two content fields.
    #[verifier::rlimit(100)]
    pub fn from_json(j: &Json) -> (r: Result<Item, Error>)
        ensures
            result_matches(r, decode_item(j@)),
    {
        let entries = match j {
            Json::Object(entries) => entries,
            _ => {
                return Err(Error::ExpectedObject);
            },
        };
        proof {
            lemma_object_view(*entries);
        }
        let keys = item_key_list();
        let s = match collect_fields(entries, &keys) {
            Ok(s) => s,
            Err(e) => {
                return Err(e);
            },
        };
        let ghost vals = fields_of(entries_view(entries@), item_keys())->Ok_0;
        let id = match req_str(slot(entries, &s, 0, Ghost(vals)), "id") {
            Ok(x) => x,
            Err(e) => {
                return Err(e);
            },
        };
        let language = match opt_str(slot(entries, &s, 1, Ghost(vals)), "language") {
            Ok(x) => x,
            Err(e) => {
                return Err(e);
            },
        };
        let url = match opt_str(slot(entries, &s, 2, Ghost(vals)), "url") {
            Ok(x) => x,
            Err(e) => {
                return Err(e);
            },
        };
        let external_url = match opt_str(slot(entries, &s, 3, Ghost(vals)), "external_url") {
            Ok(x) => x,
            Err(e) => {
                return Err(e);
            },
        };
        let title = match opt_str(slot(entries, &s, 4, Ghost(vals)), "title") {
            Ok(x) => x,
            Err(e) => {
                return Err(e);
            },
        };
        let content_html = match opt_str(slot(entries, &s, 5, Ghost(vals)), "content_html") {
            Ok(x) => x,
            Err(e) => {
                return Err(e);
            },
        };
        let content_text = match opt_str(slot(entries, &s, 6, Ghost(vals)), "content_text") {
            Ok(x) => x,
            Err(e) => {
                return Err(e);
            },
        };
        let summary = match opt_str(slot(entries, &s, 7, Ghost(vals)), "summary") {
            Ok(x) => x,
            Err(e) => {
                return Err(e);
            },
        };
        let image = match opt_str(slot(entries, &s, 8, Ghost(vals)), "image") {
            Ok(x) => x,
            Err(e) => {
                return Err(e);
            },
        };
        let banner_image = match opt_str(slot(entries, &s, 9, Ghost(vals)), "banner_image") {
            Ok(x) => x,
            Err(e) => {
                return Err(e);
            },
        };
        let date_published = match opt_str(slot(entries, &s, 10, Ghost(vals)), "date_published") {
            Ok(x) => x,
            Err(e) => {
                return Err(e);
            },
        };
        let date_modified = match opt_str(slot(entries, &s, 11, Ghost(vals)), "date_modified") {
            Ok(x) => x,
            Err(e) => {
                return Err(e);
            },
        };
        let author = match opt_author(slot(entries, &s, 12, Ghost(vals)), "author") {
            Ok(x) => x,
            Err(e) => {
                return Err(e);
            },
        };
        let authors = match opt_author_list(slot(entries, &s, 13, Ghost(vals)), "authors") {
            Ok(x) => x,
            Err(e) => {
                return Err(e);
            },
        };
        let tags = match opt_str_list(slot(entries, &s, 14, Ghost(vals)), "tags") {
            Ok(x) => x,
            Err(e) => {
                return Err(e);
            },
        };
        let attachments = match opt_attachment_list(slot(entries, &s, 15, Ghost(vals)), "attachments") {
            Ok(x) => x,
            Err(e) => {
                return Err(e);
            },
        };
        let content = match Content::decode(content_html, content_text) {
            Ok(x) => x,
            Err(e) => {
                return Err(e);
            },
        };
        let authors = match authors {
            Some(xs) => Some(xs),
            None => match author {
                Some(a) => {
                    let ghost av = a@;
                    let v = vec![a];
                    assert(v@.map_values(|x: Author| x@) =~= seq![av]);
                    Some(v)
                },
                None => None,
            },
        };
        Ok(
            Item {
                id,
                language,
                url,
                external_url,
                title,
                content,
                summary,
                image,
                banner_image,
                date_published,
                date_modified,
                authors,
                tags,
                attachments,
            },
        )
    }
}

/// Every item reads back as it was written.
#[verifier::rlimit(100)]
pub proof fn lemma_item_round_trip(x: ItemV)
    ensures
        decode_item(encode_item(x)) == Ok::<ItemV, ErrorV>(x),
{
    lemma_item_keys();
    lemma_fields_of_emit(item_keys(), item_slots(x));
    if let Some(xs) = x.authors {
        assert forall|i: int| 0 <= i < xs.len() implies author_dec()(author_enc()(#[trigger] xs[i])) == Ok::<AuthorV, ErrorV>(xs[i]) by {
            lemma_author_round_trip(xs[i]);
        }
    }
    lemma_opt_list_round_trip(x.authors, "authors"@, author_enc(), author_dec());
    lemma_opt_list_round_trip(x.tags, "tags"@, |s: Seq<char>| str_json_view(s), str_elem("tags"@));
    if let Some(xs) = x.attachments {
        assert forall|i: int| 0 <= i < xs.len() implies attachment_dec()(attachment_enc()(#[trigger] xs[i])) == Ok::<AttachmentV, ErrorV>(xs[i]) by {
            lemma_attachment_round_trip(xs[i]);
        }
    }
    lemma_opt_list_round_trip(x.attachments, "attachments"@, attachment_enc(), attachment_dec());
}

/// The array written for a list of items.
pub fn item_array(v: &Vec<Item>) -> (r: Json)
    ensures
        r@ == JsonV::Array(v@.map_values(|x: Item| x@).map_values(item_enc())),
{
    let mut out: Vec<Json> = Vec::new();
    let mut i: usize = 0;
    while i < v.len()
        invariant
            i <= v@.len(),
            out@.len() == i,
            forall|k: int| 0 <= k < i ==> json_view(#[trigger] out@[k]) == encode_item(v@[k]@),
        decreases v@.len() - i,
    {
        out.push(v[i].to_json());
        i += 1;
    }
    let r = array_json(out);
    assert(out@.map_values(|j: Json| json_view(j)) =~= v@.map_values(|x: Item| x@).map_values(item_enc()));
    r
}

/// Reads the elements of an array as items.
pub fn item_elements(xs: &Vec<Json>) -> (r: Result<Vec<Item>, Error>)
    ensures
        match (r, list_of(xs@.map_values(|j: Json| json_view(j)), item_dec(), xs@.len())) {
            (Ok(a), Ok(b)) => a@.map_values(|x: Item| x@) == b,
            (Err(e), Err(g)) => e@ == g,
            _ => false,
        },
{
    let ghost xv = xs@.map_values(|j: Json| json_view(j));
    let mut out: Vec<Item> = Vec::new();
    assert(out@.map_values(|x: Item| x@) =~= Seq::<ItemV>::empty());
    let mut i: usize = 0;
    while i < xs.len()
        invariant
            i <= xs@.len(),
            xv == xs@.map_values(|j: Json| json_view(j)),
            list_of(xv, item_dec(), i as nat) == Ok::<_, ErrorV>(out@.map_values(|x: Item| x@)),
        decreases xs@.len() - i,
    {
        match Item::from_json(&xs[i]) {
            Ok(x) => {
                out.push(x);
                assert(out@.map_values(|x: Item| x@) =~= list_of(xv, item_dec(), i as nat)->Ok_0.push(x@));
            },
            Err(e) => {
                proof {
                    lemma_list_err_stays(xv, item_dec(), (i + 1) as nat, xv.len());
                }
                return Err(e);
            },
        }
        i += 1;
    }
    Ok(out)
}

/// A key may occur only once in an item: an object that repeats one, `id`
/// for instance, does not decode.
pub proof fn lemma_item_repeated_key(obj: Seq<(Seq<char>, JsonV)>, a: int, b: int)
    requires
        0 <= a < b < obj.len(),
        obj[a].0 == obj[b].0,
    ensures
        decode_item(JsonV::Object(obj)) is Err,
{
    lemma_repeated_key_fails(obj, item_keys(), a, b);
}

/// An item object with neither `content_html` nor `content_text` does not
/// decode.
pub proof fn lemma_item_content_required(obj: Seq<(Seq<char>, JsonV)>)
    requires
        forall|i: int| 0 <= i < obj.len() ==> obj[i].0 != "content_html"@ && obj[i].0 != "content_text"@,
    ensures
        decode_item(JsonV::Object(obj)) is Err,
{
    if fields_of(obj, item_keys()) is Ok {
        lemma_absent_key_empty(obj, item_keys(), 5);
        lemma_absent_key_empty(obj, item_keys(), 6);
    }
}

/// Writing an item leaves out the key of every unset field, and writes the
/// key of every set field with its value: for each key `item_keys()[p]`, the
/// object holds it exactly when the field's slot is filled.
pub proof fn lemma_item_omission(x: ItemV, p: int)
    requires
        0 <= p < item_keys().len(),
    ensures
        encode_item(x) is Object,
        item_slots(x)[p] is None ==> (forall|i: int|
            0 <= i < object_entries(encode_item(x)).len() ==> (#[trigger] object_entries(encode_item(x))[i]).0
                != item_keys()[p]),
        item_slots(x)[p] is Some ==> (exists|i: int|
            0 <= i < object_entries(encode_item(x)).len() && object_entries(encode_item(x))[i] == (
                item_keys()[p],
                item_slots(x)[p]->0,
            )),
{
    lemma_item_keys();
    lemma_emit_keys(item_keys(), item_slots(x), p);
    let e = emit(item_keys(), item_slots(x), item_keys().len());
    assert(object_entries(encode_item(x)) == e);
    if item_slots(x)[p] is Some {
        let i = choose|i: int| 0 <= i < e.len() && e[i] == (item_keys()[p], item_slots(x)[p]->0);
        assert(object_entries(encode_item(x))[i] == (item_keys()[p], item_slots(x)[p]->0));
    }
}

} // verus!
