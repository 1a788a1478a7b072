use vstd::prelude::*;

use crate::error::{result_matches, Error, ErrorV};
use crate::json::{
    array_json, collect_fields, distinct, emit, emit_object, entries_view, fields_of, json_view,
    key_views, lemma_array_view, lemma_fields_of_emit, lemma_list_err_stays, lemma_object_view,
    lemma_opt_list_round_trip, list_of, list_slot, object_json, opt_json_view, opt_list_of,
    opt_ref_view, opt_str, opt_str_of, opt_str_view, push_field, req_num, req_num_of, req_str,
    req_str_of, slot, str_json, str_slot, Json, JsonV, bool_json, bool_slot, opt_bool, opt_bool_of,
    dlist_of, lemma_list_round_trip, lemma_emit_keys, object_entries, lemma_repeated_key_fails,
};
use crate::item::{item_array, item_dec, item_elements, item_enc, lemma_item_round_trip, Item, ItemV};
use crate::builder::Builder;

verus! {

/// The author of a feed or of an item.
#[derive(Debug, Clone, PartialEq)]
pub struct Author {
    /// Display name.
    pub name: Option<String>,
    /// Home page.
    pub url: Option<String>,
    /// Avatar image.
    pub avatar: Option<String>,
}

/// Mathematical model of [`Author`].
pub struct AuthorV {
    pub name: Option<Seq<char>>,
    pub url: Option<Seq<char>>,
    pub avatar: Option<Seq<char>>,
}

impl View for Author {
    type V = AuthorV;

    open spec fn view(&self) -> AuthorV {
        AuthorV {
            name: opt_str_view(self.name),
            url: opt_str_view(self.url),
            avatar: opt_str_view(self.avatar),
        }
    }
}

pub open spec fn author_keys() -> Seq<Seq<char>> {
    seq!["name"@, "url"@, "avatar"@]
}

pub open spec fn author_slots(x: AuthorV) -> Seq<Option<JsonV>> {
    seq![str_slot(x.name), str_slot(x.url), str_slot(x.avatar)]
}

/// The object written for an author.
pub open spec fn encode_author(x: AuthorV) -> JsonV {
    emit_object(author_keys(), author_slots(x))
}

pub open spec fn author_from_slots(v: Seq<Option<JsonV>>) -> Result<AuthorV, ErrorV> {
    let name = opt_str_of(v[0], "name"@);
    let url = opt_str_of(v[1], "url"@);
    let avatar = opt_str_of(v[2], "avatar"@);
    if name is Err {
        Err(name->Err_0)
    } else if url is Err {
        Err(url->Err_0)
    } else if avatar is Err {
        Err(avatar->Err_0)
    } else {
        Ok(AuthorV { name: name->Ok_0, url: url->Ok_0, avatar: avatar->Ok_0 })
    }
}

/// The author read from a JSON value.
pub open spec fn decode_author(j: JsonV) -> Result<AuthorV, ErrorV> {
    match j {
        JsonV::Object(obj) => match fields_of(obj, author_keys()) {
            Ok(v) => author_from_slots(v),
            Err(e) => Err(e),
        },
        _ => Err(ErrorV::ExpectedObject),
    }
}

pub open spec fn author_enc() -> spec_fn(AuthorV) -> JsonV {
    |x: AuthorV| encode_author(x)
}

pub open spec fn author_dec() -> spec_fn(JsonV) -> Result<AuthorV, ErrorV> {
    |j: JsonV| decode_author(j)
}

pub proof fn lemma_author_keys()
    ensures
        distinct(author_keys()),
{
    reveal_strlit("name");
    reveal_strlit("url");
    reveal_strlit("avatar");
    let k = author_keys();
    assert(k[0].len() != k[1].len());
    assert(k[0].len() != k[2].len());
    assert(k[1].len() != k[2].len());
    assert forall|i: int, j: int| 0 <= i < 3 && 0 <= j < 3 && i != j implies #[trigger] k[i] != #[trigger] k[j] by {
        assert(i == 0 || i == 1 || i == 2);
        assert(j == 0 || j == 1 || j == 2);
    }
}

fn author_key_list() -> (r: Vec<String>)
    ensures
        key_views(r@) == author_keys(),
        distinct(key_views(r@)),
{
    let r = vec!["name".to_owned(), "url".to_owned(), "avatar".to_owned()];
    proof {
        assert(key_views(r@) =~= author_keys());
        lemma_author_keys();
    }
    r
}

impl Author {
    /// An author with no field set.
    pub fn new() -> (r: Author)
        ensures
            r@ == (AuthorV { name: None, url: None, avatar: None }),
    {
        Author { name: None, url: None, avatar: None }
    }

    /// Sets the name.
    pub fn name(self, name: &str) -> (r: Author)
        ensures
            r@ == (AuthorV { name: Some(name@), ..self@ }),
    {
        Author { name: Some(name.to_owned()), ..self }
    }

    /// Sets the home page.
    pub fn url(self, url: &str) -> (r: Author)
        ensures
            r@ == (AuthorV { url: Some(url@), ..self@ }),
    {
        Author { url: Some(url.to_owned()), ..self }
    }

    /// Sets the avatar image.
    pub fn avatar(self, avatar: &str) -> (r: Author)
        ensures
            r@ == (AuthorV { avatar: Some(avatar@), ..self@ }),
    {
        Author { avatar: Some(avatar.to_owned()), ..self }
    }

    /// Writes the author as a JSON object, in key order; unset fields are left out.
    pub fn to_json(&self) -> (r: Json)
        ensures
            r@ == encode_author(self@),
    {
        let ghost keys = author_keys();
        let ghost vals = author_slots(self@);
        let mut e: Vec<(String, Json)> = Vec::new();
        assert(entries_view(e@) =~= emit(keys, vals, 0));
        push_field(&mut e, "name", str_json(&self.name), Ghost(keys), Ghost(vals), Ghost(0));
        push_field(&mut e, "url", str_json(&self.url), Ghost(keys), Ghost(vals), Ghost(1));
        push_field(&mut e, "avatar", str_json(&self.avatar), Ghost(keys), Ghost(vals), Ghost(2));
        object_json(e)
    }

    /// Reads an author from a JSON object.
    pub fn from_json(j: &Json) -> (r: Result<Author, Error>)
        ensures
            result_matches(r, decode_author(j@)),
    {
        let entries = match j {
            Json::Object(entries) => entries,
            _ => {
                return Err(Error::ExpectedObject);
            },
        };
        proof {
            lemma_object_view(*entries);
        }
        let keys = author_key_list();
        let s = match collect_fields(entries, &keys) {
            Ok(s) => s,
            Err(e) => {
                return Err(e);
            },
        };
        let ghost vals = fields_of(entries_view(entries@), author_keys())->Ok_0;
        let name = match opt_str(slot(entries, &s, 0, Ghost(vals)), "name") {
            Ok(x) => x,
            Err(e) => {
                return Err(e);
            },
        };
        let url = match opt_str(slot(entries, &s, 1, Ghost(vals)), "url") {
            Ok(x) => x,
            Err(e) => {
                return Err(e);
            },
        };
        let avatar = match opt_str(slot(entries, &s, 2, Ghost(vals)), "avatar") {
            Ok(x) => x,
            Err(e) => {
                return Err(e);
            },
        };
        Ok(Author { name, url, avatar })
    }
}

/// Every author reads back as it was written.
pub proof fn lemma_author_round_trip(x: AuthorV)
    ensures
        decode_author(encode_author(x)) == Ok::<AuthorV, ErrorV>(x),
{
    lemma_author_keys();
    lemma_fields_of_emit(author_keys(), author_slots(x));
}

pub open spec fn opt_author_view(o: Option<Author>) -> Option<AuthorV> {
    match o {
        Some(a) => Some(a@),
        None => None,
    }
}

/// The slot of an optional author field.
pub open spec fn opt_author_slot(o: Option<AuthorV>) -> Option<JsonV> {
    match o {
        Some(a) => Some(encode_author(a)),
        None => None,
    }
}

/// Decoding of an optional author field: absent or `null` is unset.
pub open spec fn opt_author_of(v: Option<JsonV>, key: Seq<char>) -> Result<Option<AuthorV>, ErrorV> {
    match v {
        None => Ok(None),
        Some(JsonV::Null) => Ok(None),
        Some(j) => match decode_author(j) {
            Ok(a) => Ok(Some(a)),
            Err(e) => Err(e),
        },
    }
}

/// The value written for an optional author.
pub fn opt_author_json(o: &Option<Author>) -> (r: Option<Json>)
    ensures
        opt_json_view(r) == opt_author_slot(opt_author_view(*o)),
{
    match o {
        Some(a) => Some(a.to_json()),
        None => None,
    }
}

/// Reads an optional author field.
pub fn opt_author(v: Option<&Json>, key: &str) -> (r: Result<Option<Author>, Error>)
    ensures
        match (r, opt_author_of(opt_ref_view(v), key@)) {
            (Ok(a), Ok(b)) => opt_author_view(a) == b,
            (Err(e), Err(g)) => e@ == g,
            _ => false,
        },
{
    match v {
        None => Ok(None),
        Some(Json::Null) => Ok(None),
        Some(j) => match Author::from_json(j) {
            Ok(a) => Ok(Some(a)),
            Err(e) => Err(e),
        },
    }
}

pub open spec fn author_list_view(o: Option<Vec<Author>>) -> Option<Seq<AuthorV>> {
    match o {
        Some(v) => Some(v@.map_values(|x: Author| x@)),
        None => None,
    }
}

/// The array written for a list of authors.
pub fn author_array(v: &Vec<Author>) -> (r: Json)
    ensures
        r@ == JsonV::Array(v@.map_values(|x: Author| x@).map_values(author_enc())),
{
    let mut out: Vec<Json> = Vec::new();
    let mut i: usize = 0;
    while i < v.len()
        invariant
            i <= v@.len(),
            out@.len() == i,
            forall|k: int| 0 <= k < i ==> json_view(#[trigger] out@[k]) == encode_author(v@[k]@),
        decreases v@.len() - i,
    {
        out.push(v[i].to_json());
        i += 1;
    }
    let r = array_json(out);
    assert(out@.map_values(|j: Json| json_view(j)) =~= v@.map_values(|x: Author| x@).map_values(author_enc()));
    r
}

/// The value written for an optional list of authors.
pub fn author_list_json(o: &Option<Vec<Author>>) -> (r: Option<Json>)
    ensures
        opt_json_view(r) == list_slot(author_list_view(*o), author_enc()),
{
    match o {
        None => None,
        Some(v) => Some(author_array(v)),
    }
}

/// Reads the elements of an array as authors.
pub fn author_elements(xs: &Vec<Json>) -> (r: Result<Vec<Author>, Error>)
    ensures
        match (r, list_of(xs@.map_values(|j: Json| json_view(j)), author_dec(), xs@.len())) {
            (Ok(a), Ok(b)) => a@.map_values(|x: Author| x@) == b,
            (Err(e), Err(g)) => e@ == g,
            _ => false,
        },
{
    let ghost xv = xs@.map_values(|j: Json| json_view(j));
    let mut out: Vec<Author> = Vec::new();
    assert(out@.map_values(|x: Author| x@) =~= Seq::<AuthorV>::empty());
    let mut i: usize = 0;
    while i < xs.len()
        invariant
            i <= xs@.len(),
            xv == xs@.map_values(|j: Json| json_view(j)),
            list_of(xv, author_dec(), i as nat) == Ok::<_, ErrorV>(out@.map_values(|x: Author| x@)),
        decreases xs@.len() - i,
    {
        match Author::from_json(&xs[i]) {
            Ok(x) => {
                out.push(x);
                assert(out@.map_values(|x: Author| x@) =~= list_of(xv, author_dec(), i as nat)->Ok_0.push(x@));
            },
            Err(e) => {
                proof {
                    lemma_list_err_stays(xv, author_dec(), (i + 1) as nat, xv.len());
                }
                return Err(e);
            },
        }
        i += 1;
    }
    Ok(out)
}

/// Reads an optional list of authors.
pub fn opt_author_list(v: Option<&Json>, key: &str) -> (r: Result<Option<Vec<Author>>, Error>)
    ensures
        match (r, opt_list_of(opt_ref_view(v), key@, author_dec())) {
            (Ok(a), Ok(b)) => author_list_view(a) == b,
            (Err(e), Err(g)) => e@ == g,
            _ => false,
        },
{
    let j = match v {
        None => {
            return Ok(None);
        },
        Some(j) => j,
    };
    match j {
        Json::Null => Ok(None),
        Json::Array(xs) => {
            proof {
                lemma_array_view(*xs);
            }
            match author_elements(xs) {
                Ok(a) => Ok(Some(a)),
                Err(e) => Err(e),
            }
        },
        _ => Err(Error::InvalidType(key.to_owned())),
    }
}

/// A hub that pushes updates of the feed.
#[derive(Debug, Clone, PartialEq)]
pub struct Hub {
    /// Protocol of the hub.
    pub type_: String,
    /// Address of the hub.
    pub url: String,
}

/// Mathematical model of [`Hub`].
pub struct HubV {
    pub type_: Seq<char>,
    pub url: Seq<char>,
}

impl View for Hub {
    type V = HubV;

    open spec fn view(&self) -> HubV {
        HubV {
            type_: self.type_@,
            url: self.url@,
        }
    }
}

pub open spec fn hub_keys() -> Seq<Seq<char>> {
    seq!["type"@, "url"@]
}

pub open spec fn hub_slots(x: HubV) -> Seq<Option<JsonV>> {
    seq![Some(JsonV::Str(x.type_)), Some(JsonV::Str(x.url))]
}

/// The object written for a hub.
pub open spec fn encode_hub(x: HubV) -> JsonV {
    emit_object(hub_keys(), hub_slots(x))
}

pub open spec fn hub_from_slots(v: Seq<Option<JsonV>>) -> Result<HubV, ErrorV> {
    let type_ = req_str_of(v[0], "type"@);
    let url = req_str_of(v[1], "url"@);
    if type_ is Err {
        Err(type_->Err_0)
    } else if url is Err {
        Err(url->Err_0)
    } else {
        Ok(HubV { type_: type_->Ok_0, url: url->Ok_0 })
    }
}

/// The hub read from a JSON value.
pub open spec fn decode_hub(j: JsonV) -> Result<HubV, ErrorV> {
    match j {
        JsonV::Object(obj) => match fields_of(obj, hub_keys()) {
            Ok(v) => hub_from_slots(v),
            Err(e) => Err(e),
        },
        _ => Err(ErrorV::ExpectedObject),
    }
}

pub open spec fn hub_enc() -> spec_fn(HubV) -> JsonV {
    |x: HubV| encode_hub(x)
}

pub open spec fn hub_dec() -> spec_fn(JsonV) -> Result<HubV, ErrorV> {
    |j: JsonV| decode_hub(j)
}

pub proof fn lemma_hub_keys()
    ensures
        distinct(hub_keys()),
{
    reveal_strlit("type");
    reveal_strlit("url");
    let k = hub_keys();
    assert(k[0].len() != k[1].len());
    assert forall|i: int, j: int| 0 <= i < 2 && 0 <= j < 2 && i != j implies #[trigger] k[i] != #[trigger] k[j] by {
        assert(i == 0 || i == 1);
        assert(j == 0 || j == 1);
    }
}

fn hub_key_list() -> (r: Vec<String>)
    ensures
        key_views(r@) == hub_keys(),
        distinct(key_views(r@)),
{
    let r = vec!["type".to_owned(), "url".to_owned()];
    proof {
        assert(key_views(r@) =~= hub_keys());
        lemma_hub_keys();
    }
    r
}

impl Hub {

    /// Writes the hub as a JSON object, in key order; unset fields are left out.
    pub fn to_json(&self) -> (r: Json)
        ensures
            r@ == encode_hub(self@),
    {
        let ghost keys = hub_keys();
        let ghost vals = hub_slots(self@);
        let mut e: Vec<(String, Json)> = Vec::new();
        assert(entries_view(e@) =~= emit(keys, vals, 0));
        push_field(&mut e, "type", Some(Json::Str(self.type_.clone())), Ghost(keys), Ghost(vals), Ghost(0));
        push_field(&mut e, "url", Some(Json::Str(self.url.clone())), Ghost(keys), Ghost(vals), Ghost(1));
        object_json(e)
    }

    /// Reads a hub from a JSON object.
    pub fn from_json(j: &Json) -> (r: Result<Hub, Error>)
        ensures
            result_matches(r, decode_hub(j@)),
    {
        let entries = match j {
            Json::Object(entries) => entries,
            _ => {
                return Err(Error::ExpectedObject);
            },
        };
        proof {
            lemma_object_view(*entries);
        }
        let keys = hub_key_list();
        let s = match collect_fields(entries, &keys) {
            Ok(s) => s,
            Err(e) => {
                return Err(e);
            },
        };
        let ghost vals = fields_of(entries_view(entries@), hub_keys())->Ok_0;
        let type_ = match req_str(slot(entries, &s, 0, Ghost(vals)), "type") {
            Ok(x) => x,
            Err(e) => {
                return Err(e);
            },
        };
        let url = match req_str(slot(entries, &s, 1, Ghost(vals)), "url") {
            Ok(x) => x,
            Err(e) => {
                return Err(e);
            },
        };
        Ok(Hub { type_, url })
    }
}

/// Every hub reads back as it was written.
pub proof fn lemma_hub_round_trip(x: HubV)
    ensures
        decode_hub(encode_hub(x)) == Ok::<HubV, ErrorV>(x),
{
    lemma_hub_keys();
    lemma_fields_of_emit(hub_keys(), hub_slots(x));
}

pub open spec fn hub_list_view(o: Option<Vec<Hub>>) -> Option<Seq<HubV>> {
    match o {
        Some(v) => Some(v@.map_values(|x: Hub| x@)),
        None => None,
    }
}

/// The array written for a list of hubs.
pub fn hub_array(v: &Vec<Hub>) -> (r: Json)
    ensures
        r@ == JsonV::Array(v@.map_values(|x: Hub| x@).map_values(hub_enc())),
{
    let mut out: Vec<Json> = Vec::new();
    let mut i: usize = 0;
    while i < v.len()
        invariant
            i <= v@.len(),
            out@.len() == i,
            forall|k: int| 0 <= k < i ==> json_view(#[trigger] out@[k]) == encode_hub(v@[k]@),
        decreases v@.len() - i,
    {
        out.push(v[i].to_json());
        i += 1;
    }
    let r = array_json(out);
    assert(out@.map_values(|j: Json| json_view(j)) =~= v@.map_values(|x: Hub| x@).map_values(hub_enc()));
    r
}

/// The value written for an optional list of hubs.
pub fn hub_list_json(o: &Option<Vec<Hub>>) -> (r: Option<Json>)
    ensures
        opt_json_view(r) == list_slot(hub_list_view(*o), hub_enc()),
{
    match o {
        None => None,
        Some(v) => Some(hub_array(v)),
    }
}

/// Reads the elements of an array as hubs.
pub fn hub_elements(xs: &Vec<Json>) -> (r: Result<Vec<Hub>, Error>)
    ensures
        match (r, list_of(xs@.map_values(|j: Json| json_view(j)), hub_dec(), xs@.len())) {
            (Ok(a), Ok(b)) => a@.map_values(|x: Hub| x@) == b,
            (Err(e), Err(g)) => e@ == g,
            _ => false,
        },
{
    let ghost xv = xs@.map_values(|j: Json| json_view(j));
    let mut out: Vec<Hub> = Vec::new();
    assert(out@.map_values(|x: Hub| x@) =~= Seq::<HubV>::empty());
    let mut i: usize = 0;
    while i < xs.len()
        invariant
            i <= xs@.len(),
            xv == xs@.map_values(|j: Json| json_view(j)),
            list_of(xv, hub_dec(), i as nat) == Ok::<_, ErrorV>(out@.map_values(|x: Hub| x@)),
        decreases xs@.len() - i,
    {
        match Hub::from_json(&xs[i]) {
            Ok(x) => {
                out.push(x);
                assert(out@.map_values(|x: Hub| x@) =~= list_of(xv, hub_dec(), i as nat)->Ok_0.push(x@));
            },
            Err(e) => {
                proof {
                    lemma_list_err_stays(xv, hub_dec(), (i + 1) as nat, xv.len());
                }
                return Err(e);
            },
        }
        i += 1;
    }
    Ok(out)
}

/// Reads an optional list of hubs.
pub fn opt_hub_list(v: Option<&Json>, key: &str) -> (r: Result<Option<Vec<Hub>>, Error>)
    ensures
        match (r, opt_list_of(opt_ref_view(v), key@, hub_dec())) {
            (Ok(a), Ok(b)) => hub_list_view(a) == b,
            (Err(e), Err(g)) => e@ == g,
            _ => false,
        },
{
    let j = match v {
        None => {
            return Ok(None);
        },
        Some(j) => j,
    };
    match j {
        Json::Null => Ok(None),
        Json::Array(xs) => {
            proof {
                lemma_array_view(*xs);
            }
            match hub_elements(xs) {
                Ok(a) => Ok(Some(a)),
                Err(e) => Err(e),
            }
        },
        _ => Err(Error::InvalidType(key.to_owned())),
    }
}

/// A file that goes with an item.
#[derive(Debug, Clone, PartialEq)]
pub struct Attachment {
    /// Address of the file.
    pub url: String,
    /// Type of the file.
    pub mime_type: String,
    /// Name of the file.
    pub title: Option<String>,
    /// Size, as a JSON number literal.
    pub size_in_bytes: String,
    /// Play time, as a JSON number literal.
    pub duration_in_seconds: String,
}

/// Mathematical model of [`Attachment`].
pub struct AttachmentV {
    pub url: Seq<char>,
    pub mime_type: Seq<char>,
    pub title: Option<Seq<char>>,
    pub size_in_bytes: Seq<char>,
    pub duration_in_seconds: Seq<char>,
}

impl View for Attachment {
    type V = AttachmentV;

    open spec fn view(&self) -> AttachmentV {
        AttachmentV {
            url: self.url@,
            mime_type: self.mime_type@,
            title: opt_str_view(self.title),
            size_in_bytes: self.size_in_bytes@,
            duration_in_seconds: self.duration_in_seconds@,
        }
    }
}

pub open spec fn attachment_keys() -> Seq<Seq<char>> {
    seq!["url"@, "mime_type"@, "title"@, "size_in_bytes"@, "duration_in_seconds"@]
}

pub open spec fn attachment_slots(x: AttachmentV) -> Seq<Option<JsonV>> {
    seq![Some(JsonV::Str(x.url)), Some(JsonV::Str(x.mime_type)), str_slot(x.title), Some(JsonV::Number(x.size_in_bytes)), Some(JsonV::Number(x.duration_in_seconds))]
}

/// The object written for an attachment.
pub open spec fn encode_attachment(x: AttachmentV) -> JsonV {
    emit_object(attachment_keys(), attachment_slots(x))
}

pub open spec fn attachment_from_slots(v: Seq<Option<JsonV>>) -> Result<AttachmentV, ErrorV> {
    let url = req_str_of(v[0], "url"@);
    let mime_type = req_str_of(v[1], "mime_type"@);
    let title = opt_str_of(v[2], "title"@);
    let size_in_bytes = req_num_of(v[3], "size_in_bytes"@);
    let duration_in_seconds = req_num_of(v[4], "duration_in_seconds"@);
    if url is Err {
        Err(url->Err_0)
    } else if mime_type is Err {
        Err(mime_type->Err_0)
    } else if title is Err {
        Err(title->Err_0)
    } else if size_in_bytes is Err {
        Err(size_in_bytes->Err_0)
    } else if duration_in_seconds is Err {
        Err(duration_in_seconds->Err_0)
    } else {
        Ok(AttachmentV { url: url->Ok_0, mime_type: mime_type->Ok_0, title: title->Ok_0, size_in_bytes: size_in_bytes->Ok_0, duration_in_seconds: duration_in_seconds->Ok_0 })
    }
}

/// The attachment read from a JSON value.
pub open spec fn decode_attachment(j: JsonV) -> Result<AttachmentV, ErrorV> {
    match j {
        JsonV::Object(obj) => match fields_of(obj, attachment_keys()) {
            Ok(v) => attachment_from_slots(v),
            Err(e) => Err(e),
        },
        _ => Err(ErrorV::ExpectedObject),
    }
}

pub open spec fn attachment_enc() -> spec_fn(AttachmentV) -> JsonV {
    |x: AttachmentV| encode_attachment(x)
}

pub open spec fn attachment_dec() -> spec_fn(JsonV) -> Result<AttachmentV, ErrorV> {
    |j: JsonV| decode_attachment(j)
}

pub proof fn lemma_attachment_keys()
    ensures
        distinct(attachment_keys()),
{
    reveal_strlit("url");
    reveal_strlit("mime_type");
    reveal_strlit("title");
    reveal_strlit("size_in_bytes");
    reveal_strlit("duration_in_seconds");
    let k = attachment_keys();
    assert(k[0].len() != k[1].len());
    assert(k[0].len() != k[2].len());
    assert(k[0].len() != k[3].len());
    assert(k[0].len() != k[4].len());
    assert(k[1].len() != k[2].len());
    assert(k[1].len() != k[3].len());
    assert(k[1].len() != k[4].len());
    assert(k[2].len() != k[3].len());
    assert(k[2].len() != k[4].len());
    assert(k[3].len() != k[4].len());
    assert forall|i: int, j: int| 0 <= i < 5 && 0 <= j < 5 && i != j implies #[trigger] k[i] != #[trigger] k[j] by {
        assert(i == 0 || i == 1 || i == 2 || i == 3 || i == 4);
        assert(j == 0 || j == 1 || j == 2 || j == 3 || j == 4);
    }
}

fn attachment_key_list() -> (r: Vec<String>)
    ensures
        key_views(r@) == attachment_keys(),
        distinct(key_views(r@)),
{
    let r = vec!["url".to_owned(), "mime_type".to_owned(), "title".to_owned(), "size_in_bytes".to_owned(), "duration_in_seconds".to_owned()];
    proof {
        assert(key_views(r@) =~= attachment_keys());
        lemma_attachment_keys();
    }
    r
}

impl Attachment {

    /// Writes the attachment as a JSON object, in key order; unset fields are left out.
    pub fn to_json(&self) -> (r: Json)
        ensures
            r@ == encode_attachment(self@),
    {
        let ghost keys = attachment_keys();
        let ghost vals = attachment_slots(self@);
        let mut e: Vec<(String, Json)> = Vec::new();
        assert(entries_view(e@) =~= emit(keys, vals, 0));
        push_field(&mut e, "url", Some(Json::Str(self.url.clone())), Ghost(keys), Ghost(vals), Ghost(0));
        push_field(&mut e, "mime_type", Some(Json::Str(self.mime_type.clone())), Ghost(keys), Ghost(vals), Ghost(1));
        push_field(&mut e, "title", str_json(&self.title), Ghost(keys), Ghost(vals), Ghost(2));
        push_field(&mut e, "size_in_bytes", Some(Json::Number(self.size_in_bytes.clone())), Ghost(keys), Ghost(vals), Ghost(3));
        push_field(&mut e, "duration_in_seconds", Some(Json::Number(self.duration_in_seconds.clone())), Ghost(keys), Ghost(vals), Ghost(4));
        object_json(e)
    }

    /// Reads an attachment from a JSON object.
    pub fn from_json(j: &Json) -> (r: Result<Attachment, Error>)
        ensures
            result_matches(r, decode_attachment(j@)),
    {
        let entries = match j {
            Json::Object(entries) => entries,
            _ => {
                return Err(Error::ExpectedObject);
            },
        };
        proof {
            lemma_object_view(*entries);
        }
        let keys = attachment_key_list();
        let s = match collect_fields(entries, &keys) {
            Ok(s) => s,
            Err(e) => {
                return Err(e);
            },
        };
        let ghost vals = fields_of(entries_view(entries@), attachment_keys())->Ok_0;
        let url = match req_str(slot(entries, &s, 0, Ghost(vals)), "url") {
            Ok(x) => x,
            Err(e) => {
                return Err(e);
            },
        };
        let mime_type = match req_str(slot(entries, &s, 1, Ghost(vals)), "mime_type") {
            Ok(x) => x,
            Err(e) => {
                return Err(e);
            },
        };
        let title = match opt_str(slot(entries, &s, 2, Ghost(vals)), "title") {
            Ok(x) => x,
            Err(e) => {
                return Err(e);
            },
        };
        let size_in_bytes = match req_num(slot(entries, &s, 3, Ghost(vals)), "size_in_bytes") {
            Ok(x) => x,
            Err(e) => {
                return Err(e);
            },
        };
        let duration_in_seconds = match req_num(slot(entries, &s, 4, Ghost(vals)), "duration_in_seconds") {
            Ok(x) => x,
            Err(e) => {
                return Err(e);
            },
        };
        Ok(Attachment { url, mime_type, title, size_in_bytes, duration_in_seconds })
    }
}

/// Every attachment reads back as it was written.
pub proof fn lemma_attachment_round_trip(x: AttachmentV)
    ensures
        decode_attachment(encode_attachment(x)) == Ok::<AttachmentV, ErrorV>(x),
{
    lemma_attachment_keys();
    lemma_fields_of_emit(attachment_keys(), attachment_slots(x));
}

pub open spec fn attachment_list_view(o: Option<Vec<Attachment>>) -> Option<Seq<AttachmentV>> {
    match o {
        Some(v) => Some(v@.map_values(|x: Attachment| x@)),
        None => None,
    }
}

/// The array written for a list of attachments.
pub fn attachment_array(v: &Vec<Attachment>) -> (r: Json)
    ensures
        r@ == JsonV::Array(v@.map_values(|x: Attachment| x@).map_values(attachment_enc())),
{
    let mut out: Vec<Json> = Vec::new();
    let mut i: usize = 0;
    while i < v.len()
        invariant
            i <= v@.len(),
            out@.len() == i,
            forall|k: int| 0 <= k < i ==> json_view(#[trigger] out@[k]) == encode_attachment(v@[k]@),
        decreases v@.len() - i,
    {
        out.push(v[i].to_json());
        i += 1;
    }
    let r = array_json(out);
    assert(out@.map_values(|j: Json| json_view(j)) =~= v@.map_values(|x: Attachment| x@).map_values(attachment_enc()));
    r
}

/// The value written for an optional list of attachments.
pub fn attachment_list_json(o: &Option<Vec<Attachment>>) -> (r: Option<Json>)
    ensures
        opt_json_view(r) == list_slot(attachment_list_view(*o), attachment_enc()),
{
    match o {
        None => None,
        Some(v) => Some(attachment_array(v)),
    }
}

/// Reads the elements of an array as attachments.
pub fn attachment_elements(xs: &Vec<Json>) -> (r: Result<Vec<Attachment>, Error>)
    ensures
        match (r, list_of(xs@.map_values(|j: Json| json_view(j)), attachment_dec(), xs@.len())) {
            (Ok(a), Ok(b)) => a@.map_values(|x: Attachment| x@) == b,
            (Err(e), Err(g)) => e@ == g,
            _ => false,
        },
{
    let ghost xv = xs@.map_values(|j: Json| json_view(j));
    let mut out: Vec<Attachment> = Vec::new();
    assert(out@.map_values(|x: Attachment| x@) =~= Seq::<AttachmentV>::empty());
    let mut i: usize = 0;
    while i < xs.len()
        invariant
            i <= xs@.len(),
            xv == xs@.map_values(|j: Json| json_view(j)),
            list_of(xv, attachment_dec(), i as nat) == Ok::<_, ErrorV>(out@.map_values(|x: Attachment| x@)),
        decreases xs@.len() - i,
    {
        match Attachment::from_json(&xs[i]) {
            Ok(x) => {
                out.push(x);
                assert(out@.map_values(|x: Attachment| x@) =~= list_of(xv, attachment_dec(), i as nat)->Ok_0.push(x@));
            },
            Err(e) => {
                proof {
                    lemma_list_err_stays(xv, attachment_dec(), (i + 1) as nat, xv.len());
                }
                return Err(e);
            },
        }
        i += 1;
    }
    Ok(out)
}

/// Reads an optional list of attachments.
pub fn opt_attachment_list(v: Option<&Json>, key: &str) -> (r: Result<Option<Vec<Attachment>>, Error>)
    ensures
        match (r, opt_list_of(opt_ref_view(v), key@, attachment_dec())) {
            (Ok(a), Ok(b)) => attachment_list_view(a) == b,
            (Err(e), Err(g)) => e@ == g,
            _ => false,
        },
{
    let j = match v {
        None => {
            return Ok(None);
        },
        Some(j) => j,
    };
    match j {
        Json::Null => Ok(None),
        Json::Array(xs) => {
            proof {
                lemma_array_view(*xs);
            }
            match attachment_elements(xs) {
                Ok(a) => Ok(Some(a)),
                Err(e) => Err(e),
            }
        },
        _ => Err(Error::InvalidType(key.to_owned())),
    }
}


/// The protocol identifier of a JSON feed.
pub open spec fn version_1() -> Seq<char> {
    "https://jsonfeed.org/version/1"@
}

/// The default feed: version 1, empty title, no items, nothing else set.
pub open spec fn default_feed() -> FeedV {
    FeedV {
        version: version_1(),
        title: Seq::empty(),
        items: Seq::empty(),
        home_page_url: None,
        feed_url: None,
        description: None,
        user_comment: None,
        next_url: None,
        icon: None,
        favicon: None,
        author: None,
        expired: None,
        hubs: None,
    }
}

/// A feed: metadata and an ordered list of items.
#[derive(Debug, Clone, PartialEq)]
pub struct Feed {
    /// Protocol identifier.
    pub version: String,
    /// Name of the feed.
    pub title: String,
    /// The entries, in order.
    pub items: Vec<Item>,
    /// Web site that the feed describes.
    pub home_page_url: Option<String>,
    /// Address of the feed itself.
    pub feed_url: Option<String>,
    /// What the feed is about.
    pub description: Option<String>,
    /// A note for people who open the feed.
    pub user_comment: Option<String>,
    /// Next page of a paginated feed.
    pub next_url: Option<String>,
    /// Large icon.
    pub icon: Option<String>,
    /// Small icon.
    pub favicon: Option<String>,
    /// Author of the feed.
    pub author: Option<Author>,
    /// Whether the feed is finished.
    pub expired: Option<bool>,
    /// Hubs that push updates.
    pub hubs: Option<Vec<Hub>>,
}

/// Mathematical model of [`Feed`].
pub struct FeedV {
    pub version: Seq<char>,
    pub title: Seq<char>,
    pub items: Seq<ItemV>,
    pub home_page_url: Option<Seq<char>>,
    pub feed_url: Option<Seq<char>>,
    pub description: Option<Seq<char>>,
    pub user_comment: Option<Seq<char>>,
    pub next_url: Option<Seq<char>>,
    pub icon: Option<Seq<char>>,
    pub favicon: Option<Seq<char>>,
    pub author: Option<AuthorV>,
    pub expired: Option<bool>,
    pub hubs: Option<Seq<HubV>>,
}

impl View for Feed {
    type V = FeedV;

    open spec fn view(&self) -> FeedV {
        FeedV {
            version: self.version@,
            title: self.title@,
            items: self.items@.map_values(|x: Item| x@),
            home_page_url: opt_str_view(self.home_page_url),
            feed_url: opt_str_view(self.feed_url),
            description: opt_str_view(self.description),
            user_comment: opt_str_view(self.user_comment),
            next_url: opt_str_view(self.next_url),
            icon: opt_str_view(self.icon),
            favicon: opt_str_view(self.favicon),
            author: opt_author_view(self.author),
            expired: self.expired,
            hubs: hub_list_view(self.hubs),
        }
    }
}

pub open spec fn feed_keys() -> Seq<Seq<char>> {
    seq!["version"@, "title"@, "items"@, "home_page_url"@, "feed_url"@, "description"@, "user_comment"@, "next_url"@, "icon"@, "favicon"@, "author"@, "expired"@, "hubs"@]
}

pub open spec fn feed_slots(x: FeedV) -> Seq<Option<JsonV>> {
    seq![Some(JsonV::Str(x.version)), Some(JsonV::Str(x.title)), Some(JsonV::Array(x.items.map_values(item_enc()))), str_slot(x.home_page_url), str_slot(x.feed_url), str_slot(x.description), str_slot(x.user_comment), str_slot(x.next_url), str_slot(x.icon), str_slot(x.favicon), opt_author_slot(x.author), bool_slot(x.expired), list_slot(x.hubs, hub_enc())]
}

/// The object written for a feed.
pub open spec fn encode_feed(x: FeedV) -> JsonV {
    emit_object(feed_keys(), feed_slots(x))
}

pub open spec fn feed_from_slots(v: Seq<Option<JsonV>>) -> Result<FeedV, ErrorV> {
    let version = req_str_of(v[0], "version"@);
    let title = req_str_of(v[1], "title"@);
    let items = dlist_of(v[2], "items"@, item_dec());
    let home_page_url = opt_str_of(v[3], "home_page_url"@);
    let feed_url = opt_str_of(v[4], "feed_url"@);
    let description = opt_str_of(v[5], "description"@);
    let user_comment = opt_str_of(v[6], "user_comment"@);
    let next_url = opt_str_of(v[7], "next_url"@);
    let icon = opt_str_of(v[8], "icon"@);
    let favicon = opt_str_of(v[9], "favicon"@);
    let author = opt_author_of(v[10], "author"@);
    let expired = opt_bool_of(v[11], "expired"@);
    let hubs = opt_list_of(v[12], "hubs"@, hub_dec());
    if version is Err {
        Err(version->Err_0)
    } else if title is Err {
        Err(title->Err_0)
    } else if items is Err {
        Err(items->Err_0)
    } else if home_page_url is Err {
        Err(home_page_url->Err_0)
    } else if feed_url is Err {
        Err(feed_url->Err_0)
    } else if description is Err {
        Err(description->Err_0)
    } else if user_comment is Err {
        Err(user_comment->Err_0)
    } else if next_url is Err {
        Err(next_url->Err_0)
    } else if icon is Err {
        Err(icon->Err_0)
    } else if favicon is Err {
        Err(favicon->Err_0)
    } else if author is Err {
        Err(author->Err_0)
    } else if expired is Err {
        Err(expired->Err_0)
    } else if hubs is Err {
        Err(hubs->Err_0)
    } else {
        Ok(FeedV { version: version->Ok_0, title: title->Ok_0, items: items->Ok_0, home_page_url: home_page_url->Ok_0, feed_url: feed_url->Ok_0, description: description->Ok_0, user_comment: user_comment->Ok_0, next_url: next_url->Ok_0, icon: icon->Ok_0, favicon: favicon->Ok_0, author: author->Ok_0, expired: expired->Ok_0, hubs: hubs->Ok_0 })
    }
}

/// The feed read from a JSON value.
pub open spec fn decode_feed(j: JsonV) -> Result<FeedV, ErrorV> {
    match j {
        JsonV::Object(obj) => match fields_of(obj, feed_keys()) {
            Ok(v) => feed_from_slots(v),
            Err(e) => Err(e),
        },
        _ => Err(ErrorV::ExpectedObject),
    }
}

pub open spec fn feed_enc() -> spec_fn(FeedV) -> JsonV {
    |x: FeedV| encode_feed(x)
}

pub open spec fn feed_dec() -> spec_fn(JsonV) -> Result<FeedV, ErrorV> {
    |j: JsonV| decode_feed(j)
}

pub proof fn lemma_feed_keys()
    ensures
        distinct(feed_keys()),
{
    reveal_strlit("version");
    reveal_strlit("title");
    reveal_strlit("items");
    reveal_strlit("home_page_url");
    reveal_strlit("feed_url");
    reveal_strlit("description");
    reveal_strlit("user_comment");
    reveal_strlit("next_url");
    reveal_strlit("icon");
    reveal_strlit("favicon");
    reveal_strlit("author");
    reveal_strlit("expired");
    reveal_strlit("hubs");
    let k = feed_keys();
    assert(k[0].len() != k[1].len());
    assert(k[0].len() != k[2].len());
    assert(k[0].len() != k[3].len());
    assert(k[0].len() != k[4].len());
    assert(k[0].len() != k[5].len());
    assert(k[0].len() != k[6].len());
    assert(k[0].len() != k[7].len());
    assert(k[0].len() != k[8].len());
    assert(k[0][0] != k[9][0]);
    assert(k[0].len() != k[10].len());
    assert(k[0][0] != k[11][0]);
    assert(k[0].len() != k[12].len());
    assert(k[1][0] != k[2][0]);
    assert(k[1].len() != k[3].len());
    assert(k[1].len() != k[4].len());
    assert(k[1].len() != k[5].len());
    assert(k[1].len() != k[6].len());
    assert(k[1].len() != k[7].len());
    assert(k[1].len() != k[8].len());
    assert(k[1].len() != k[9].len());
    assert(k[1].len() != k[10].len());
    assert(k[1].len() != k[11].len());
    assert(k[1].len() != k[12].len());
    assert(k[2].len() != k[3].len());
    assert(k[2].len() != k[4].len());
    assert(k[2].len() != k[5].len());
    assert(k[2].len() != k[6].len());
    assert(k[2].len() != k[7].len());
    assert(k[2].len() != k[8].len());
    assert(k[2].len() != k[9].len());
    assert(k[2].len() != k[10].len());
    assert(k[2].len() != k[11].len());
    assert(k[2].len() != k[12].len());
    assert(k[3].len() != k[4].len());
    assert(k[3].len() != k[5].len());
    assert(k[3].len() != k[6].len());
    assert(k[3].len() != k[7].len());
    assert(k[3].len() != k[8].len());
    assert(k[3].len() != k[9].len());
    assert(k[3].len() != k[10].len());
    assert(k[3].len() != k[11].len());
    assert(k[3].len() != k[12].len());
    assert(k[4].len() != k[5].len());
    assert(k[4].len() != k[6].len());
    assert(k[4][0] != k[7][0]);
    assert(k[4].len() != k[8].len());
    assert(k[4].len() != k[9].len());
    assert(k[4].len() != k[10].len());
    assert(k[4].len() != k[11].len());
    assert(k[4].len() != k[12].len());
    assert(k[5].len() != k[6].len());
    assert(k[5].len() != k[7].len());
    assert(k[5].len() != k[8].len());
    assert(k[5].len() != k[9].len());
    assert(k[5].len() != k[10].len());
    assert(k[5].len() != k[11].len());
    assert(k[5].len() != k[12].len());
    assert(k[6].len() != k[7].len());
    assert(k[6].len() != k[8].len());
    assert(k[6].len() != k[9].len());
    assert(k[6].len() != k[10].len());
    assert(k[6].len() != k[11].len());
    assert(k[6].len() != k[12].len());
    assert(k[7].len() != k[8].len());
    assert(k[7].len() != k[9].len());
    assert(k[7].len() != k[10].len());
    assert(k[7].len() != k[11].len());
    assert(k[7].len() != k[12].len());
    assert(k[8].len() != k[9].len());
    assert(k[8].len() != k[10].len());
    assert(k[8].len() != k[11].len());
    assert(k[8][0] != k[12][0]);
    assert(k[9].len() != k[10].len());
    assert(k[9][0] != k[11][0]);
    assert(k[9].len() != k[12].len());
    assert(k[10].len() != k[11].len());
    assert(k[10].len() != k[12].len());
    assert(k[11].len() != k[12].len());
    assert forall|i: int, j: int| 0 <= i < 13 && 0 <= j < 13 && i != j implies #[trigger] k[i] != #[trigger] k[j] by {
        assert(i == 0 || i == 1 || i == 2 || i == 3 || i == 4 || i == 5 || i == 6 || i == 7 || i == 8 || i == 9 || i == 10 || i == 11 || i == 12);
        assert(j == 0 || j == 1 || j == 2 || j == 3 || j == 4 || j == 5 || j == 6 || j == 7 || j == 8 || j == 9 || j == 10 || j == 11 || j == 12);
    }
}

fn feed_key_list() -> (r: Vec<String>)
    ensures
        key_views(r@) == feed_keys(),
        distinct(key_views(r@)),
{
    let r = vec!["version".to_owned(), "title".to_owned(), "items".to_owned(), "home_page_url".to_owned(), "feed_url".to_owned(), "description".to_owned(), "user_comment".to_owned(), "next_url".to_owned(), "icon".to_owned(), "favicon".to_owned(), "author".to_owned(), "expired".to_owned(), "hubs".to_owned()];
    proof {
        assert(key_views(r@) =~= feed_keys());
        lemma_feed_keys();
    }
    r
}

impl Feed {
    /// A feed builder, starting from the default feed.
    pub fn builder() -> (r: Builder)
        ensures
            r@ == default_feed(),
    {
        Builder::new()
    }

    /// Writes the feed as a JSON object: `version`, `title` and `items` always, in key order; unset fields are left out.
    pub fn to_json(&self) -> (r: Json)
        ensures
            r@ == encode_feed(self@),
    {
        let ghost keys = feed_keys();
        let ghost vals = feed_slots(self@);
        let mut e: Vec<(String, Json)> = Vec::new();
        assert(entries_view(e@) =~= emit(keys, vals, 0));
        push_field(&mut e, "version", Some(Json::Str(self.version.clone())), Ghost(keys), Ghost(vals), Ghost(0));
        push_field(&mut e, "title", Some(Json::Str(self.title.clone())), Ghost(keys), Ghost(vals), Ghost(1));
        push_field(&mut e, "items", Some(item_array(&self.items)), Ghost(keys), Ghost(vals), Ghost(2));
        push_field(&mut e, "home_page_url", str_json(&self.home_page_url), Ghost(keys), Ghost(vals), Ghost(3));
        push_field(&mut e, "feed_url", str_json(&self.feed_url), Ghost(keys), Ghost(vals), Ghost(4));
        push_field(&mut e, "description", str_json(&self.description), Ghost(keys), Ghost(vals), Ghost(5));
        push_field(&mut e, "user_comment", str_json(&self.user_comment), Ghost(keys), Ghost(vals), Ghost(6));
        push_field(&mut e, "next_url", str_json(&self.next_url), Ghost(keys), Ghost(vals), Ghost(7));
        push_field(&mut e, "icon", str_json(&self.icon), Ghost(keys), Ghost(vals), Ghost(8));
        push_field(&mut e, "favicon", str_json(&self.favicon), Ghost(keys), Ghost(vals), Ghost(9));
        push_field(&mut e, "author", opt_author_json(&self.author), Ghost(keys), Ghost(vals), Ghost(10));
        push_field(&mut e, "expired", bool_json(self.expired), Ghost(keys), Ghost(vals), Ghost(11));
        push_field(&mut e, "hubs", hub_list_json(&self.hubs), Ghost(keys), Ghost(vals), Ghost(12));
        object_json(e)
    }

    /// Reads a feed from a JSON object.
    pub fn from_json(j: &Json) -> (r: Result<Feed, Error>)
        ensures
            result_matches(r, decode_feed(j@)),
    {
        let entries = match j {
            Json::Object(entries) => entries,
            _ => {
                return Err(Error::ExpectedObject);
            },
        };
        proof {
            lemma_object_view(*entries);
        }
        let keys = feed_key_list();
        let s = match collect_fields(entries, &keys) {
            Ok(s) => s,
            Err(e) => {
                return Err(e);
            },
        };
        let ghost vals = fields_of(entries_view(entries@), feed_keys())->Ok_0;
        let version = match req_str(slot(entries, &s, 0, Ghost(vals)), "version") {
            Ok(x) => x,
            Err(e) => {
                return Err(e);
            },
        };
        let title = match req_str(slot(entries, &s, 1, Ghost(vals)), "title") {
            Ok(x) => x,
            Err(e) => {
                return Err(e);
            },
        };
        let items = match item_dlist(slot(entries, &s, 2, Ghost(vals)), "items") {
            Ok(x) => x,
            Err(e) => {
                return Err(e);
            },
        };
        let home_page_url = match opt_str(slot(entries, &s, 3, Ghost(vals)), "home_page_url") {
            Ok(x) => x,
            Err(e) => {
                return Err(e);
            },
        };
        let feed_url = match opt_str(slot(entries, &s, 4, Ghost(vals)), "feed_url") {
            Ok(x) => x,
            Err(e) => {
                return Err(e);
            },
        };
        let description = match opt_str(slot(entries, &s, 5, Ghost(vals)), "description") {
            Ok(x) => x,
            Err(e) => {
                return Err(e);
            },
        };
        let user_comment = match opt_str(slot(entries, &s, 6, Ghost(vals)), "user_comment") {
            Ok(x) => x,
            Err(e) => {
                return Err(e);
            },
        };
        let next_url = match opt_str(slot(entries, &s, 7, Ghost(vals)), "next_url") {
            Ok(x) => x,
            Err(e) => {
                return Err(e);
            },
        };
        let icon = match opt_str(slot(entries, &s, 8, Ghost(vals)), "icon") {
            Ok(x) => x,
            Err(e) => {
                return Err(e);
            },
        };
        let favicon = match opt_str(slot(entries, &s, 9, Ghost(vals)), "favicon") {
            Ok(x) => x,
            Err(e) => {
                return Err(e);
            },
        };
        let author = match opt_author(slot(entries, &s, 10, Ghost(vals)), "author") {
            Ok(x) => x,
            Err(e) => {
                return Err(e);
            },
        };
        let expired = match opt_bool(slot(entries, &s, 11, Ghost(vals)), "expired") {
            Ok(x) => x,
            Err(e) => {
                return Err(e);
            },
        };
        let hubs = match opt_hub_list(slot(entries, &s, 12, Ghost(vals)), "hubs") {
            Ok(x) => x,
            Err(e) => {
                return Err(e);
            },
        };
        Ok(Feed { version, title, items, home_page_url, feed_url, description, user_comment, next_url, icon, favicon, author, expired, hubs })
    }
}

/// Every feed reads back as it was written.
#[verifier::rlimit(100)]
pub proof fn lemma_feed_round_trip(x: FeedV)
    ensures
        decode_feed(encode_feed(x)) == Ok::<FeedV, ErrorV>(x),
{
    lemma_feed_keys();
    lemma_fields_of_emit(feed_keys(), feed_slots(x));
    assert forall|i: int| 0 <= i < x.items.len() implies item_dec()(item_enc()(#[trigger] x.items[i])) == Ok::<ItemV, ErrorV>(x.items[i]) by {
        lemma_item_round_trip(x.items[i]);
    }
    lemma_list_round_trip(x.items, item_enc(), item_dec(), x.items.len());
    assert(x.items.take(x.items.len() as int) =~= x.items);
    if let Some(a) = x.author {
        lemma_author_round_trip(a);
    }
    if let Some(xs) = x.hubs {
        assert forall|i: int| 0 <= i < xs.len() implies hub_dec()(hub_enc()(#[trigger] xs[i])) == Ok::<HubV, ErrorV>(xs[i]) by {
            lemma_hub_round_trip(xs[i]);
        }
    }
    lemma_opt_list_round_trip(x.hubs, "hubs"@, hub_enc(), hub_dec());
}

/// Reads a list field that is empty when absent.
pub fn item_dlist(v: Option<&Json>, key: &str) -> (r: Result<Vec<Item>, Error>)
    ensures
        match (r, dlist_of(opt_ref_view(v), key@, item_dec())) {
            (Ok(a), Ok(b)) => a@.map_values(|x: Item| x@) == b,
            (Err(e), Err(g)) => e@ == g,
            _ => false,
        },
{
    let j = match v {
        None => {
            let out: Vec<Item> = Vec::new();
            assert(out@.map_values(|x: Item| x@) =~= Seq::<ItemV>::empty());
            return Ok(out);
        },
        Some(j) => j,
    };
    match j {
        Json::Array(xs) => {
            proof {
                lemma_array_view(*xs);
            }
            item_elements(xs)
        },
        _ => Err(Error::InvalidType(key.to_owned())),
    }
}

impl Default for Feed {
    /// Version 1, an empty title, no items, and nothing else set.
    fn default() -> (r: Feed)
        ensures
            r@ == default_feed(),
    {
        let r = Feed {
            version: "https://jsonfeed.org/version/1".to_owned(),
            title: String::new(),
            items: Vec::new(),
            home_page_url: None,
            feed_url: None,
            description: None,
            user_comment: None,
            next_url: None,
            icon: None,
            favicon: None,
            author: None,
            expired: None,
            hubs: None,
        };
        assert(r.items@.map_values(|x: Item| x@) =~= Seq::<ItemV>::empty());
        r
    }
}

/// A key may occur only once in a feed object.
pub proof fn lemma_feed_repeated_key(obj: Seq<(Seq<char>, JsonV)>, a: int, b: int)
    requires
        0 <= a < b < obj.len(),
        obj[a].0 == obj[b].0,
    ensures
        decode_feed(JsonV::Object(obj)) is Err,
{
    lemma_repeated_key_fails(obj, feed_keys(), a, b);
}

/// Writing a feed leaves out the key of every unset field, and writes the key
/// of every set field with its value.
pub proof fn lemma_feed_omission(x: FeedV, p: int)
    requires
        0 <= p < feed_keys().len(),
    ensures
        encode_feed(x) is Object,
        feed_slots(x)[p] is None ==> (forall|i: int|
            0 <= i < object_entries(encode_feed(x)).len() ==> (#[trigger] object_entries(encode_feed(x))[i]).0
                != feed_keys()[p]),
        feed_slots(x)[p] is Some ==> (exists|i: int|
            0 <= i < object_entries(encode_feed(x)).len() && object_entries(encode_feed(x))[i] == (
                feed_keys()[p],
                feed_slots(x)[p]->0,
            )),
{
    lemma_feed_keys();
    lemma_emit_keys(feed_keys(), feed_slots(x), p);
    let e = emit(feed_keys(), feed_slots(x), feed_keys().len());
    assert(object_entries(encode_feed(x)) == e);
    if feed_slots(x)[p] is Some {
        let i = choose|i: int| 0 <= i < e.len() && e[i] == (feed_keys()[p], feed_slots(x)[p]->0);
        assert(object_entries(encode_feed(x))[i] == (feed_keys()[p], feed_slots(x)[p]->0));
    }
}

/// The default feed is written as exactly `version`, an empty `title` and an
/// empty `items`, and reads back as the default feed.
pub proof fn lemma_default_feed_round_trip()
    ensures
        encode_feed(default_feed()) == JsonV::Object(
            seq![
                ("version"@, JsonV::Str(version_1())),
                ("title"@, JsonV::Str(Seq::empty())),
                ("items"@, JsonV::Array(Seq::empty())),
            ],
        ),
        decode_feed(encode_feed(default_feed())) == Ok::<FeedV, ErrorV>(default_feed()),
{
    reveal_with_fuel(emit, 14);
    let x = default_feed();
    assert(x.items.map_values(item_enc()) =~= Seq::<JsonV>::empty());
    assert(emit(feed_keys(), feed_slots(x), 13) =~= seq![
        ("version"@, JsonV::Str(version_1())),
        ("title"@, JsonV::Str(Seq::empty())),
        ("items"@, JsonV::Array(Seq::empty())),
    ]);
    lemma_feed_round_trip(x);
}

} // verus!
