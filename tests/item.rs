use jsonfeed::{Attachment, Author, Content, Error, Item, Json};

fn s(v: &str) -> Json {
    Json::Str(v.to_string())
}

fn obj(entries: Vec<(&str, Json)>) -> Json {
    Json::Object(entries.into_iter().map(|(k, v)| (k.to_string(), v)).collect())
}

fn bob() -> Author {
    Author::new().name("bob jones").url("http://example.com").avatar("http://img.com/blah")
}

fn sample_item(content: Content) -> Item {
    Item {
        id: "1".into(),
        language: None,
        url: Some("http://example.com/feed.json".into()),
        external_url: Some("http://example.com/feed.json".into()),
        title: Some("feed title".into()),
        content,
        summary: Some("feed summary".into()),
        image: Some("http://img.com/blah".into()),
        banner_image: Some("http://img.com/blah".into()),
        date_published: Some("2017-01-01 10:00:00".into()),
        date_modified: Some("2017-01-01 10:00:00".into()),
        authors: Some(vec![bob()]),
        tags: Some(vec!["json".into(), "feed".into()]),
        attachments: Some(vec![]),
    }
}

fn sample_json(content: Vec<(&'static str, Json)>) -> Json {
    let mut entries = vec![
        ("id", s("1")),
        ("url", s("http://example.com/feed.json")),
        ("external_url", s("http://example.com/feed.json")),
        ("title", s("feed title")),
    ];
    entries.extend(content);
    entries.extend(vec![
        ("summary", s("feed summary")),
        ("image", s("http://img.com/blah")),
        ("banner_image", s("http://img.com/blah")),
        ("date_published", s("2017-01-01 10:00:00")),
        ("date_modified", s("2017-01-01 10:00:00")),
        (
            "authors",
            Json::Array(vec![obj(vec![
                ("name", s("bob jones")),
                ("url", s("http://example.com")),
                ("avatar", s("http://img.com/blah")),
            ])]),
        ),
        ("tags", Json::Array(vec![s("json"), s("feed")])),
        ("attachments", Json::Array(vec![])),
    ]);
    obj(entries)
}

#[test]
#[allow(non_snake_case)]
fn serialize_item__content_html() {
    let item = sample_item(Content::Html("<p>content</p>".into()));
    assert_eq!(item.to_json(), sample_json(vec![("content_html", s("<p>content</p>"))]));
}

#[test]
#[allow(non_snake_case)]
fn serialize_item__content_text() {
    let item = sample_item(Content::Text("content".into()));
    assert_eq!(item.to_json(), sample_json(vec![("content_text", s("content"))]));
}

#[test]
#[allow(non_snake_case)]
fn serialize_item__content_both() {
    let item = sample_item(Content::Both("<p>content</p>".into(), "content".into()));
    assert_eq!(
        item.to_json(),
        sample_json(vec![("content_html", s("<p>content</p>")), ("content_text", s("content"))])
    );
}

#[test]
#[allow(non_snake_case)]
fn deserialize_item__content_html() {
    let json = sample_json(vec![("content_html", s("<p>content</p>"))]);
    let item = Item::from_json(&json).unwrap();
    assert_eq!(item, sample_item(Content::Html("<p>content</p>".into())));
}

#[test]
#[allow(non_snake_case)]
fn deserialize_item__content_text() {
    let json = sample_json(vec![("content_text", s("content"))]);
    let item = Item::from_json(&json).unwrap();
    assert_eq!(item, sample_item(Content::Text("content".into())));
}

#[test]
#[allow(non_snake_case)]
fn deserialize_item__content_both() {
    let json = sample_json(vec![("content_html", s("<p>content</p>")), ("content_text", s("content"))]);
    let item = Item::from_json(&json).unwrap();
    assert_eq!(item, sample_item(Content::Both("<p>content</p>".into(), "content".into())));
}

#[test]
fn example_item_decodes_and_encodes_back() {
    let json = obj(vec![
        ("id", s("1")),
        ("content_html", s("<p>content</p>")),
        ("content_text", s("content")),
        ("title", s("feed title")),
    ]);
    let item = Item::from_json(&json).unwrap();
    assert_eq!(item.content, Content::Both("<p>content</p>".into(), "content".into()));
    assert_eq!(item.title, Some("feed title".to_string()));
    assert_eq!(item.url, None);
    assert_eq!(
        item.to_json(),
        obj(vec![
            ("id", s("1")),
            ("title", s("feed title")),
            ("content_html", s("<p>content</p>")),
            ("content_text", s("content")),
        ])
    );
}

#[test]
fn repeated_id_is_refused() {
    let json = obj(vec![("id", s("1")), ("content_text", s("c")), ("id", s("2"))]);
    assert_eq!(Item::from_json(&json), Err(Error::DuplicateField("id".into())));
}

#[test]
fn missing_content_is_refused() {
    let json = obj(vec![("id", s("1")), ("title", s("t"))]);
    assert_eq!(
        Item::from_json(&json),
        Err(Error::MissingField("content_html or content_text".into()))
    );
}

#[test]
fn missing_id_is_refused() {
    let json = obj(vec![("content_text", s("c"))]);
    assert_eq!(Item::from_json(&json), Err(Error::MissingField("id".into())));
}

#[test]
fn unknown_key_is_refused() {
    let json = obj(vec![("id", s("1")), ("content_text", s("c")), ("colour", s("red"))]);
    assert_eq!(Item::from_json(&json), Err(Error::UnknownField("colour".into())));
}

#[test]
fn wrong_type_is_refused() {
    let json = obj(vec![("id", s("1")), ("content_text", s("c")), ("title", Json::Number("5".into()))]);
    assert_eq!(Item::from_json(&json), Err(Error::InvalidType("title".into())));
    let tags = obj(vec![("id", s("1")), ("content_text", s("c")), ("tags", Json::Array(vec![Json::Bool(true)]))]);
    assert_eq!(Item::from_json(&tags), Err(Error::InvalidType("tags".into())));
}

#[test]
fn non_object_is_refused() {
    assert_eq!(Item::from_json(&s("x")), Err(Error::ExpectedObject));
    let bad_author = obj(vec![("id", s("1")), ("content_text", s("c")), ("authors", Json::Array(vec![s("bob")]))]);
    assert_eq!(Item::from_json(&bad_author), Err(Error::ExpectedObject));
}

#[test]
fn null_optional_is_unset() {
    let json = obj(vec![("id", s("1")), ("content_text", s("c")), ("summary", Json::Null)]);
    let item = Item::from_json(&json).unwrap();
    assert_eq!(item.summary, None);
}

#[test]
fn legacy_author_fills_authors() {
    let json = obj(vec![
        ("id", s("1")),
        ("content_text", s("c")),
        ("author", obj(vec![("name", s("bob jones"))])),
    ]);
    let item = Item::from_json(&json).unwrap();
    assert_eq!(item.authors, Some(vec![Author::new().name("bob jones")]));
    assert_eq!(
        item.to_json(),
        obj(vec![
            ("id", s("1")),
            ("content_text", s("c")),
            ("authors", Json::Array(vec![obj(vec![("name", s("bob jones"))])])),
        ])
    );
}

#[test]
fn authors_win_over_legacy_author() {
    let json = obj(vec![
        ("id", s("1")),
        ("content_text", s("c")),
        ("author", obj(vec![("name", s("old"))])),
        ("authors", Json::Array(vec![obj(vec![("name", s("new"))])])),
    ]);
    let item = Item::from_json(&json).unwrap();
    assert_eq!(item.authors, Some(vec![Author::new().name("new")]));
}

#[test]
fn unset_fields_are_left_out() {
    let item = Item::builder().id("7").content_text("body").build().unwrap();
    assert_eq!(item.to_json(), obj(vec![("id", s("7")), ("content_text", s("body"))]));
    let item = Item::builder().id("7").content_text("body").summary("sum").build().unwrap();
    assert_eq!(
        item.to_json(),
        obj(vec![("id", s("7")), ("content_text", s("body")), ("summary", s("sum"))])
    );
}

#[test]
fn attachment_round_trip() {
    let a = Attachment {
        url: "http://example.com/a.ogg".into(),
        mime_type: "audio/ogg".into(),
        title: None,
        size_in_bytes: "1024".into(),
        duration_in_seconds: "61.5".into(),
    };
    let j = a.to_json();
    assert_eq!(
        j,
        obj(vec![
            ("url", s("http://example.com/a.ogg")),
            ("mime_type", s("audio/ogg")),
            ("size_in_bytes", Json::Number("1024".into())),
            ("duration_in_seconds", Json::Number("61.5".into())),
        ])
    );
    assert_eq!(Attachment::from_json(&j), Ok(a));
    let missing = obj(vec![("url", s("u")), ("mime_type", s("m")), ("size_in_bytes", Json::Number("1".into()))]);
    assert_eq!(Attachment::from_json(&missing), Err(Error::MissingField("duration_in_seconds".into())));
}

#[test]
fn item_round_trip_with_everything() {
    let mut item = sample_item(Content::Both("<b>x</b>".into(), "x".into()));
    item.language = Some("en".into());
    item.attachments = Some(vec![Attachment {
        url: "u".into(),
        mime_type: "m".into(),
        title: Some("t".into()),
        size_in_bytes: "3".into(),
        duration_in_seconds: "0".into(),
    }]);
    assert_eq!(Item::from_json(&item.to_json()), Ok(item));
}
