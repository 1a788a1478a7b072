use jsonfeed::{Author, Builder, Content, Error, Feed, Hub, Item, Json};

fn s(v: &str) -> Json {
    Json::Str(v.to_string())
}

fn obj(entries: Vec<(&str, Json)>) -> Json {
    Json::Object(entries.into_iter().map(|(k, v)| (k.to_string(), v)).collect())
}

#[test]
fn default_feed_encodes_to_three_keys() {
    let feed = Feed::default();
    assert_eq!(feed.version, "https://jsonfeed.org/version/1");
    assert_eq!(
        feed.to_json(),
        obj(vec![
            ("version", s("https://jsonfeed.org/version/1")),
            ("title", s("")),
            ("items", Json::Array(vec![])),
        ])
    );
    assert_eq!(Feed::from_json(&feed.to_json()), Ok(Feed::default()));
}

#[test]
fn missing_items_default_to_empty() {
    let json = obj(vec![("title", s("")), ("version", s("https://jsonfeed.org/version/1"))]);
    assert_eq!(Feed::from_json(&json), Ok(Feed::default()));
}

#[test]
fn feed_requires_version_and_title() {
    let json = obj(vec![("title", s("t"))]);
    assert_eq!(Feed::from_json(&json), Err(Error::MissingField("version".into())));
    let json = obj(vec![("version", s("v"))]);
    assert_eq!(Feed::from_json(&json), Err(Error::MissingField("title".into())));
}

#[test]
fn feed_refuses_repeated_and_unknown_keys() {
    let json = obj(vec![("version", s("v")), ("title", s("a")), ("title", s("b"))]);
    assert_eq!(Feed::from_json(&json), Err(Error::DuplicateField("title".into())));
    let json = obj(vec![("version", s("v")), ("title", s("a")), ("extra", Json::Null)]);
    assert_eq!(Feed::from_json(&json), Err(Error::UnknownField("extra".into())));
    let json = obj(vec![("version", s("v")), ("title", s("a")), ("items", Json::Null)]);
    assert_eq!(Feed::from_json(&json), Err(Error::InvalidType("items".into())));
    let json = obj(vec![("version", s("v")), ("title", s("a")), ("expired", s("yes"))]);
    assert_eq!(Feed::from_json(&json), Err(Error::InvalidType("expired".into())));
}

#[test]
fn item_errors_surface_through_the_feed() {
    let json = obj(vec![
        ("version", s("v")),
        ("title", s("a")),
        ("items", Json::Array(vec![obj(vec![("id", s("1"))])])),
    ]);
    assert_eq!(
        Feed::from_json(&json),
        Err(Error::MissingField("content_html or content_text".into()))
    );
}

#[test]
fn builder_example() {
    let feed = Feed::builder()
        .title("some other feed")
        .item(Item::builder().title("t").content_html("<p>x</p>").build().unwrap())
        .build();
    assert_eq!(feed.title, "some other feed");
    assert_eq!(feed.items.len(), 1);
    assert_eq!(feed.items[0].content, Content::Html("<p>x</p>".into()));
    assert_eq!(feed.items[0].title, Some("t".to_string()));
}

#[test]
fn builder_appends_items_and_hubs() {
    let a = Item::builder().id("a").content_text("1").build().unwrap();
    let b = Item::builder().id("b").content_text("2").build().unwrap();
    let feed = Builder::new()
        .item(a.clone())
        .item(b.clone())
        .hub(Hub { type_: "WebSub".into(), url: "http://hub".into() })
        .hub(Hub { type_: "rssCloud".into(), url: "http://cloud".into() })
        .title("first")
        .title("second")
        .build();
    assert_eq!(feed.items, vec![a, b]);
    assert_eq!(feed.hubs.as_ref().map(|h| h.len()), Some(2));
    assert_eq!(feed.title, "second");
}

#[test]
fn item_builder_without_content_fails() {
    assert_eq!(Item::builder().id("1").title("t").build(), Err(Error::MissingContent));
    let both = Item::builder().content_text("t").content_html("h").build().unwrap();
    assert_eq!(both.content, Content::Both("h".into(), "t".into()));
    let item = Item::builder().tag("a").tag("b").author(Author::new().name("x")).content_text("c").build().unwrap();
    assert_eq!(item.authors, Some(vec![Author::new().name("x")]));
    assert_eq!(item.tags, Some(vec!["a".to_string(), "b".to_string()]));
}

#[test]
fn content_codec_round_trips() {
    for c in [
        Content::Html("h".into()),
        Content::Text("t".into()),
        Content::Both("h".into(), "t".into()),
    ] {
        let (html, text) = c.encode();
        assert_eq!(Content::decode(html, text), Ok(c));
    }
    assert_eq!(Content::Html("h".into()).encode(), (Some("h".to_string()), None));
    assert_eq!(Content::Text("t".into()).encode(), (None, Some("t".to_string())));
    assert_eq!(
        Content::decode(None, None),
        Err(Error::MissingField("content_html or content_text".into()))
    );
}

#[test]
fn full_feed_round_trip() {
    let item = Item::builder()
        .id("1")
        .url("http://example.com/1")
        .content_html("<p>hi</p>")
        .date_published("2017-01-01 10:00:00")
        .build()
        .unwrap();
    let feed = Feed::builder()
        .title("t")
        .home_page_url("http://example.com")
        .feed_url("http://example.com/feed.json")
        .description("d")
        .user_comment("c")
        .next_url("http://example.com/2")
        .icon("i")
        .favicon("f")
        .author(Author::new().name("n"))
        .expired(false)
        .hub(Hub { type_: "WebSub".into(), url: "http://hub".into() })
        .item(item)
        .build();
    let json = feed.to_json();
    assert_eq!(Feed::from_json(&json), Ok(feed));
}
