use vstd::prelude::*;

use crate::content::{decode_content, Content, ContentV};
use crate::error::{Error, ErrorV};
use crate::feed::{
    attachment_list_view, author_list_view, default_feed, hub_list_view, Attachment, AttachmentV, Author,
    AuthorV, Feed, FeedV, Hub, HubV,
};
use crate::item::{Item, ItemV};
use crate::json::{opt_str_view, str_list_view};

verus! {

/// Builds a feed by setting fields one at a time. Setters replace the value
/// they set; `item` and `hub` append.
pub struct Builder {
    feed: Feed,
}

impl View for Builder {
    type V = FeedV;

    closed spec fn view(&self) -> FeedV {
        self.feed@
    }
}

impl Builder {
    /// A builder holding the default feed.
    pub fn new() -> (r: Builder)
        ensures
            r@ == default_feed(),
    {
        Builder { feed: Feed::default() }
    }

    /// Sets the title.
    pub fn title(self, title: &str) -> (r: Builder)
        ensures
            r@ == (FeedV { title: title@, ..self@ }),
    {
        Builder { feed: Feed { title: title.to_owned(), ..self.feed } }
    }

    /// Sets home page.
    pub fn home_page_url(self, home_page_url: &str) -> (r: Builder)
        ensures
            r@ == (FeedV { home_page_url: Some(home_page_url@), ..self@ }),
    {
        Builder { feed: Feed { home_page_url: Some(home_page_url.to_owned()), ..self.feed } }
    }

    /// Sets address of the feed.
    pub fn feed_url(self, feed_url: &str) -> (r: Builder)
        ensures
            r@ == (FeedV { feed_url: Some(feed_url@), ..self@ }),
    {
        Builder { feed: Feed { feed_url: Some(feed_url.to_owned()), ..self.feed } }
    }

    /// Sets description.
    pub fn description(self, description: &str) -> (r: Builder)
        ensures
            r@ == (FeedV { description: Some(description@), ..self@ }),
    {
        Builder { feed: Feed { description: Some(description.to_owned()), ..self.feed } }
    }

    /// Sets note for readers.
    pub fn user_comment(self, user_comment: &str) -> (r: Builder)
        ensures
            r@ == (FeedV { user_comment: Some(user_comment@), ..self@ }),
    {
        Builder { feed: Feed { user_comment: Some(user_comment.to_owned()), ..self.feed } }
    }

    /// Sets next page.
    pub fn next_url(self, next_url: &str) -> (r: Builder)
        ensures
            r@ == (FeedV { next_url: Some(next_url@), ..self@ }),
    {
        Builder { feed: Feed { next_url: Some(next_url.to_owned()), ..self.feed } }
    }

    /// Sets icon.
    pub fn icon(self, icon: &str) -> (r: Builder)
        ensures
            r@ == (FeedV { icon: Some(icon@), ..self@ }),
    {
        Builder { feed: Feed { icon: Some(icon.to_owned()), ..self.feed } }
    }

    /// Sets favicon.
    pub fn favicon(self, favicon: &str) -> (r: Builder)
        ensures
            r@ == (FeedV { favicon: Some(favicon@), ..self@ }),
    {
        Builder { feed: Feed { favicon: Some(favicon.to_owned()), ..self.feed } }
    }

    /// Sets the author.
    pub fn author(self, author: Author) -> (r: Builder)
        ensures
            r@ == (FeedV { author: Some(author@), ..self@ }),
    {
        Builder { feed: Feed { author: Some(author), ..self.feed } }
    }

    /// Sets whether the feed is finished.
    pub fn expired(self, expired: bool) -> (r: Builder)
        ensures
            r@ == (FeedV { expired: Some(expired), ..self@ }),
    {
        Builder { feed: Feed { expired: Some(expired), ..self.feed } }
    }

    /// Appends an item.
    pub fn item(self, item: Item) -> (r: Builder)
        ensures
            r@ == (FeedV { items: self@.items.push(item@), ..self@ }),
    {
        let ghost iv = item@;
        let mut feed = self.feed;
        feed.items.push(item);
        assert(feed.items@.map_values(|x: Item| x@) =~= self@.items.push(iv));
        Builder { feed }
    }

    /// Appends a hub.
    pub fn hub(self, hub: Hub) -> (r: Builder)
        ensures
            r@ == (FeedV { hubs: Some(listed(self@.hubs).push(hub@)), ..self@ }),
    {
        let ghost hv = hub@;
        let mut feed = self.feed;
        let mut hubs = match feed.hubs {
            Some(v) => v,
            None => Vec::new(),
        };
        hubs.push(hub);
        assert(hubs@.map_values(|x: Hub| x@) =~= listed(self@.hubs).push(hv));
        Builder { feed: Feed { hubs: Some(hubs), ..feed } }
    }

    /// The feed built so far.
    pub fn build(self) -> (r: Feed)
        ensures
            r@ == self@,
    {
        self.feed
    }
}

/// The elements of an optional list; none when unset.
pub open spec fn listed<T>(o: Option<Seq<T>>) -> Seq<T> {
    match o {
        Some(xs) => xs,
        None => Seq::empty(),
    }
}

/// Builds an item by setting fields one at a time. Setters replace the value
/// they set; `author`, `tag` and `attachment` append. Content is checked when
/// the item is built.
pub struct ItemBuilder {
    id: String,
    language: Option<String>,
    url: Option<String>,
    external_url: Option<String>,
    title: Option<String>,
    content_html: Option<String>,
    content_text: Option<String>,
    summary: Option<String>,
    image: Option<String>,
    banner_image: Option<String>,
    date_published: Option<String>,
    date_modified: Option<String>,
    authors: Option<Vec<Author>>,
    tags: Option<Vec<String>>,
    attachments: Option<Vec<Attachment>>,
}

/// Mathematical model of [`ItemBuilder`].
pub struct ItemBuilderV {
    pub id: Seq<char>,
    pub language: Option<Seq<char>>,
    pub url: Option<Seq<char>>,
    pub external_url: Option<Seq<char>>,
    pub title: Option<Seq<char>>,
    pub content_html: Option<Seq<char>>,
    pub content_text: Option<Seq<char>>,
    pub summary: Option<Seq<char>>,
    pub image: Option<Seq<char>>,
    pub banner_image: Option<Seq<char>>,
    pub date_published: Option<Seq<char>>,
    pub date_modified: Option<Seq<char>>,
    pub authors: Option<Seq<AuthorV>>,
    pub tags: Option<Seq<Seq<char>>>,
    pub attachments: Option<Seq<AttachmentV>>,
}

impl View for ItemBuilder {
    type V = ItemBuilderV;

    closed spec fn view(&self) -> ItemBuilderV {
        ItemBuilderV {
            id: self.id@,
            language: opt_str_view(self.language),
            url: opt_str_view(self.url),
            external_url: opt_str_view(self.external_url),
            title: opt_str_view(self.title),
            content_html: opt_str_view(self.content_html),
            content_text: opt_str_view(self.content_text),
            summary: opt_str_view(self.summary),
            image: opt_str_view(self.image),
            banner_image: opt_str_view(self.banner_image),
            date_published: opt_str_view(self.date_published),
            date_modified: opt_str_view(self.date_modified),
            authors: author_list_view(self.authors),
            tags: str_list_view(self.tags),
            attachments: attachment_list_view(self.attachments),
        }
    }
}

/// The item that a builder makes: it fails when neither content field was set.
pub open spec fn build_item(b: ItemBuilderV) -> Result<ItemV, ErrorV> {
    match decode_content(b.content_html, b.content_text) {
        Err(_) => Err(ErrorV::MissingContent),
        Ok(content) => Ok(
            ItemV {
                id: b.id,
                language: b.language,
                url: b.url,
                external_url: b.external_url,
                title: b.title,
                content,
                summary: b.summary,
                image: b.image,
                banner_image: b.banner_image,
                date_published: b.date_published,
                date_modified: b.date_modified,
                authors: b.authors,
                tags: b.tags,
                attachments: b.attachments,
            },
        ),
    }
}

impl Item {
    /// An item builder with an empty id and nothing else set.
    pub fn builder() -> (r: ItemBuilder)
        ensures
            r@ == (ItemBuilderV {
                id: Seq::empty(),
                language: None,
                url: None,
                external_url: None,
                title: None,
                content_html: None,
                content_text: None,
                summary: None,
                image: None,
                banner_image: None,
                date_published: None,
                date_modified: None,
                authors: None,
                tags: None,
                attachments: None,
            }),
    {
        ItemBuilder {
            id: String::new(),
            language: None,
            url: None,
            external_url: None,
            title: None,
            content_html: None,
            content_text: None,
            summary: None,
            image: None,
            banner_image: None,
            date_published: None,
            date_modified: None,
            authors: None,
            tags: None,
            attachments: None,
        }
    }
}

impl ItemBuilder {
    /// Sets the id.
    pub fn id(self, id: &str) -> (r: ItemBuilder)
        ensures
            r@ == (ItemBuilderV { id: id@, ..self@ }),
    {
        ItemBuilder { id: id.to_owned(), ..self }
    }

    /// Sets `language`.
    pub fn language(self, language: &str) -> (r: ItemBuilder)
        ensures
            r@ == (ItemBuilderV { language: Some(language@), ..self@ }),
    {
        ItemBuilder { language: Some(language.to_owned()), ..self }
    }

    /// Sets `url`.
    pub fn url(self, url: &str) -> (r: ItemBuilder)
        ensures
            r@ == (ItemBuilderV { url: Some(url@), ..self@ }),
    {
        ItemBuilder { url: Some(url.to_owned()), ..self }
    }

    /// Sets `external_url`.
    pub fn external_url(self, external_url: &str) -> (r: ItemBuilder)
        ensures
            r@ == (ItemBuilderV { external_url: Some(external_url@), ..self@ }),
    {
        ItemBuilder { external_url: Some(external_url.to_owned()), ..self }
    }

    /// Sets `title`.
    pub fn title(self, title: &str) -> (r: ItemBuilder)
        ensures
            r@ == (ItemBuilderV { title: Some(title@), ..self@ }),
    {
        ItemBuilder { title: Some(title.to_owned()), ..self }
    }

    /// Sets `content_html`.
    pub fn content_html(self, content_html: &str) -> (r: ItemBuilder)
        ensures
            r@ == (ItemBuilderV { content_html: Some(content_html@), ..self@ }),
    {
        ItemBuilder { content_html: Some(content_html.to_owned()), ..self }
    }

    /// Sets `content_text`.
    pub fn content_text(self, content_text: &str) -> (r: ItemBuilder)
        ensures
            r@ == (ItemBuilderV { content_text: Some(content_text@), ..self@ }),
    {
        ItemBuilder { content_text: Some(content_text.to_owned()), ..self }
    }

    /// Sets `summary`.
    pub fn summary(self, summary: &str) -> (r: ItemBuilder)
        ensures
            r@ == (ItemBuilderV { summary: Some(summary@), ..self@ }),
    {
        ItemBuilder { summary: Some(summary.to_owned()), ..self }
    }

    /// Sets `image`.
    pub fn image(self, image: &str) -> (r: ItemBuilder)
        ensures
            r@ == (ItemBuilderV { image: Some(image@), ..self@ }),
    {
        ItemBuilder { image: Some(image.to_owned()), ..self }
    }

    /// Sets `banner_image`.
    pub fn banner_image(self, banner_image: &str) -> (r: ItemBuilder)
        ensures
            r@ == (ItemBuilderV { banner_image: Some(banner_image@), ..self@ }),
    {
        ItemBuilder { banner_image: Some(banner_image.to_owned()), ..self }
    }

    /// Sets `date_published`.
    pub fn date_published(self, date_published: &str) -> (r: ItemBuilder)
        ensures
            r@ == (ItemBuilderV { date_published: Some(date_published@), ..self@ }),
    {
        ItemBuilder { date_published: Some(date_published.to_owned()), ..self }
    }

    /// Sets `date_modified`.
    pub fn date_modified(self, date_modified: &str) -> (r: ItemBuilder)
        ensures
            r@ == (ItemBuilderV { date_modified: Some(date_modified@), ..self@ }),
    {
        ItemBuilder { date_modified: Some(date_modified.to_owned()), ..self }
    }

    /// Appends an author.
    pub fn author(self, author: Author) -> (r: ItemBuilder)
        ensures
            r@ == (ItemBuilderV { authors: Some(listed(self@.authors).push(author@)), ..self@ }),
    {
        let ghost av = author@;
        let mut b = self;
        let mut v = match b.authors {
            Some(v) => v,
            None => Vec::new(),
        };
        v.push(author);
        assert(v@.map_values(|x: Author| x@) =~= listed(self@.authors).push(av));
        ItemBuilder { authors: Some(v), ..b }
    }

    /// Appends a tag.
    pub fn tag(self, tag: &str) -> (r: ItemBuilder)
        ensures
            r@ == (ItemBuilderV { tags: Some(listed(self@.tags).push(tag@)), ..self@ }),
    {
        let mut b = self;
        let mut v = match b.tags {
            Some(v) => v,
            None => Vec::new(),
        };
        v.push(tag.to_owned());
        assert(v@.map_values(|x: String| x@) =~= listed(self@.tags).push(tag@));
        ItemBuilder { tags: Some(v), ..b }
    }

    /// Appends an attachment.
    pub fn attachment(self, attachment: Attachment) -> (r: ItemBuilder)
        ensures
            r@ == (ItemBuilderV { attachments: Some(listed(self@.attachments).push(attachment@)), ..self@ }),
    {
        let ghost av = attachment@;
        let mut b = self;
        let mut v = match b.attachments {
            Some(v) => v,
            None => Vec::new(),
        };
        v.push(attachment);
        assert(v@.map_values(|x: Attachment| x@) =~= listed(self@.attachments).push(av));
        ItemBuilder { attachments: Some(v), ..b }
    }

    /// The item, or `MissingContent` when neither `content_html` nor
    /// `content_text` was set.
    pub fn build(self) -> (r: Result<Item, Error>)
        ensures
            crate::error::result_matches(r, build_item(self@)),
    {
        let content = match Content::decode(self.content_html, self.content_text) {
            Ok(c) => c,
            Err(_) => {
                return Err(Error::MissingContent);
            },
        };
        Ok(
            Item {
                id: self.id,
                language: self.language,
                url: self.url,
                external_url: self.external_url,
                title: self.title,
                content,
                summary: self.summary,
                image: self.image,
                banner_image: self.banner_image,
                date_published: self.date_published,
                date_modified: self.date_modified,
                authors: self.authors,
                tags: self.tags,
                attachments: self.attachments,
            },
        )
    }
}

} // verus!
