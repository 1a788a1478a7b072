//! JSON Feed is a syndication format like RSS and Atom, written in JSON.
//!
//! This crate holds the typed model of a feed and the codec between that
//! model and a JSON document tree ([`Json`]). Decoding is strict: unknown or
//! repeated keys are refused, `id` is required of every item, and an item
//! must carry HTML content, text content, or both. Encoding writes keys in a
//! fixed order and leaves out every unset field. Builders assemble feeds and
//! items field by field.
use vstd::prelude::*;

pub mod builder;
pub mod content;
pub mod error;
pub mod feed;
pub mod item;
pub mod json;

pub use builder::{Builder, ItemBuilder};
pub use content::Content;
pub use error::Error;
pub use feed::{Attachment, Author, Feed, Hub};
pub use item::Item;
pub use json::Json;

verus! {

} // verus!
