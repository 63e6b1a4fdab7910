//! The canonical data model shared by every stage of the pipeline.
//!
//! Every type that owns text has a view in which the text is a `Seq<char>`;
//! the contracts of the pipeline are stated over these views.

use vstd::prelude::*;

verus! {

/// Why a pipeline run, or one item of it, was given up.
#[derive(Debug, Clone, Copy, PartialEq, Eq, Structural)]
pub enum Error {
    /// The transport could not deliver the document.
    FetchError,
    /// The document is neither RSS nor Atom, or is not well formed.
    ParseError,
    /// A required field is missing.
    NormalizeError,
}

/// An instant on the UTC time line: whole seconds since the Unix epoch and
/// the nanoseconds past that second. Two instants are the same exactly when
/// both fields agree.
#[derive(Debug, Clone, Copy, PartialEq, Eq, Structural)]
pub struct Timestamp {
    pub secs: i64,
    pub nanos: u32,
}

/// Metadata of one feed.
#[derive(Debug, Clone, PartialEq, Eq)]
pub struct Channel {
    pub title: String,
    pub description: Option<String>,
    pub site_link: String,
    /// The polled URL; never taken from the document.
    pub feed_link: String,
    pub updated_at: Timestamp,
}

/// Mathematical model of a [`Channel`].
pub struct ChannelView {
    pub title: Seq<char>,
    pub description: Option<Seq<char>>,
    pub site_link: Seq<char>,
    pub feed_link: Seq<char>,
    pub updated_at: Timestamp,
}

impl View for Channel {
    type V = ChannelView;

    open spec fn view(&self) -> ChannelView {
        ChannelView {
            title: self.title@,
            description: self.description.deep_view(),
            site_link: self.site_link@,
            feed_link: self.feed_link@,
            updated_at: self.updated_at,
        }
    }
}

impl DeepView for Channel {
    type V = ChannelView;

    open spec fn deep_view(&self) -> ChannelView {
        self@
    }
}

/// One entry of a feed in canonical form, keyed by `guid` within its feed.
#[derive(Debug, Clone, PartialEq, Eq)]
pub struct Item {
    pub guid: String,
    pub link: String,
    pub title: String,
    pub summary: Option<String>,
    pub content: Option<String>,
    pub published_at: Option<Timestamp>,
    pub updated_at: Option<Timestamp>,
}

/// Mathematical model of an [`Item`].
pub struct ItemView {
    pub guid: Seq<char>,
    pub link: Seq<char>,
    pub title: Seq<char>,
    pub summary: Option<Seq<char>>,
    pub content: Option<Seq<char>>,
    pub published_at: Option<Timestamp>,
    pub updated_at: Option<Timestamp>,
}

impl View for Item {
    type V = ItemView;

    open spec fn view(&self) -> ItemView {
        ItemView {
            guid: self.guid@,
            link: self.link@,
            title: self.title@,
            summary: self.summary.deep_view(),
            content: self.content.deep_view(),
            published_at: self.published_at,
            updated_at: self.updated_at,
        }
    }
}

impl DeepView for Item {
    type V = ItemView;

    open spec fn deep_view(&self) -> ItemView {
        self@
    }
}

/// A feed after normalization: its channel and its items in document order.
#[derive(Debug, Clone, PartialEq, Eq)]
pub struct Feed {
    pub channel: Channel,
    pub items: Vec<Item>,
}

/// Mathematical model of a [`Feed`].
pub struct FeedView {
    pub channel: ChannelView,
    pub items: Seq<ItemView>,
}

impl View for Feed {
    type V = FeedView;

    open spec fn view(&self) -> FeedView {
        FeedView { channel: self.channel@, items: self.items.deep_view() }
    }
}

/// What storage remembers of an item for the purpose of reconciliation.
#[derive(Debug, Clone, PartialEq, Eq)]
pub struct StoredItem {
    /// Assigned by storage, immutable afterwards.
    pub id: i32,
    pub feed_id: i32,
    pub guid: String,
    pub published_at: Option<Timestamp>,
}

/// Mathematical model of a [`StoredItem`].
pub struct StoredItemView {
    pub id: i32,
    pub feed_id: i32,
    pub guid: Seq<char>,
    pub published_at: Option<Timestamp>,
}

impl View for StoredItem {
    type V = StoredItemView;

    open spec fn view(&self) -> StoredItemView {
        StoredItemView {
            id: self.id,
            feed_id: self.feed_id,
            guid: self.guid@,
            published_at: self.published_at,
        }
    }
}

impl DeepView for StoredItem {
    type V = StoredItemView;

    open spec fn deep_view(&self) -> StoredItemView {
        self@
    }
}

/// The read state of one item for one user.
#[derive(Debug, Clone, Copy, PartialEq, Eq, Structural)]
pub struct SubscribedItem {
    pub user_id: i32,
    pub item_id: i32,
    pub seen: bool,
}

} // verus!
