//! Feed documents as the two wire formats give them, before normalization.
//!
//! These types hold, as plain text, the fields of an RSS channel or an Atom
//! feed that the pipeline reads. Date fields are kept as written.

use vstd::prelude::*;

verus! {

/// One `<item>` of an RSS channel.
#[derive(Debug, Clone, PartialEq, Eq)]
pub struct RssItem {
    pub guid: Option<String>,
    pub title: Option<String>,
    pub link: Option<String>,
    pub description: Option<String>,
    pub content: Option<String>,
    pub pub_date: Option<String>,
}

/// Mathematical model of an [`RssItem`].
pub struct RssItemView {
    pub guid: Option<Seq<char>>,
    pub title: Option<Seq<char>>,
    pub link: Option<Seq<char>>,
    pub description: Option<Seq<char>>,
    pub content: Option<Seq<char>>,
    pub pub_date: Option<Seq<char>>,
}

impl View for RssItem {
    type V = RssItemView;

    open spec fn view(&self) -> RssItemView {
        RssItemView {
            guid: self.guid.deep_view(),
            title: self.title.deep_view(),
            link: self.link.deep_view(),
            description: self.description.deep_view(),
            content: self.content.deep_view(),
            pub_date: self.pub_date.deep_view(),
        }
    }
}

impl DeepView for RssItem {
    type V = RssItemView;

    open spec fn deep_view(&self) -> RssItemView {
        self@
    }
}

/// An RSS channel document.
#[derive(Debug, Clone, PartialEq, Eq)]
pub struct RssChannel {
    pub title: String,
    pub link: String,
    pub description: String,
    pub items: Vec<RssItem>,
}

/// Mathematical model of an [`RssChannel`].
pub struct RssChannelView {
    pub title: Seq<char>,
    pub link: Seq<char>,
    pub description: Seq<char>,
    pub items: Seq<RssItemView>,
}

impl View for RssChannel {
    type V = RssChannelView;

    open spec fn view(&self) -> RssChannelView {
        RssChannelView {
            title: self.title@,
            link: self.link@,
            description: self.description@,
            items: self.items.deep_view(),
        }
    }
}

impl DeepView for RssChannel {
    type V = RssChannelView;

    open spec fn deep_view(&self) -> RssChannelView {
        self@
    }
}

/// One `<entry>` of an Atom feed. `links` holds the `href` of each of the
/// entry's links, in document order.
#[derive(Debug, Clone, PartialEq, Eq)]
pub struct AtomEntry {
    pub id: String,
    pub title: String,
    pub links: Vec<String>,
    pub summary: Option<String>,
    pub content: Option<String>,
    pub published: Option<String>,
    pub updated: String,
}

/// Mathematical model of an [`AtomEntry`].
pub struct AtomEntryView {
    pub id: Seq<char>,
    pub title: Seq<char>,
    pub links: Seq<Seq<char>>,
    pub summary: Option<Seq<char>>,
    pub content: Option<Seq<char>>,
    pub published: Option<Seq<char>>,
    pub updated: Seq<char>,
}

impl View for AtomEntry {
    type V = AtomEntryView;

    open spec fn view(&self) -> AtomEntryView {
        AtomEntryView {
            id: self.id@,
            title: self.title@,
            links: self.links.deep_view(),
            summary: self.summary.deep_view(),
            content: self.content.deep_view(),
            published: self.published.deep_view(),
            updated: self.updated@,
        }
    }
}

impl DeepView for AtomEntry {
    type V = AtomEntryView;

    open spec fn deep_view(&self) -> AtomEntryView {
        self@
    }
}

/// What an Atom feed says of itself, apart from its entries. `links` holds
/// the `href` of each of the feed's links, in document order.
#[derive(Debug, Clone, PartialEq, Eq)]
pub struct AtomHead {
    pub title: String,
    pub links: Vec<String>,
    pub subtitle: Option<String>,
}

/// Mathematical model of an [`AtomHead`].
pub struct AtomHeadView {
    pub title: Seq<char>,
    pub links: Seq<Seq<char>>,
    pub subtitle: Option<Seq<char>>,
}

impl View for AtomHead {
    type V = AtomHeadView;

    open spec fn view(&self) -> AtomHeadView {
        AtomHeadView {
            title: self.title@,
            links: self.links.deep_view(),
            subtitle: self.subtitle.deep_view(),
        }
    }
}

impl DeepView for AtomHead {
    type V = AtomHeadView;

    open spec fn deep_view(&self) -> AtomHeadView {
        self@
    }
}

/// An Atom feed document.
#[derive(Debug, Clone, PartialEq, Eq)]
pub struct AtomFeed {
    pub head: AtomHead,
    pub entries: Vec<AtomEntry>,
}

/// Mathematical model of an [`AtomFeed`].
pub struct AtomFeedView {
    pub head: AtomHeadView,
    pub entries: Seq<AtomEntryView>,
}

impl View for AtomFeed {
    type V = AtomFeedView;

    open spec fn view(&self) -> AtomFeedView {
        AtomFeedView { head: self.head@, entries: self.entries.deep_view() }
    }
}

impl DeepView for AtomFeed {
    type V = AtomFeedView;

    open spec fn deep_view(&self) -> AtomFeedView {
        self@
    }
}

/// A parsed document of either format.
#[derive(Debug, Clone, PartialEq, Eq)]
pub enum FeedType {
    RSS(RssChannel),
    Atom(AtomFeed),
}

/// Mathematical model of a [`FeedType`].
pub enum FeedTypeView {
    RSS(RssChannelView),
    Atom(AtomFeedView),
}

impl View for FeedType {
    type V = FeedTypeView;

    open spec fn view(&self) -> FeedTypeView {
        match self {
            FeedType::RSS(channel) => FeedTypeView::RSS(channel@),
            FeedType::Atom(feed) => FeedTypeView::Atom(feed@),
        }
    }
}

impl DeepView for FeedType {
    type V = FeedTypeView;

    open spec fn deep_view(&self) -> FeedTypeView {
        self@
    }
}

/// The entries of a parsed document of either format, in document order.
#[derive(Debug, Clone, PartialEq, Eq)]
pub enum ItemType {
    Item(Vec<RssItem>),
    Entry(Vec<AtomEntry>),
}

/// Mathematical model of an [`ItemType`].
pub enum ItemTypeView {
    Item(Seq<RssItemView>),
    Entry(Seq<AtomEntryView>),
}

impl View for ItemType {
    type V = ItemTypeView;

    open spec fn view(&self) -> ItemTypeView {
        match self {
            ItemType::Item(items) => ItemTypeView::Item(items.deep_view()),
            ItemType::Entry(entries) => ItemTypeView::Entry(entries.deep_view()),
        }
    }
}

} // verus!
