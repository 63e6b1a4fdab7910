//! Normalization: from a document of either wire format to the canonical
//! channel and items.
//!
//! An entry that lacks a required field is left out; the rest of its feed is
//! still processed.

use vstd::prelude::*;
use crate::dates::{date_of, now, optional_date_of, parse_date, parse_optional_date};
use crate::document::{
    AtomEntry,
    AtomEntryView,
    AtomFeed,
    AtomHeadView,
    FeedType,
    FeedTypeView,
    ItemType,
    ItemTypeView,
    RssChannel,
    RssChannelView,
    RssItem,
    RssItemView,
};
use crate::models::{Channel, ChannelView, Error, Item, ItemView, Timestamp};

verus! {

/// The channel that an RSS document describes, polled from `url` at the
/// instant `at`.
pub open spec fn channel_of_rss(feed: RssChannelView, url: Seq<char>, at: Timestamp)
    -> ChannelView {
    ChannelView {
        title: feed.title,
        description: Some(feed.description),
        site_link: feed.link,
        feed_link: url,
        updated_at: at,
    }
}

/// The channel that an Atom feed describes, polled from `url` at the instant
/// `at`. Its site link is the feed's first link; a feed without a link
/// describes no channel.
pub open spec fn channel_of_atom(head: AtomHeadView, url: Seq<char>, at: Timestamp) -> Result<
    ChannelView,
    Error,
> {
    if head.links.len() == 0 {
        Err(Error::NormalizeError)
    } else {
        Ok(
            ChannelView {
                title: head.title,
                description: head.subtitle,
                site_link: head.links[0],
                feed_link: url,
                updated_at: at,
            },
        )
    }
}

/// The canonical item that an RSS item stands for, given the instant its
/// publication date was read as. An item without guid, title or link stands
/// for none.
pub open spec fn item_of_rss(item: RssItemView, published: Option<Timestamp>) -> Result<
    ItemView,
    Error,
> {
    match (item.guid, item.title, item.link) {
        (Some(guid), Some(title), Some(link)) => Ok(
            ItemView {
                guid,
                link,
                title,
                summary: item.description,
                content: item.content,
                published_at: published,
                updated_at: published,
            },
        ),
        _ => Err(Error::NormalizeError),
    }
}

/// Whether an Atom entry has its required fields. An Atom document gives an
/// absent id or title as empty text, so an empty one counts as missing.
pub open spec fn atom_entry_complete(entry: AtomEntryView) -> bool {
    entry.id.len() > 0 && entry.title.len() > 0 && entry.links.len() > 0
}

/// The canonical item that an Atom entry stands for, given the instants its
/// two dates were read as. Its link is the entry's first link; an entry
/// without id, title or link stands for none.
pub open spec fn item_of_atom(
    entry: AtomEntryView,
    published: Option<Timestamp>,
    updated: Option<Timestamp>,
) -> Result<ItemView, Error> {
    if !atom_entry_complete(entry) {
        Err(Error::NormalizeError)
    } else {
        Ok(
            ItemView {
                guid: entry.id,
                link: entry.links[0],
                title: entry.title,
                summary: entry.summary,
                content: entry.content,
                published_at: published,
                updated_at: updated,
            },
        )
    }
}

/// The canonical item of an RSS item, with its date read from its text.
pub open spec fn normal_rss_item(item: RssItemView) -> Option<ItemView> {
    match item_of_rss(item, optional_date_of(item.pub_date)) {
        Ok(normal) => Some(normal),
        Err(_) => None,
    }
}

/// The canonical item of an Atom entry, with its dates read from their
/// texts.
pub open spec fn normal_atom_entry(entry: AtomEntryView) -> Option<ItemView> {
    match item_of_atom(entry, optional_date_of(entry.published), date_of(entry.updated)) {
        Ok(normal) => Some(normal),
        Err(_) => None,
    }
}

/// The canonical items of a list of RSS items: those that have all required
/// fields, in document order.
pub open spec fn items_of_rss(items: Seq<RssItemView>) -> Seq<ItemView> {
    items.filter_map(|item: RssItemView| normal_rss_item(item))
}

/// The canonical items of a list of Atom entries: those that have all
/// required fields, in document order.
pub open spec fn items_of_atom(entries: Seq<AtomEntryView>) -> Seq<ItemView> {
    entries.filter_map(|entry: AtomEntryView| normal_atom_entry(entry))
}

/// The canonical items of the entries of a document of either format.
pub open spec fn items_of(entries: ItemTypeView) -> Seq<ItemView> {
    match entries {
        ItemTypeView::Item(items) => items_of_rss(items),
        ItemTypeView::Entry(entries) => items_of_atom(entries),
    }
}

/// The model of the result of normalizing one entry.
pub open spec fn item_result_view(r: Result<Item, Error>) -> Result<ItemView, Error> {
    match r {
        Ok(item) => Ok(item@),
        Err(e) => Err(e),
    }
}

/// The model of the result of normalizing a channel.
pub open spec fn channel_result_view(r: Result<Channel, Error>) -> Result<ChannelView, Error> {
    match r {
        Ok(channel) => Ok(channel@),
        Err(e) => Err(e),
    }
}

/// Copies an optional text.
fn copy_text(text: &Option<String>) -> (r: Option<String>)
    ensures
        r.deep_view() == text.deep_view(),
{
    match text {
        Some(t) => Some(t.clone()),
        None => None,
    }
}

impl Channel {
    /// The channel of an RSS document polled from `url` at the instant `at`.
    pub fn from_rss_at(feed: &RssChannel, url: &str, at: Timestamp) -> (c: Channel)
        ensures
            c@ == channel_of_rss(feed@, url@, at),
    {
        Channel {
            title: feed.title.clone(),
            description: Some(feed.description.clone()),
            site_link: feed.link.clone(),
            feed_link: url.to_owned(),
            updated_at: at,
        }
    }

    /// The channel of an RSS document polled from `url` just now. Title,
    /// site link and description come from the document, the feed link is
    /// `url`, and `updated_at` is the reading of the clock.
    pub fn from_rss(feed: &RssChannel, url: &str) -> (c: Channel)
        ensures
            c@ == channel_of_rss(feed@, url@, c.updated_at),
    {
        Channel::from_rss_at(feed, url, now())
    }

    /// The channel of an Atom feed polled from `url` at the instant `at`, or
    /// a normalization error where the feed has no link.
    pub fn from_atom_at(feed: &AtomFeed, url: &str, at: Timestamp) -> (r: Result<Channel, Error>)
        ensures
            channel_result_view(r) == channel_of_atom(feed@.head, url@, at),
    {
        if feed.head.links.len() == 0 {
            return Err(Error::NormalizeError);
        }
        Ok(
            Channel {
                title: feed.head.title.clone(),
                description: copy_text(&feed.head.subtitle),
                site_link: feed.head.links[0].clone(),
                feed_link: url.to_owned(),
                updated_at: at,
            },
        )
    }

    /// The channel of an Atom feed polled from `url` just now, or a
    /// normalization error where the feed has no link. Title, site link and
    /// subtitle come from the document, the feed link is `url`, and
    /// `updated_at` is the reading of the clock.
    pub fn from_atom(feed: &AtomFeed, url: &str) -> (r: Result<Channel, Error>)
        ensures
            r is Ok <==> feed@.head.links.len() > 0,
            r matches Err(e) ==> e == Error::NormalizeError,
            r matches Ok(c) ==> channel_of_atom(feed@.head, url@, c.updated_at) == Ok::<
                ChannelView,
                Error,
            >(c@),
    {
        Channel::from_atom_at(feed, url, now())
    }
}

impl Item {
    /// The canonical item of an RSS item whose publication date was read as
    /// `published`, or a normalization error where guid, title or link is
    /// missing.
    pub fn from_item_dated(item: &RssItem, published: Option<Timestamp>) -> (r: Result<Item, Error>)
        ensures
            item_result_view(r) == item_of_rss(item@, published),
    {
        match (&item.guid, &item.title, &item.link) {
            (Some(guid), Some(title), Some(link)) => Ok(
                Item {
                    guid: guid.clone(),
                    link: link.clone(),
                    title: title.clone(),
                    summary: copy_text(&item.description),
                    content: copy_text(&item.content),
                    published_at: published,
                    updated_at: published,
                },
            ),
            _ => Err(Error::NormalizeError),
        }
    }

    /// The canonical item of an RSS item, or a normalization error where
    /// guid, title or link is missing. Both dates are the item's `pubDate`.
    pub fn from_item(item: &RssItem) -> (r: Result<Item, Error>)
        ensures
            item_result_view(r) == item_of_rss(item@, optional_date_of(item@.pub_date)),
    {
        let published = parse_optional_date(&item.pub_date);
        Item::from_item_dated(item, published)
    }

    /// The canonical item of an Atom entry whose dates were read as
    /// `published` and `updated`, or a normalization error where id, title
    /// or link is missing.
    pub fn from_entry_dated(
        entry: &AtomEntry,
        published: Option<Timestamp>,
        updated: Option<Timestamp>,
    ) -> (r: Result<Item, Error>)
        ensures
            item_result_view(r) == item_of_atom(entry@, published, updated),
    {
        if entry.id.as_str().is_empty() || entry.title.as_str().is_empty() || entry.links.len()
            == 0 {
            return Err(Error::NormalizeError);
        }
        Ok(
            Item {
                guid: entry.id.clone(),
                link: entry.links[0].clone(),
                title: entry.title.clone(),
                summary: copy_text(&entry.summary),
                content: copy_text(&entry.content),
                published_at: published,
                updated_at: updated,
            },
        )
    }

    /// The canonical item of an Atom entry, or a normalization error where
    /// id, title or link is missing.
    pub fn from_entry(entry: &AtomEntry) -> (r: Result<Item, Error>)
        ensures
            item_result_view(r) == item_of_atom(
                entry@,
                optional_date_of(entry@.published),
                date_of(entry@.updated),
            ),
    {
        let published = parse_optional_date(&entry.published);
        let updated = parse_date(entry.updated.as_str());
        Item::from_entry_dated(entry, published, updated)
    }
}

/// Normalizes the items of an RSS channel, leaving out those that lack a
/// required field.
pub fn process_items(feed_items: &Vec<RssItem>) -> (items: Vec<Item>)
    ensures
        items.deep_view() == items_of_rss(feed_items.deep_view()),
{
    let ghost all = feed_items.deep_view();
    let ghost pick = |item: RssItemView| normal_rss_item(item);
    let mut items: Vec<Item> = Vec::new();
    assert(all.take(0) =~= Seq::<RssItemView>::empty());
    assert(items.deep_view() =~= all.take(0).filter_map(pick));
    for i in 0..feed_items.len()
        invariant
            all == feed_items.deep_view(),
            pick == |item: RssItemView| normal_rss_item(item),
            items.deep_view() == all.take(i as int).filter_map(pick),
    {
        let ghost before = items.deep_view();
        proof {
            all.lemma_filter_map_take_succ(pick, i as int);
        }
        match Item::from_item(&feed_items[i]) {
            Ok(item) => {
                items.push(item);
                assert(items.deep_view() =~= before + seq![item@]);
            },
            Err(_) => {
                assert(before + Seq::<ItemView>::empty() =~= before);
            },
        }
    }
    assert(all.take(all.len() as int) =~= all);
    items
}

/// Normalizes the entries of an Atom feed, leaving out those that lack a
/// required field.
pub fn process_entries(feed_items: &Vec<AtomEntry>) -> (items: Vec<Item>)
    ensures
        items.deep_view() == items_of_atom(feed_items.deep_view()),
{
    let ghost all = feed_items.deep_view();
    let ghost pick = |entry: AtomEntryView| normal_atom_entry(entry);
    let mut items: Vec<Item> = Vec::new();
    assert(all.take(0) =~= Seq::<AtomEntryView>::empty());
    assert(items.deep_view() =~= all.take(0).filter_map(pick));
    for i in 0..feed_items.len()
        invariant
            all == feed_items.deep_view(),
            pick == |entry: AtomEntryView| normal_atom_entry(entry),
            items.deep_view() == all.take(i as int).filter_map(pick),
    {
        let ghost before = items.deep_view();
        proof {
            all.lemma_filter_map_take_succ(pick, i as int);
        }
        match Item::from_entry(&feed_items[i]) {
            Ok(item) => {
                items.push(item);
                assert(items.deep_view() =~= before + seq![item@]);
            },
            Err(_) => {
                assert(before + Seq::<ItemView>::empty() =~= before);
            },
        }
    }
    assert(all.take(all.len() as int) =~= all);
    items
}

/// Normalizes the entries of a document of either format.
pub fn consume_item_types(parsed: &ItemType) -> (items: Vec<Item>)
    ensures
        items.deep_view() == items_of(parsed@),
{
    match parsed {
        ItemType::Item(items) => process_items(items),
        ItemType::Entry(entries) => process_entries(entries),
    }
}

/// The channel that a document describes, polled from `url` at the instant
/// `at`.
pub open spec fn channel_of(parsed: FeedTypeView, url: Seq<char>, at: Timestamp) -> Result<
    ChannelView,
    Error,
> {
    match parsed {
        FeedTypeView::RSS(feed) => Ok(channel_of_rss(feed, url, at)),
        FeedTypeView::Atom(feed) => channel_of_atom(feed.head, url, at),
    }
}

/// The entries of a document.
pub open spec fn entries_of(parsed: FeedTypeView) -> ItemTypeView {
    match parsed {
        FeedTypeView::RSS(feed) => ItemTypeView::Item(feed.items),
        FeedTypeView::Atom(feed) => ItemTypeView::Entry(feed.entries),
    }
}

/// Whether a document describes a channel: every RSS document does, an Atom
/// feed does when it has a link.
pub open spec fn describes_channel(parsed: FeedTypeView) -> bool {
    match parsed {
        FeedTypeView::RSS(_) => true,
        FeedTypeView::Atom(feed) => feed.head.links.len() > 0,
    }
}

/// Splits a parsed document into its channel, polled from `url` just now,
/// and its entries. Fails, with a normalization error, exactly when the
/// document describes no channel.
pub fn consume_feed_data(parsed: FeedType, url: &str) -> (r: Result<(Channel, ItemType), Error>)
    ensures
        r is Ok <==> describes_channel(parsed@),
        r matches Err(e) ==> e == Error::NormalizeError,
        r matches Ok(parts) ==> channel_of(parsed@, url@, parts.0.updated_at) == Ok::<
            ChannelView,
            Error,
        >(parts.0@) && parts.1@ == entries_of(parsed@),
{
    match parsed {
        FeedType::RSS(feed) => {
            let channel = Channel::from_rss(&feed, url);
            Ok((channel, ItemType::Item(feed.items)))
        },
        FeedType::Atom(feed) => {
            match Channel::from_atom(&feed, url) {
                Ok(channel) => Ok((channel, ItemType::Entry(feed.entries))),
                Err(e) => Err(e),
            }
        },
    }
}

} // verus!
