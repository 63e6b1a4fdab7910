use feed_aggregator::document::{
    AtomEntry, AtomFeed, AtomHead, FeedType, ItemType, RssChannel, RssItem,
};
use feed_aggregator::models::{Channel, Error, Item, Timestamp};
use feed_aggregator::normalize::{
    consume_feed_data, consume_item_types, process_entries, process_items,
};

fn text(s: &str) -> Option<String> {
    Some(s.to_string())
}

fn rss_item(guid: Option<&str>, title: Option<&str>, link: Option<&str>) -> RssItem {
    RssItem {
        guid: guid.map(str::to_string),
        title: title.map(str::to_string),
        link: link.map(str::to_string),
        description: text("about"),
        content: text("whole"),
        pub_date: text("Mon, 01 Oct 2018 08:00:00 GMT"),
    }
}

fn atom_entry(id: &str, title: &str, links: Vec<&str>) -> AtomEntry {
    AtomEntry {
        id: id.to_string(),
        title: title.to_string(),
        links: links.into_iter().map(str::to_string).collect(),
        summary: text("about"),
        content: None,
        published: text("2018-10-01T08:00:00Z"),
        updated: "2018-10-02T09:30:00Z".to_string(),
    }
}

fn rss_channel(items: Vec<RssItem>) -> RssChannel {
    RssChannel {
        title: "Example News".to_string(),
        link: "https://example.org/".to_string(),
        description: "All the news".to_string(),
        items,
    }
}

#[test]
fn rss_channel_fields_are_mapped() {
    let at = Timestamp { secs: 77, nanos: 5 };
    let channel = Channel::from_rss_at(&rss_channel(vec![]), "https://example.org/rss.xml", at);
    assert_eq!(
        channel,
        Channel {
            title: "Example News".to_string(),
            description: text("All the news"),
            site_link: "https://example.org/".to_string(),
            feed_link: "https://example.org/rss.xml".to_string(),
            updated_at: at,
        }
    );
}

#[test]
fn rss_channel_is_stamped_with_the_clock() {
    let channel = Channel::from_rss(&rss_channel(vec![]), "https://example.org/rss.xml");
    assert_eq!(channel.title, "Example News");
    assert_eq!(channel.feed_link, "https://example.org/rss.xml");
    assert!(channel.updated_at.secs > 1_500_000_000);
}

#[test]
fn atom_channel_fields_are_mapped() {
    let head = AtomHead {
        title: "Example Feed".to_string(),
        links: vec!["https://example.org/".to_string(), "https://example.org/self".to_string()],
        subtitle: None,
    };
    let at = Timestamp { secs: 1, nanos: 2 };
    let feed = AtomFeed { head, entries: vec![atom_entry("a", "A", vec!["la"])] };
    assert_eq!(
        Channel::from_atom_at(&feed, "https://example.org/feed.atom", at),
        Ok(Channel {
            title: "Example Feed".to_string(),
            description: None,
            site_link: "https://example.org/".to_string(),
            feed_link: "https://example.org/feed.atom".to_string(),
            updated_at: at,
        })
    );
    let mut with_subtitle = feed.clone();
    with_subtitle.head.subtitle = text("tagline");
    let channel = Channel::from_atom(&with_subtitle, "u").unwrap();
    assert_eq!(channel.description, text("tagline"));
    assert_eq!(channel.site_link, "https://example.org/");
}

#[test]
fn atom_feed_without_link_is_a_normalize_error() {
    let head = AtomHead { title: "t".to_string(), links: vec![], subtitle: None };
    let feed = AtomFeed { head, entries: vec![atom_entry("a", "A", vec!["la"])] };
    assert_eq!(Channel::from_atom(&feed, "u"), Err(Error::NormalizeError));
    let at = Timestamp { secs: 1, nanos: 2 };
    assert_eq!(Channel::from_atom_at(&feed, "u", at), Err(Error::NormalizeError));
    assert_eq!(consume_feed_data(FeedType::Atom(feed), "u").err(), Some(Error::NormalizeError));
}

#[test]
fn rss_item_fields_are_mapped() {
    let source = rss_item(Some("g1"), Some("First"), Some("https://example.org/1"));
    let when = Some(Timestamp { secs: 1538380800, nanos: 0 });
    assert_eq!(
        Item::from_item(&source),
        Ok(Item {
            guid: "g1".to_string(),
            link: "https://example.org/1".to_string(),
            title: "First".to_string(),
            summary: text("about"),
            content: text("whole"),
            published_at: when,
            updated_at: when,
        })
    );
}

#[test]
fn rss_item_with_unreadable_date_has_no_date() {
    let mut source = rss_item(Some("g1"), Some("First"), Some("https://example.org/1"));
    source.pub_date = text("last tuesday");
    let item = Item::from_item(&source).unwrap();
    assert_eq!((item.published_at, item.updated_at), (None, None));
    source.pub_date = None;
    let item = Item::from_item(&source).unwrap();
    assert_eq!((item.published_at, item.updated_at), (None, None));
}

#[test]
fn rss_item_takes_the_date_it_is_given() {
    let source = rss_item(Some("g1"), Some("First"), Some("l"));
    let when = Some(Timestamp { secs: -5, nanos: 9 });
    let item = Item::from_item_dated(&source, when).unwrap();
    assert_eq!((item.published_at, item.updated_at), (when, when));
}

#[test]
fn rss_item_without_guid_title_or_link_is_a_normalize_error() {
    assert_eq!(Item::from_item(&rss_item(None, Some("t"), Some("l"))), Err(Error::NormalizeError));
    assert_eq!(Item::from_item(&rss_item(Some("g"), None, Some("l"))), Err(Error::NormalizeError));
    assert_eq!(Item::from_item(&rss_item(Some("g"), Some("t"), None)), Err(Error::NormalizeError));
    assert_eq!(Item::from_item(&rss_item(None, None, None)), Err(Error::NormalizeError));
}

#[test]
fn atom_entry_fields_are_mapped() {
    let mut source = atom_entry("urn:1", "Robots", vec!["https://example.org/a", "https://example.org/b"]);
    source.content = text("All of it");
    assert_eq!(
        Item::from_entry(&source),
        Ok(Item {
            guid: "urn:1".to_string(),
            link: "https://example.org/a".to_string(),
            title: "Robots".to_string(),
            summary: text("about"),
            content: text("All of it"),
            published_at: Some(Timestamp { secs: 1538380800, nanos: 0 }),
            updated_at: Some(Timestamp { secs: 1538472600, nanos: 0 }),
        })
    );
}

#[test]
fn atom_entry_dates_are_read_independently() {
    let mut source = atom_entry("urn:1", "Robots", vec!["l"]);
    source.published = None;
    source.updated = "Tue, 02 Oct 2018 09:30:00 GMT".to_string();
    let item = Item::from_entry(&source).unwrap();
    assert_eq!(item.published_at, None);
    assert_eq!(item.updated_at, Some(Timestamp { secs: 1538472600, nanos: 0 }));
    let given = Item::from_entry_dated(&source, Some(Timestamp { secs: 1, nanos: 0 }), None).unwrap();
    assert_eq!(given.published_at, Some(Timestamp { secs: 1, nanos: 0 }));
    assert_eq!(given.updated_at, None);
}

#[test]
fn atom_entry_without_id_title_or_link_is_a_normalize_error() {
    assert_eq!(Item::from_entry(&atom_entry("", "t", vec!["l"])), Err(Error::NormalizeError));
    assert_eq!(Item::from_entry(&atom_entry("i", "", vec!["l"])), Err(Error::NormalizeError));
    assert_eq!(Item::from_entry(&atom_entry("i", "t", vec![])), Err(Error::NormalizeError));
}

#[test]
fn an_incomplete_item_is_skipped_and_the_rest_kept() {
    let items = vec![
        rss_item(Some("g1"), Some("One"), Some("l1")),
        rss_item(None, Some("Two"), Some("l2")),
        rss_item(Some("g3"), Some("Three"), Some("l3")),
        rss_item(Some("g4"), Some("Four"), None),
    ];
    let normal = process_items(&items);
    let guids: Vec<&str> = normal.iter().map(|i| i.guid.as_str()).collect();
    assert_eq!(guids, vec!["g1", "g3"]);
    assert_eq!(consume_item_types(&ItemType::Item(items)), normal);
}

#[test]
fn an_incomplete_entry_is_skipped_and_the_rest_kept() {
    let entries = vec![
        atom_entry("a", "A", vec![]),
        atom_entry("b", "B", vec!["lb"]),
        atom_entry("", "C", vec!["lc"]),
        atom_entry("d", "D", vec!["ld", "ld2"]),
    ];
    let normal = process_entries(&entries);
    let links: Vec<&str> = normal.iter().map(|i| i.link.as_str()).collect();
    assert_eq!(links, vec!["lb", "ld"]);
    assert_eq!(consume_item_types(&ItemType::Entry(entries)), normal);
}

#[test]
fn no_entries_normalize_to_no_items() {
    assert_eq!(process_items(&vec![]), vec![]);
    assert_eq!(process_entries(&vec![]), vec![]);
}

#[test]
fn a_document_splits_into_channel_and_entries() {
    let items = vec![rss_item(Some("g1"), Some("One"), Some("l1")), rss_item(None, None, None)];
    let (channel, entries) =
        consume_feed_data(FeedType::RSS(rss_channel(items.clone())), "https://example.org/rss.xml").unwrap();
    assert_eq!(channel.title, "Example News");
    assert_eq!(channel.site_link, "https://example.org/");
    assert_eq!(channel.feed_link, "https://example.org/rss.xml");
    assert_eq!(channel.description, text("All the news"));
    assert_eq!(entries, ItemType::Item(items));

    let head = AtomHead { title: "F".to_string(), links: vec!["s".to_string()], subtitle: None };
    let list = vec![atom_entry("a", "A", vec!["la"])];
    let feed = FeedType::Atom(AtomFeed { head, entries: list.clone() });
    let (channel, entries) = consume_feed_data(feed, "u").unwrap();
    assert_eq!((channel.title.as_str(), channel.site_link.as_str(), channel.feed_link.as_str()), ("F", "s", "u"));
    assert_eq!(channel.description, None);
    assert_eq!(entries, ItemType::Entry(list));
}
