use feed_aggregator::document::{AtomEntry, AtomFeed, AtomHead, FeedType, RssChannel, RssItem};
use feed_aggregator::models::Error;
use feed_aggregator::parse::{atom_outcome, identify_fetched_data, rss_outcome};
use feed_aggregator::sniff::{classify_tag, sniff, FeedKind};

const RSS: &str = r#"<?xml version="1.0" encoding="UTF-8"?>
<!-- a comment before the root -->
<rss version="2.0" xmlns:content="http://purl.org/rss/1.0/modules/content/">
  <channel>
    <title>Example News</title>
    <link>https://example.org/</link>
    <description>All the news</description>
    <item>
      <title>First</title>
      <link>https://example.org/1</link>
      <guid>tag:example.org,2018:1</guid>
      <description>About the first</description>
      <content:encoded>The whole first</content:encoded>
      <pubDate>Mon, 01 Oct 2018 08:00:00 GMT</pubDate>
    </item>
    <item>
      <title>Second</title>
      <link>https://example.org/2</link>
    </item>
  </channel>
</rss>"#;

const ATOM: &str = r#"<?xml version="1.0" encoding="utf-8"?>
<feed xmlns="http://www.w3.org/2005/Atom">
  <title>Example Feed</title>
  <subtitle>Insert witty tagline</subtitle>
  <link href="https://example.org/"/>
  <link rel="self" href="https://example.org/feed.atom"/>
  <updated>2018-10-02T09:30:00Z</updated>
  <id>urn:uuid:60a76c80-d399-11d9-b93C-0003939e0af6</id>
  <entry>
    <title>Robots</title>
    <link href="https://example.org/robots"/>
    <link rel="alternate" href="https://example.org/robots.html"/>
    <id>urn:uuid:1225c695-cfb8-4ebb-aaaa-80da344efa6a</id>
    <published>2018-10-01T08:00:00Z</published>
    <updated>2018-10-02T09:30:00Z</updated>
    <summary>Some text.</summary>
    <content type="text">All of the text.</content>
  </entry>
  <entry>
    <title>Bare</title>
    <id>urn:uuid:2</id>
    <updated>not a date</updated>
  </entry>
</feed>"#;

fn text(s: &str) -> Option<String> {
    Some(s.to_string())
}

#[test]
fn rss_bytes_route_to_the_rss_parser() {
    let expected = RssChannel {
        title: "Example News".to_string(),
        link: "https://example.org/".to_string(),
        description: "All the news".to_string(),
        items: vec![
            RssItem {
                guid: text("tag:example.org,2018:1"),
                title: text("First"),
                link: text("https://example.org/1"),
                description: text("About the first"),
                content: text("The whole first"),
                pub_date: text("Mon, 01 Oct 2018 08:00:00 GMT"),
            },
            RssItem {
                guid: None,
                title: text("Second"),
                link: text("https://example.org/2"),
                description: None,
                content: None,
                pub_date: None,
            },
        ],
    };
    assert_eq!(identify_fetched_data(RSS.as_bytes()), Ok(FeedType::RSS(expected)));
}

#[test]
fn atom_bytes_route_to_the_atom_parser() {
    let expected = AtomFeed {
        head: AtomHead {
            title: "Example Feed".to_string(),
            links: vec!["https://example.org/".to_string(), "https://example.org/feed.atom".to_string()],
            subtitle: text("Insert witty tagline"),
        },
        entries: vec![
            AtomEntry {
                id: "urn:uuid:1225c695-cfb8-4ebb-aaaa-80da344efa6a".to_string(),
                title: "Robots".to_string(),
                links: vec![
                    "https://example.org/robots".to_string(),
                    "https://example.org/robots.html".to_string(),
                ],
                summary: text("Some text."),
                content: text("All of the text."),
                published: text("2018-10-01T08:00:00Z"),
                updated: "2018-10-02T09:30:00Z".to_string(),
            },
            AtomEntry {
                id: "urn:uuid:2".to_string(),
                title: "Bare".to_string(),
                links: vec![],
                summary: None,
                content: None,
                published: None,
                updated: "not a date".to_string(),
            },
        ],
    };
    assert_eq!(identify_fetched_data(ATOM.as_bytes()), Ok(FeedType::Atom(expected)));
}

#[test]
fn any_other_first_element_is_a_parse_error() {
    assert_eq!(identify_fetched_data(b"<html><body><rss/></body></html>"), Err(Error::ParseError));
    assert_eq!(identify_fetched_data(b"<RSS version=\"2.0\"></RSS>"), Err(Error::ParseError));
    assert_eq!(identify_fetched_data(b"<feeds></feeds>"), Err(Error::ParseError));
    assert_eq!(
        identify_fetched_data(b"<rdf:RDF><channel><title>t</title></channel></rdf:RDF>"),
        Err(Error::ParseError)
    );
}

#[test]
fn input_without_an_element_is_a_parse_error() {
    assert_eq!(identify_fetched_data(b""), Err(Error::ParseError));
    assert_eq!(identify_fetched_data(b"just some text"), Err(Error::ParseError));
    assert_eq!(identify_fetched_data(b"<?xml version=\"1.0\"?><!-- nothing -->"), Err(Error::ParseError));
    assert_eq!(identify_fetched_data(b"<![broken"), Err(Error::ParseError));
}

#[test]
fn bytes_that_are_not_utf8_are_a_parse_error() {
    assert_eq!(identify_fetched_data(&[0x3c, 0x72, 0x73, 0x73, 0x3e, 0xff, 0xfe]), Err(Error::ParseError));
}

#[test]
fn a_malformed_document_of_the_announced_format_is_a_parse_error() {
    assert_eq!(
        identify_fetched_data(b"<rss version=\"2.0\"><channel><title>t</wrong></channel></rss>"),
        Err(Error::ParseError)
    );
    assert_eq!(
        identify_fetched_data(b"<feed><title>t</title><entry><id>1</wrong></entry></feed>"),
        Err(Error::ParseError)
    );
}

#[test]
fn sniffing_reads_the_first_element_tag_only() {
    assert_eq!(sniff("<rss version=\"2.0\"><feed/></rss>"), Some(FeedKind::Rss));
    assert_eq!(sniff("  \n<!-- c --><feed xmlns=\"http://www.w3.org/2005/Atom\"><rss/></feed>"), Some(FeedKind::Atom));
    assert_eq!(sniff("<feed/>"), Some(FeedKind::Atom));
    assert_eq!(sniff("<rss/>"), Some(FeedKind::Rss));
    assert_eq!(sniff("<a><rss></rss></a>"), None);
    assert_eq!(sniff("<a/><rss></rss>"), None);
    assert_eq!(sniff(""), None);
    assert_eq!(sniff("</rss>"), None);
}

#[test]
fn rss_with_syndication_hints_is_read_whatever_they_say() {
    let head = "<rss version=\"2.0\" xmlns:sy=\"http://purl.org/rss/1.0/modules/syndication/\">\
        <channel><title>T</title><link>http://x/</link><description>D</description>";
    let tail = "</channel></rss>";
    for hints in [
        "<sy:updatePeriod>hourly</sy:updatePeriod><sy:updateFrequency>1</sy:updateFrequency>",
        "<sy:updatePeriod>Hourly</sy:updatePeriod>",
        "<sy:updateFrequency>often</sy:updateFrequency>",
        "<sy:updatePeriod></sy:updatePeriod><sy:updateFrequency>-1</sy:updateFrequency>",
    ] {
        let document = format!("{}{}{}", head, hints, tail);
        let expected = RssChannel {
            title: "T".to_string(),
            link: "http://x/".to_string(),
            description: "D".to_string(),
            items: vec![],
        };
        assert_eq!(identify_fetched_data(document.as_bytes()), Ok(FeedType::RSS(expected)));
    }
}

#[test]
fn tag_names_are_matched_exactly() {
    assert_eq!(classify_tag(b"rss"), Some(FeedKind::Rss));
    assert_eq!(classify_tag(b"feed"), Some(FeedKind::Atom));
    assert_eq!(classify_tag(b"rs"), None);
    assert_eq!(classify_tag(b"rsss"), None);
    assert_eq!(classify_tag(b"Feed"), None);
    assert_eq!(classify_tag(b"atom:feed"), None);
    assert_eq!(classify_tag(b""), None);
}

#[test]
fn a_rejected_document_is_a_parse_error() {
    assert_eq!(rss_outcome(None), Err(Error::ParseError));
    assert_eq!(atom_outcome(None), Err(Error::ParseError));
    let head = AtomHead { title: "t".to_string(), links: vec![], subtitle: None };
    let feed = AtomFeed { head, entries: vec![] };
    assert_eq!(atom_outcome(Some(feed.clone())), Ok(FeedType::Atom(feed)));
    let channel = RssChannel {
        title: "t".to_string(),
        link: "l".to_string(),
        description: "d".to_string(),
        items: vec![],
    };
    assert_eq!(rss_outcome(Some(channel.clone())), Ok(FeedType::RSS(channel)));
}
