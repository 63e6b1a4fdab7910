//! Parsing: from the bytes of a fetched document to a document of the format
//! that its first element tag announces.

use vstd::prelude::*;
use vstd::utf8::{decode_utf8, valid_utf8};
use vstd::string::StringSliceAdditionalSpecFns;
use crate::document::{
    AtomEntry,
    AtomEntryView,
    AtomFeed,
    AtomFeedView,
    AtomHead,
    AtomHeadView,
    FeedType,
    FeedTypeView,
    RssChannel,
    RssChannelView,
    RssItem,
};
use crate::models::Error;
use crate::sniff::{
    atom_tag,
    first_tag,
    kind_of_tokens,
    lemma_first_tag_at,
    rss_tag,
    sniff,
    xml_tokens,
    FeedKind,
    TokenView,
};

verus! {

/// The channel that the `rss` crate reads from a document, or `None` where
/// it rejects the document.
pub uninterp spec fn rss_document(data: Seq<u8>) -> Option<RssChannelView>;

/// The feed that the `atom_syndication` crate reads from a document, or
/// `None` where it rejects the document.
pub uninterp spec fn atom_document(data: Seq<u8>) -> Option<AtomFeedView>;

/// An `atom_syndication::Feed` as read from a document. The verifier sees
/// nothing of it but what it holds.
#[verifier::external_body]
pub struct AtomSource {
    inner: atom_syndication::Feed,
}

/// The entries that a feed of the `atom_syndication` crate holds, in
/// document order.
pub uninterp spec fn held_entries(feed: AtomSource) -> Seq<AtomEntryView>;

/// What a feed of the `atom_syndication` crate holds apart from its entries:
/// its title, the targets of its links and its subtitle.
pub uninterp spec fn held_head(feed: AtomSource) -> AtomHeadView;

/// Calls `std::str::from_utf8`. Trusted: it succeeds exactly on well-formed
/// UTF-8, and the text it gives has the bytes it was given.
#[verifier::external_body]
fn utf8_text(data: &[u8]) -> (r: Option<&str>)
    ensures
        r is Some <==> valid_utf8(data@),
        r matches Some(text) ==> text.spec_bytes() == data@,
{
    std::str::from_utf8(data).ok()
}

/// Calls `rss::Channel::read_from` and copies out the fields the pipeline
/// reads. Trusted: the outcome depends on the bytes alone, so it is given
/// the name [`rss_document`]; nothing else is claimed of it.
#[verifier::external_body]
fn read_rss(data: &[u8]) -> (r: Option<RssChannel>)
    ensures
        r.deep_view() == rss_document(data@),
{
    rss::Channel::read_from(data).ok().map(|c| RssChannel {
        title: c.title().to_owned(),
        link: c.link().to_owned(),
        description: c.description().to_owned(),
        items: c.items().iter().map(|i| RssItem {
            guid: i.guid().map(|g| g.value().to_owned()),
            title: i.title().map(str::to_owned),
            link: i.link().map(str::to_owned),
            description: i.description().map(str::to_owned),
            content: i.content().map(str::to_owned),
            pub_date: i.pub_date().map(str::to_owned),
        }).collect(),
    })
}

/// Calls `atom_syndication::Feed::read_from`. Trusted: the outcome depends
/// on the bytes alone, so what the feed read holds is given the name
/// [`atom_document`]; nothing else is claimed of it.
#[verifier::external_body]
fn read_atom(data: &[u8]) -> (r: Option<AtomSource>)
    ensures
        match r {
            Some(feed) => atom_document(data@) == Some(
                AtomFeedView { head: held_head(feed), entries: held_entries(feed) },
            ),
            None => atom_document(data@) is None,
        },
{
    atom_syndication::Feed::read_from(data).ok().map(|inner| AtomSource { inner })
}

/// Calls `title`, `links` and `subtitle` of `atom_syndication::Feed`, and
/// `href` of each link. Trusted: the result is what the feed holds apart
/// from its entries.
#[verifier::external_body]
fn copy_head(feed: &AtomSource) -> (r: AtomHead)
    ensures
        r@ == held_head(*feed),
{
    AtomHead {
        title: feed.inner.title().to_owned(),
        links: feed.inner.links().iter().map(|l| l.href().to_owned()).collect(),
        subtitle: feed.inner.subtitle().map(str::to_owned),
    }
}

/// Calls `entries` of `atom_syndication::Feed` and the getters of each
/// entry. Trusted: the result is the entries that the feed holds, each with
/// the fields the pipeline reads.
#[verifier::external_body]
fn copy_entries(feed: &AtomSource) -> (r: Vec<AtomEntry>)
    ensures
        r.deep_view() == held_entries(*feed),
{
    feed.inner.entries().iter().map(|e| AtomEntry {
        id: e.id().to_owned(),
        title: e.title().to_owned(),
        links: e.links().iter().map(|l| l.href().to_owned()).collect(),
        summary: e.summary().map(str::to_owned),
        content: e.content().and_then(|c| c.value()).map(str::to_owned),
        published: e.published().map(str::to_owned),
        updated: e.updated().to_owned(),
    }).collect()
}

/// Reads a document as an Atom feed and copies out what the pipeline reads
/// of it.
fn parse_atom(data: &[u8]) -> (r: Option<AtomFeed>)
    ensures
        r.deep_view() == atom_document(data@),
{
    match read_atom(data) {
        Some(feed) => Some(AtomFeed { head: copy_head(&feed), entries: copy_entries(&feed) }),
        None => None,
    }
}

/// What parsing a document as RSS comes to.
pub open spec fn parsed_as_rss(document: Option<RssChannelView>) -> Result<FeedTypeView, Error> {
    match document {
        Some(channel) => Ok(FeedTypeView::RSS(channel)),
        None => Err(Error::ParseError),
    }
}

/// What parsing a document as Atom comes to.
pub open spec fn parsed_as_atom(document: Option<AtomFeedView>) -> Result<FeedTypeView, Error> {
    match document {
        Some(feed) => Ok(FeedTypeView::Atom(feed)),
        None => Err(Error::ParseError),
    }
}

/// The document that a byte string holds. Bytes that are not UTF-8, whose
/// first element tag is neither `rss` nor `feed`, or that the parser of the
/// announced format rejects, hold none.
pub open spec fn identified(data: Seq<u8>) -> Result<FeedTypeView, Error> {
    if !valid_utf8(data) {
        Err(Error::ParseError)
    } else {
        match kind_of_tokens(xml_tokens(decode_utf8(data))) {
            Some(FeedKind::Rss) => parsed_as_rss(rss_document(data)),
            Some(FeedKind::Atom) => parsed_as_atom(atom_document(data)),
            None => Err(Error::ParseError),
        }
    }
}

/// The model of a parsing result.
pub open spec fn document_view(r: Result<FeedType, Error>) -> Result<FeedTypeView, Error> {
    match r {
        Ok(document) => Ok(document@),
        Err(e) => Err(e),
    }
}

/// Wraps up an RSS parse: the channel, or a parse error where there is none.
pub fn rss_outcome(document: Option<RssChannel>) -> (r: Result<FeedType, Error>)
    ensures
        document_view(r) == parsed_as_rss(document.deep_view()),
{
    match document {
        Some(channel) => Ok(FeedType::RSS(channel)),
        None => Err(Error::ParseError),
    }
}

/// Wraps up an Atom parse: the feed, or a parse error where there is none.
pub fn atom_outcome(document: Option<AtomFeed>) -> (r: Result<FeedType, Error>)
    ensures
        document_view(r) == parsed_as_atom(document.deep_view()),
{
    match document {
        Some(feed) => Ok(FeedType::Atom(feed)),
        None => Err(Error::ParseError),
    }
}

/// Determines the format of a fetched document by its first element tag and
/// parses the whole document in that format: `rss` as an RSS channel, `feed`
/// as an Atom feed.
pub fn identify_fetched_data(data: &[u8]) -> (r: Result<FeedType, Error>)
    ensures
        document_view(r) == identified(data@),
{
    let text = match utf8_text(data) {
        Some(text) => text,
        None => {
            return Err(Error::ParseError);
        },
    };
    proof {
        vstd::utf8::encode_utf8_decode_utf8(text@);
    }
    match sniff(text) {
        Some(FeedKind::Rss) => rss_outcome(read_rss(data)),
        Some(FeedKind::Atom) => atom_outcome(parse_atom(data)),
        None => Err(Error::ParseError),
    }
}

/// What a document comes to whose first element has the given name.
pub open spec fn routed_by(data: Seq<u8>, name: Seq<u8>) -> Result<FeedTypeView, Error> {
    if name == rss_tag() {
        parsed_as_rss(rss_document(data))
    } else if name == atom_tag() {
        parsed_as_atom(atom_document(data))
    } else {
        Err(Error::ParseError)
    }
}

/// Sniffing routes by the first element: where the first token of a
/// document that is not text, a comment or the like is the tag of an element
/// named `rss`, the document is what the RSS parser makes of it; where it is
/// the tag of an element named `feed`, what the Atom parser makes of it;
/// where it is the tag of any other element, ends the input or is malformed,
/// the document is a parse error.
pub proof fn lemma_first_element_decides(data: Seq<u8>, i: int)
    requires
        valid_utf8(data),
        0 <= i < xml_tokens(decode_utf8(data)).len(),
        forall|j: int| 0 <= j < i ==> #[trigger] xml_tokens(decode_utf8(data))[j] is Other,
        !(xml_tokens(decode_utf8(data))[i] is Other),
    ensures
        identified(data) == match xml_tokens(decode_utf8(data))[i] {
            TokenView::Start(name) => routed_by(data, name),
            TokenView::Empty(name) => routed_by(data, name),
            _ => Err(Error::ParseError),
        },
{
    lemma_first_tag_at(xml_tokens(decode_utf8(data)), i);
}

/// A document without any element is a parse error, and so is one that is
/// not UTF-8.
pub proof fn lemma_no_element_is_parse_error(data: Seq<u8>)
    requires
        !valid_utf8(data) || first_tag(xml_tokens(decode_utf8(data))) is None,
    ensures
        identified(data) == Err::<FeedTypeView, Error>(Error::ParseError),
{
}

} // verus!
