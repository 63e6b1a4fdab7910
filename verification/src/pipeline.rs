//! One pipeline run on the bytes of a fetched document: detection, parsing,
//! normalization and, for a poll, reconciliation.

use vstd::prelude::*;
use crate::models::{Error, Feed, FeedView, ItemView, StoredItem, Timestamp};
use crate::normalize::{
    channel_of,
    consume_feed_data,
    consume_item_types,
    describes_channel,
    entries_of,
    items_of,
};
use crate::parse::{identified, identify_fetched_data};
use crate::reconcile::{new_of, process_duplicates, updated_of, Reconciliation};

verus! {

/// Why a document yields no feed, if it yields none: a parse error where it
/// holds no document of either format, a normalization error where the
/// document describes no channel.
pub open spec fn feed_failure(data: Seq<u8>) -> Option<Error> {
    match identified(data) {
        Err(e) => Some(e),
        Ok(document) => if describes_channel(document) {
            None
        } else {
            Some(Error::NormalizeError)
        },
    }
}

/// The feed that a document polled from `url` at the instant `at` yields.
pub open spec fn feed_of(data: Seq<u8>, url: Seq<char>, at: Timestamp) -> Result<FeedView, Error> {
    match identified(data) {
        Err(e) => Err(e),
        Ok(document) => match channel_of(document, url, at) {
            Err(e) => Err(e),
            Ok(channel) => Ok(FeedView { channel, items: items_of(entries_of(document)) }),
        },
    }
}

/// Turns the bytes fetched from `url` into a feed: the channel, stamped with
/// the reading of the clock, and the items in document order, without those
/// that lack a required field.
pub fn read_feed(data: &[u8], url: &str) -> (r: Result<Feed, Error>)
    ensures
        match r {
            Ok(feed) => feed_failure(data@) is None && feed_of(
                data@,
                url@,
                feed.channel.updated_at,
            ) == Ok::<FeedView, Error>(feed@),
            Err(e) => feed_failure(data@) == Some(e),
        },
{
    let document = match identify_fetched_data(data) {
        Ok(document) => document,
        Err(e) => {
            return Err(e);
        },
    };
    match consume_feed_data(document, url) {
        Ok((channel, entries)) => {
            let items = consume_item_types(&entries);
            Ok(Feed { channel, items })
        },
        Err(e) => Err(e),
    }
}

/// The items that a fetched document offers: the canonical items of its
/// entries, and none where the bytes hold no document.
pub open spec fn offered_by(data: Seq<u8>) -> Seq<ItemView> {
    match identified(data) {
        Ok(document) => items_of(entries_of(document)),
        Err(_) => Seq::empty(),
    }
}

/// Runs one poll of feed `feed_id` on the bytes fetched from `url`: reads
/// the feed and reconciles its items against `prior`, the records storage
/// holds. The outcome says what to insert and what to write in place; its
/// `new_items` is `None` when there is nothing to fan out.
pub fn poll_feed(feed_id: i32, data: &[u8], url: &str, prior: &Vec<StoredItem>) -> (r: Result<
    Reconciliation,
    Error,
>)
    ensures
        match r {
            Ok(outcome) => {
                &&& feed_failure(data@) is None
                &&& outcome.updated_items.deep_view() == updated_of(
                    prior.deep_view(),
                    feed_id,
                    offered_by(data@),
                )
                &&& match outcome.new_items {
                    Some(fresh) => fresh.len() > 0 && fresh.deep_view() == new_of(
                        prior.deep_view(),
                        feed_id,
                        offered_by(data@),
                    ),
                    None => new_of(prior.deep_view(), feed_id, offered_by(data@)).len() == 0,
                }
            },
            Err(e) => feed_failure(data@) == Some(e),
        },
{
    match read_feed(data, url) {
        Ok(feed) => Ok(process_duplicates(feed_id, feed.items, prior)),
        Err(e) => Err(e),
    }
}

} // verus!
