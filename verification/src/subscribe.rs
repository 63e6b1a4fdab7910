//! The subscribe workflow: the decisions of one subscription request.
//!
//! The workflow is a state machine. The driver performs each action against
//! storage or the network and hands back the event that came of it; the
//! machine decides what happens next. A feed that storage already knows is
//! never fetched: the subscriber is attached and the feed's existing items
//! are made visible to them. An unknown feed is fetched and created first,
//! and any failure of that aborts the request.

use vstd::prelude::*;
use vstd::arithmetic::div_mod::lemma_fundamental_div_mod_converse;
use crate::fanout::{fan_out, subscribe_new_items, unseen_row};
use crate::models::{Error, Feed, FeedView, SubscribedItem};

verus! {

/// Where a subscription request stands.
#[derive(Debug, Clone, PartialEq, Eq)]
pub enum SubscribeState {
    /// Nothing has happened yet.
    Start,
    /// Storage is being asked whether it knows the feed's URL.
    LookupFeed,
    /// The unknown feed is being fetched, parsed and normalized.
    FetchFeed,
    /// Storage is creating the channel and inserting all its items.
    CreateFeed,
    /// The subscription is being created; the feed has these items.
    AttachSubscriber { feed_id: i32, item_ids: Vec<i32> },
    /// The feed's items are being made visible to the new subscriber.
    FanOutExisting,
    /// The request has been served.
    Done,
    /// The request has been aborted.
    Failed(Error),
}

/// What the driver reports back.
#[derive(Debug, Clone, PartialEq, Eq)]
pub enum SubscribeEvent {
    /// The request arrives.
    Requested,
    /// Storage knows the URL: the feed and the ids of its items.
    FeedFound { feed_id: i32, item_ids: Vec<i32> },
    /// Storage does not know the URL.
    FeedUnknown,
    /// The document was fetched and read as this feed.
    FeedRead(Feed),
    /// The document could not be fetched, parsed or normalized.
    FeedUnreadable(Error),
    /// Storage created the feed: its id and the ids of its items.
    FeedStored { feed_id: i32, item_ids: Vec<i32> },
    /// Storage created the subscription.
    SubscriptionCreated,
    /// Storage inserted the unseen-item rows.
    RowsStored,
}

/// What the driver is to do next.
#[derive(Debug, Clone, PartialEq, Eq)]
pub enum SubscribeAction {
    /// Ask storage for the feed of the request's URL and its item ids.
    FindFeed,
    /// Fetch the request's URL and read the document as a feed.
    FetchFeed,
    /// Create the channel and insert all its items.
    StoreFeed(Feed),
    /// Create the subscription of the user to the feed.
    CreateSubscription { user_id: i32, feed_id: i32 },
    /// Insert these unseen-item rows in one batch.
    InsertSubscribedItems(Vec<SubscribedItem>),
    /// Report success to the caller.
    Finish,
    /// Report the error to the caller.
    Abort(Error),
    /// Nothing: the event was not awaited.
    Ignore,
}

/// Mathematical model of a [`SubscribeState`].
pub enum SubscribeStateView {
    Start,
    LookupFeed,
    FetchFeed,
    CreateFeed,
    AttachSubscriber { feed_id: i32, item_ids: Seq<i32> },
    FanOutExisting,
    Done,
    Failed(Error),
}

/// Mathematical model of a [`SubscribeEvent`].
pub enum SubscribeEventView {
    Requested,
    FeedFound { feed_id: i32, item_ids: Seq<i32> },
    FeedUnknown,
    FeedRead(FeedView),
    FeedUnreadable(Error),
    FeedStored { feed_id: i32, item_ids: Seq<i32> },
    SubscriptionCreated,
    RowsStored,
}

/// Mathematical model of a [`SubscribeAction`].
pub enum SubscribeActionView {
    FindFeed,
    FetchFeed,
    StoreFeed(FeedView),
    CreateSubscription { user_id: i32, feed_id: i32 },
    InsertSubscribedItems(Seq<SubscribedItem>),
    Finish,
    Abort(Error),
    Ignore,
}

impl View for SubscribeState {
    type V = SubscribeStateView;

    open spec fn view(&self) -> SubscribeStateView {
        match self {
            SubscribeState::Start => SubscribeStateView::Start,
            SubscribeState::LookupFeed => SubscribeStateView::LookupFeed,
            SubscribeState::FetchFeed => SubscribeStateView::FetchFeed,
            SubscribeState::CreateFeed => SubscribeStateView::CreateFeed,
            SubscribeState::AttachSubscriber { feed_id, item_ids } => {
                SubscribeStateView::AttachSubscriber { feed_id: *feed_id, item_ids: item_ids@ }
            },
            SubscribeState::FanOutExisting => SubscribeStateView::FanOutExisting,
            SubscribeState::Done => SubscribeStateView::Done,
            SubscribeState::Failed(e) => SubscribeStateView::Failed(*e),
        }
    }
}

impl View for SubscribeEvent {
    type V = SubscribeEventView;

    open spec fn view(&self) -> SubscribeEventView {
        match self {
            SubscribeEvent::Requested => SubscribeEventView::Requested,
            SubscribeEvent::FeedFound { feed_id, item_ids } => {
                SubscribeEventView::FeedFound { feed_id: *feed_id, item_ids: item_ids@ }
            },
            SubscribeEvent::FeedUnknown => SubscribeEventView::FeedUnknown,
            SubscribeEvent::FeedRead(feed) => SubscribeEventView::FeedRead(feed@),
            SubscribeEvent::FeedUnreadable(e) => SubscribeEventView::FeedUnreadable(*e),
            SubscribeEvent::FeedStored { feed_id, item_ids } => {
                SubscribeEventView::FeedStored { feed_id: *feed_id, item_ids: item_ids@ }
            },
            SubscribeEvent::SubscriptionCreated => SubscribeEventView::SubscriptionCreated,
            SubscribeEvent::RowsStored => SubscribeEventView::RowsStored,
        }
    }
}

impl View for SubscribeAction {
    type V = SubscribeActionView;

    open spec fn view(&self) -> SubscribeActionView {
        match self {
            SubscribeAction::FindFeed => SubscribeActionView::FindFeed,
            SubscribeAction::FetchFeed => SubscribeActionView::FetchFeed,
            SubscribeAction::StoreFeed(feed) => SubscribeActionView::StoreFeed(feed@),
            SubscribeAction::CreateSubscription { user_id, feed_id } => {
                SubscribeActionView::CreateSubscription { user_id: *user_id, feed_id: *feed_id }
            },
            SubscribeAction::InsertSubscribedItems(rows) => {
                SubscribeActionView::InsertSubscribedItems(rows@)
            },
            SubscribeAction::Finish => SubscribeActionView::Finish,
            SubscribeAction::Abort(e) => SubscribeActionView::Abort(*e),
            SubscribeAction::Ignore => SubscribeActionView::Ignore,
        }
    }
}

/// The transition of the workflow for the request of user `user_id`: the
/// state that follows and the action to take. An event that the state does
/// not await changes nothing.
pub open spec fn next_step(user_id: i32, state: SubscribeStateView, event: SubscribeEventView) -> (
    SubscribeStateView,
    SubscribeActionView,
) {
    match (state, event) {
        (SubscribeStateView::Start, SubscribeEventView::Requested) => (
            SubscribeStateView::LookupFeed,
            SubscribeActionView::FindFeed,
        ),
        (SubscribeStateView::LookupFeed, SubscribeEventView::FeedFound { feed_id, item_ids }) => (
            SubscribeStateView::AttachSubscriber { feed_id, item_ids },
            SubscribeActionView::CreateSubscription { user_id, feed_id },
        ),
        (SubscribeStateView::LookupFeed, SubscribeEventView::FeedUnknown) => (
            SubscribeStateView::FetchFeed,
            SubscribeActionView::FetchFeed,
        ),
        (SubscribeStateView::FetchFeed, SubscribeEventView::FeedRead(feed)) => (
            SubscribeStateView::CreateFeed,
            SubscribeActionView::StoreFeed(feed),
        ),
        (SubscribeStateView::FetchFeed, SubscribeEventView::FeedUnreadable(e)) => (
            SubscribeStateView::Failed(e),
            SubscribeActionView::Abort(e),
        ),
        (SubscribeStateView::CreateFeed, SubscribeEventView::FeedStored { feed_id, item_ids }) => (
            SubscribeStateView::AttachSubscriber { feed_id, item_ids },
            SubscribeActionView::CreateSubscription { user_id, feed_id },
        ),
        (
            SubscribeStateView::AttachSubscriber { feed_id, item_ids },
            SubscribeEventView::SubscriptionCreated,
        ) => if item_ids.len() > 0 {
            (
                SubscribeStateView::FanOutExisting,
                SubscribeActionView::InsertSubscribedItems(fan_out(item_ids, seq![user_id])),
            )
        } else {
            (SubscribeStateView::Done, SubscribeActionView::Finish)
        },
        (SubscribeStateView::FanOutExisting, SubscribeEventView::RowsStored) => (
            SubscribeStateView::Done,
            SubscribeActionView::Finish,
        ),
        (state, _) => (state, SubscribeActionView::Ignore),
    }
}

/// Advances the request of user `user_id` by one event.
pub fn subscribe_step(user_id: i32, state: SubscribeState, event: SubscribeEvent) -> (r: (
    SubscribeState,
    SubscribeAction,
))
    ensures
        (r.0@, r.1@) == next_step(user_id, state@, event@),
{
    match (state, event) {
        (SubscribeState::Start, SubscribeEvent::Requested) => (
            SubscribeState::LookupFeed,
            SubscribeAction::FindFeed,
        ),
        (SubscribeState::LookupFeed, SubscribeEvent::FeedFound { feed_id, item_ids }) => (
            SubscribeState::AttachSubscriber { feed_id, item_ids },
            SubscribeAction::CreateSubscription { user_id, feed_id },
        ),
        (SubscribeState::LookupFeed, SubscribeEvent::FeedUnknown) => (
            SubscribeState::FetchFeed,
            SubscribeAction::FetchFeed,
        ),
        (SubscribeState::FetchFeed, SubscribeEvent::FeedRead(feed)) => (
            SubscribeState::CreateFeed,
            SubscribeAction::StoreFeed(feed),
        ),
        (SubscribeState::FetchFeed, SubscribeEvent::FeedUnreadable(e)) => (
            SubscribeState::Failed(e),
            SubscribeAction::Abort(e),
        ),
        (SubscribeState::CreateFeed, SubscribeEvent::FeedStored { feed_id, item_ids }) => (
            SubscribeState::AttachSubscriber { feed_id, item_ids },
            SubscribeAction::CreateSubscription { user_id, feed_id },
        ),
        (
            SubscribeState::AttachSubscriber { feed_id, item_ids },
            SubscribeEvent::SubscriptionCreated,
        ) => {
            if item_ids.len() > 0 {
                let subscribers = vec![user_id];
                assert(subscribers@ =~= seq![user_id]);
                let rows = subscribe_new_items(&item_ids, &subscribers);
                (SubscribeState::FanOutExisting, SubscribeAction::InsertSubscribedItems(rows))
            } else {
                (SubscribeState::Done, SubscribeAction::Finish)
            }
        },
        (SubscribeState::FanOutExisting, SubscribeEvent::RowsStored) => (
            SubscribeState::Done,
            SubscribeAction::Finish,
        ),
        (state, _) => (state, SubscribeAction::Ignore),
    }
}

/// The rows that make the items of a feed visible to one subscriber: one
/// unseen row per item, in the order of the items.
pub proof fn lemma_fan_out_to_one(item_ids: Seq<i32>, user_id: i32)
    ensures
        fan_out(item_ids, seq![user_id]).len() == item_ids.len(),
        forall|k: int|
            0 <= k < item_ids.len() ==> #[trigger] fan_out(item_ids, seq![user_id])[k]
                == unseen_row(user_id, item_ids[k]),
{
    let n = item_ids.len() as int;
    assert(seq![user_id].len() * item_ids.len() == item_ids.len()) by (nonlinear_arith)
        requires
            seq![user_id].len() == 1,
    ;
    assert forall|k: int| 0 <= k < item_ids.len() implies #[trigger] fan_out(
        item_ids,
        seq![user_id],
    )[k] == unseen_row(user_id, item_ids[k]) by {
        lemma_fundamental_div_mod_converse(k, n, 0, k);
    }
}

/// Subscribing to a feed that storage knows: the driver is asked to find
/// the feed, to create the subscription and, where the feed has items, to
/// insert exactly one unseen row per stored item for the new subscriber. It
/// is never asked to fetch anything, and the request ends served.
pub proof fn lemma_subscribe_to_known_feed(user_id: i32, feed_id: i32, item_ids: Seq<i32>)
    ensures
        ({
            let first = next_step(
                user_id,
                SubscribeStateView::Start,
                SubscribeEventView::Requested,
            );
            let second = next_step(
                user_id,
                first.0,
                SubscribeEventView::FeedFound { feed_id, item_ids },
            );
            let third = next_step(user_id, second.0, SubscribeEventView::SubscriptionCreated);
            let fourth = next_step(user_id, third.0, SubscribeEventView::RowsStored);
            &&& first.1 == SubscribeActionView::FindFeed
            &&& second.1 == SubscribeActionView::CreateSubscription { user_id, feed_id }
            &&& item_ids.len() == 0 ==> third.1 == SubscribeActionView::Finish && third.0
                == SubscribeStateView::Done
            &&& item_ids.len() > 0 ==> {
                &&& third.1 matches SubscribeActionView::InsertSubscribedItems(rows)
                &&& rows.len() == item_ids.len()
                &&& forall|k: int|
                    0 <= k < rows.len() ==> #[trigger] rows[k] == unseen_row(user_id, item_ids[k])
                &&& fourth.1 == SubscribeActionView::Finish
                &&& fourth.0 == SubscribeStateView::Done
            }
            &&& !(first.1 is FetchFeed) && !(second.1 is FetchFeed) && !(third.1 is FetchFeed) && !(
            fourth.1 is FetchFeed)
        }),
{
    lemma_fan_out_to_one(item_ids, user_id);
}

} // verus!
