//! Reconciliation: holding the items a poll has offered against what storage
//! already has for the feed, so that an unchanged feed causes no write.

use vstd::prelude::*;
use crate::models::{Item, ItemView, StoredItem, StoredItemView, Timestamp};

verus! {

/// What a poll means for one offered item.
#[derive(Debug, Clone, Copy, PartialEq, Eq, Structural)]
pub enum Classification {
    /// No record with this guid exists under the feed.
    New,
    /// A record exists under the given id with another publication date.
    Updated(i32),
    /// A record exists with the same publication date.
    Unchanged,
}

/// The result of reconciling one poll.
#[derive(Debug, Clone, PartialEq, Eq)]
pub struct Reconciliation {
    /// The items to insert, in the order offered; `None` when there is
    /// nothing to insert and so nothing to fan out.
    pub new_items: Option<Vec<Item>>,
    /// The items to write in place, each with the id of the record it
    /// replaces, in the order offered.
    pub updated_items: Vec<(i32, Item)>,
}

/// Whether a record is the one a guid of a feed is stored under.
pub open spec fn holds_guid(record: StoredItemView, feed_id: i32, guid: Seq<char>) -> bool {
    record.feed_id == feed_id && record.guid == guid
}

/// The record that a guid is stored under within a feed: the first one of
/// `prior` with that feed and guid, if there is any.
pub open spec fn stored_under(prior: Seq<StoredItemView>, feed_id: i32, guid: Seq<char>) -> Option<
    StoredItemView,
>
    decreases prior.len(),
{
    if prior.len() == 0 {
        None
    } else if holds_guid(prior.first(), feed_id, guid) {
        Some(prior.first())
    } else {
        stored_under(prior.drop_first(), feed_id, guid)
    }
}

/// How an offered item is classified against the prior state of its feed.
pub open spec fn classification(prior: Seq<StoredItemView>, feed_id: i32, item: ItemView)
    -> Classification {
    match stored_under(prior, feed_id, item.guid) {
        None => Classification::New,
        Some(record) => if record.published_at != item.published_at {
            Classification::Updated(record.id)
        } else {
            Classification::Unchanged
        },
    }
}

/// The offered items that are New, in the order offered.
pub open spec fn new_of(prior: Seq<StoredItemView>, feed_id: i32, offered: Seq<ItemView>) -> Seq<
    ItemView,
> {
    offered.filter(|item: ItemView| classification(prior, feed_id, item) is New)
}

/// An Updated item with the id of the record it replaces; `None` for an item
/// that is not Updated.
pub open spec fn update_of(prior: Seq<StoredItemView>, feed_id: i32, item: ItemView) -> Option<
    (i32, ItemView),
> {
    match classification(prior, feed_id, item) {
        Classification::Updated(id) => Some((id, item)),
        _ => None,
    }
}

/// The offered items that are Updated, each with the id it keeps, in the
/// order offered.
pub open spec fn updated_of(prior: Seq<StoredItemView>, feed_id: i32, offered: Seq<ItemView>)
    -> Seq<(i32, ItemView)> {
    offered.filter_map(|item: ItemView| update_of(prior, feed_id, item))
}

/// A sequence keeps, mapped, each of its elements that a filtering map
/// accepts.
pub proof fn lemma_filter_map_keeps<A, B>(s: Seq<A>, f: spec_fn(A) -> Option<B>, i: int)
    requires
        0 <= i < s.len(),
        f(s[i]) is Some,
    ensures
        s.filter_map(f).contains(f(s[i])->Some_0),
    decreases s.len(),
{
    let rest = s.drop_last();
    let tail = match f(s.last()) {
        Some(b) => seq![b],
        None => Seq::empty(),
    };
    assert(s.filter_map(f) == rest.filter_map(f) + tail);
    if i == s.len() - 1 {
        let at = rest.filter_map(f).len() as int;
        assert((rest.filter_map(f) + tail)[at] == f(s[i])->Some_0);
    } else {
        lemma_filter_map_keeps(rest, f, i);
        let at = choose|at: int|
            0 <= at < rest.filter_map(f).len() && rest.filter_map(f)[at] == f(s[i])->Some_0;
        assert((rest.filter_map(f) + tail)[at] == f(s[i])->Some_0);
    }
}

/// A sequence of which a filtering map accepts no element maps to nothing.
pub proof fn lemma_filter_map_none<A, B>(s: Seq<A>, f: spec_fn(A) -> Option<B>)
    requires
        forall|i: int| 0 <= i < s.len() ==> f(#[trigger] s[i]) is None,
    ensures
        s.filter_map(f).len() == 0,
    decreases s.len(),
{
    if s.len() > 0 {
        let rest = s.drop_last();
        assert forall|i: int| 0 <= i < rest.len() implies f(#[trigger] rest[i]) is None by {
            assert(rest[i] == s[i]);
        }
        lemma_filter_map_none(rest, f);
        assert(f(s.last()) is None);
    }
}

/// The New items are exactly the offered items that are New.
pub proof fn lemma_new_of_contains(
    prior: Seq<StoredItemView>,
    feed_id: i32,
    offered: Seq<ItemView>,
    item: ItemView,
)
    ensures
        new_of(prior, feed_id, offered).contains(item) <==> offered.contains(item)
            && classification(prior, feed_id, item) is New,
{
    let is_new = |it: ItemView| classification(prior, feed_id, it) is New;
    let fresh = offered.filter(is_new);
    if fresh.contains(item) {
        offered.lemma_filter_contains_rev(is_new, item);
        let at = choose|at: int| 0 <= at < fresh.len() && fresh[at] == item;
        offered.lemma_filter_pred(is_new, at);
    }
    if offered.contains(item) && is_new(item) {
        let at = choose|at: int| 0 <= at < offered.len() && offered[at] == item;
        offered.lemma_filter_contains(is_new, at);
    }
}

/// The Updated items are exactly the offered items that are Updated, each
/// with the id of the record it is stored under.
pub proof fn lemma_updated_of_contains(
    prior: Seq<StoredItemView>,
    feed_id: i32,
    offered: Seq<ItemView>,
    id: i32,
    item: ItemView,
)
    ensures
        updated_of(prior, feed_id, offered).contains((id, item)) <==> offered.contains(item)
            && classification(prior, feed_id, item) == Classification::Updated(id),
{
    let pick = |it: ItemView| update_of(prior, feed_id, it);
    if offered.filter_map(pick).contains((id, item)) {
        offered.lemma_filter_map_contains(pick, (id, item));
        let source = choose|t: ItemView| #[trigger] offered.contains(t) && pick(t) == Some((id, item));
        assert(source == item);
    }
    if offered.contains(item) && classification(prior, feed_id, item) == Classification::Updated(
        id,
    ) {
        let at = choose|at: int| 0 <= at < offered.len() && offered[at] == item;
        lemma_filter_map_keeps(offered, pick, at);
    }
}

/// Update detection: an item whose guid is stored under the feed with
/// another publication date is Updated and keeps the stored id. Whatever
/// else is offered with it, it is written in place under that id and is not
/// inserted.
pub proof fn lemma_changed_date_is_update(
    prior: Seq<StoredItemView>,
    feed_id: i32,
    offered: Seq<ItemView>,
    record: StoredItemView,
    item: ItemView,
)
    requires
        offered.contains(item),
        stored_under(prior, feed_id, item.guid) == Some(record),
        record.published_at != item.published_at,
    ensures
        classification(prior, feed_id, item) == Classification::Updated(record.id),
        updated_of(prior, feed_id, offered).contains((record.id, item)),
        forall|id: i32|
            id != record.id ==> !(#[trigger] updated_of(prior, feed_id, offered).contains((id, item))),
        !new_of(prior, feed_id, offered).contains(item),
{
    lemma_updated_of_contains(prior, feed_id, offered, record.id, item);
    lemma_new_of_contains(prior, feed_id, offered, item);
    assert forall|id: i32| id != record.id implies !(#[trigger] updated_of(
        prior,
        feed_id,
        offered,
    ).contains((id, item))) by {
        lemma_updated_of_contains(prior, feed_id, offered, id, item);
    }
}

/// Unchanged suppression: an item whose guid is stored under the feed with
/// the same publication date is neither inserted nor written in place.
pub proof fn lemma_same_date_is_dropped(
    prior: Seq<StoredItemView>,
    feed_id: i32,
    offered: Seq<ItemView>,
    record: StoredItemView,
    item: ItemView,
)
    requires
        stored_under(prior, feed_id, item.guid) == Some(record),
        record.published_at == item.published_at,
    ensures
        classification(prior, feed_id, item) is Unchanged,
        !new_of(prior, feed_id, offered).contains(item),
        forall|id: i32| !(#[trigger] updated_of(prior, feed_id, offered).contains((id, item))),
{
    lemma_new_of_contains(prior, feed_id, offered, item);
    assert forall|id: i32| !(#[trigger] updated_of(prior, feed_id, offered).contains((id, item))) by {
        lemma_updated_of_contains(prior, feed_id, offered, id, item);
    }
}

/// Looks up the record a guid is stored under within a feed.
pub fn find_stored<'a>(prior: &'a Vec<StoredItem>, feed_id: i32, guid: &String) -> (r: Option<
    &'a StoredItem,
>)
    ensures
        r.deep_view() == stored_under(prior.deep_view(), feed_id, guid@),
{
    let ghost all = prior.deep_view();
    let mut i: usize = 0;
    assert(all.skip(0) =~= all);
    while i < prior.len()
        invariant
            i <= prior.len(),
            all == prior.deep_view(),
            stored_under(all, feed_id, guid@) == stored_under(all.skip(i as int), feed_id, guid@),
        decreases prior.len() - i,
    {
        let record = &prior[i];
        proof {
            assert(all.skip(i as int).first() == record@);
            assert(all.skip(i as int).drop_first() =~= all.skip(i + 1));
        }
        if record.feed_id == feed_id && record.guid == *guid {
            return Some(record);
        }
        i += 1;
    }
    None
}

/// Classifies one offered item against the prior state of its feed.
pub fn classify(prior: &Vec<StoredItem>, feed_id: i32, item: &Item) -> (c: Classification)
    ensures
        c == classification(prior.deep_view(), feed_id, item@),
{
    match find_stored(prior, feed_id, &item.guid) {
        None => Classification::New,
        Some(record) => {
            if same_instant(&record.published_at, &item.published_at) {
                Classification::Unchanged
            } else {
                Classification::Updated(record.id)
            }
        },
    }
}

/// Whether two optional instants are the same.
pub fn same_instant(a: &Option<Timestamp>, b: &Option<Timestamp>)
    -> (r: bool)
    ensures
        r == (*a == *b),
{
    match (a, b) {
        (Some(x), Some(y)) => x.secs == y.secs && x.nanos == y.nanos,
        (None, None) => true,
        _ => false,
    }
}

/// Offering one item more adds it to the New items exactly when it is New.
proof fn lemma_new_of_next(prior: Seq<StoredItemView>, feed_id: i32, offered: Seq<ItemView>, i: int)
    requires
        0 <= i < offered.len(),
    ensures
        new_of(prior, feed_id, offered.take(i + 1)) == if classification(
            prior,
            feed_id,
            offered[i],
        ) is New {
            new_of(prior, feed_id, offered.take(i)).push(offered[i])
        } else {
            new_of(prior, feed_id, offered.take(i))
        },
{
    let is_new = |item: ItemView| classification(prior, feed_id, item) is New;
    assert(offered.take(i + 1).drop_last() =~= offered.take(i));
    assert(offered.take(i + 1).last() == offered[i]);
    reveal_with_fuel(Seq::filter, 1);
    assert(offered.take(i + 1).filter(is_new) == if is_new(offered[i]) {
        offered.take(i).filter(is_new).push(offered[i])
    } else {
        offered.take(i).filter(is_new)
    });
}

/// Offering one item more adds it to the Updated items exactly when it is
/// Updated.
proof fn lemma_updated_of_next(
    prior: Seq<StoredItemView>,
    feed_id: i32,
    offered: Seq<ItemView>,
    i: int,
)
    requires
        0 <= i < offered.len(),
    ensures
        updated_of(prior, feed_id, offered.take(i + 1)) == match classification(
            prior,
            feed_id,
            offered[i],
        ) {
            Classification::Updated(id) => updated_of(prior, feed_id, offered.take(i)).push(
                (id, offered[i]),
            ),
            _ => updated_of(prior, feed_id, offered.take(i)),
        },
{
    let pick = |item: ItemView| update_of(prior, feed_id, item);
    offered.lemma_filter_map_take_succ(pick, i);
    match classification(prior, feed_id, offered[i]) {
        Classification::Updated(id) => {
            assert(offered.take(i).filter_map(pick) + seq![(id, offered[i])]
                =~= offered.take(i).filter_map(pick).push((id, offered[i])));
        },
        _ => {
            assert(offered.take(i).filter_map(pick) + Seq::<(i32, ItemView)>::empty()
                =~= offered.take(i).filter_map(pick));
        },
    }
}

/// Reconciles the items of one poll of feed `feed_id` against `prior`, the
/// records storage holds. An item whose guid is not stored under the feed is
/// New; one stored with another publication date is Updated and keeps the
/// stored id; any other is dropped. `new_items` is `None` exactly when no
/// item is New, whatever the number of Updated ones.
pub fn process_duplicates(feed_id: i32, items: Vec<Item>, prior: &Vec<StoredItem>) -> (r:
    Reconciliation)
    ensures
        r.updated_items.deep_view() == updated_of(prior.deep_view(), feed_id, items.deep_view()),
        match r.new_items {
            Some(fresh) => fresh.len() > 0 && fresh.deep_view() == new_of(
                prior.deep_view(),
                feed_id,
                items.deep_view(),
            ),
            None => new_of(prior.deep_view(), feed_id, items.deep_view()).len() == 0,
        },
{
    let ghost all = items@;
    let ghost offered = items.deep_view();
    let ghost before = prior.deep_view();
    let mut fresh: Vec<Item> = Vec::new();
    let mut updated: Vec<(i32, Item)> = Vec::new();
    proof {
        assert(offered.take(0) =~= Seq::<ItemView>::empty());
        reveal_with_fuel(Seq::filter, 1);
        assert(fresh.deep_view() =~= new_of(before, feed_id, offered.take(0)));
        assert(updated.deep_view() =~= updated_of(before, feed_id, offered.take(0)));
    }
    for item in it: items
        invariant
            it.seq() == all,
            offered == Seq::new(all.len(), |k: int| all[k].deep_view()),
            before == prior.deep_view(),
            fresh.deep_view() == new_of(before, feed_id, offered.take(it.index() as int)),
            updated.deep_view() == updated_of(before, feed_id, offered.take(it.index() as int)),
    {
        let ghost i = it.index() as int;
        let ghost fresh_before = fresh.deep_view();
        let ghost updated_before = updated.deep_view();
        proof {
            assert(item == all[i]);
            assert(offered[i] == item@);
            lemma_new_of_next(before, feed_id, offered, i);
            lemma_updated_of_next(before, feed_id, offered, i);
        }
        match classify(prior, feed_id, &item) {
            Classification::New => {
                fresh.push(item);
                assert(fresh.deep_view() =~= fresh_before.push(offered[i]));
            },
            Classification::Updated(id) => {
                updated.push((id, item));
                assert(updated.deep_view() =~= updated_before.push((id, offered[i])));
            },
            Classification::Unchanged => {},
        }
    }
    proof {
        assert(offered.take(offered.len() as int) =~= offered);
    }
    if fresh.is_empty() {
        Reconciliation { new_items: None, updated_items: updated }
    } else {
        Reconciliation { new_items: Some(fresh), updated_items: updated }
    }
}

} // verus!
