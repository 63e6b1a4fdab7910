//! A model of what storage holds once the outcome of a reconciliation has
//! been written, and the proof that polling is idempotent against it.
//!
//! Storage itself is outside this library. The model says only what the
//! pipeline relies on: a write in place replaces the publication date of the
//! record with the given id and keeps its id, feed and guid; an insert adds a
//! record for the item under an id that storage chooses.

use vstd::prelude::*;
use crate::models::{ItemView, StoredItemView};
use crate::reconcile::{
    classification,
    holds_guid,
    lemma_filter_map_none,
    lemma_new_of_contains,
    lemma_updated_of_contains,
    new_of,
    stored_under,
    update_of,
    updated_of,
    Classification,
};

verus! {

/// A record after an item has been written in place over it.
pub open spec fn overwritten(record: StoredItemView, item: ItemView) -> StoredItemView {
    StoredItemView {
        id: record.id,
        feed_id: record.feed_id,
        guid: record.guid,
        published_at: item.published_at,
    }
}

/// The store after one write in place under `id`.
pub open spec fn write_in_place(store: Seq<StoredItemView>, id: i32, item: ItemView) -> Seq<
    StoredItemView,
> {
    store.map_values(
        |record: StoredItemView|
            if record.id == id {
                overwritten(record, item)
            } else {
                record
            },
    )
}

/// The store after a list of writes in place, made in order.
pub open spec fn write_all(store: Seq<StoredItemView>, updates: Seq<(i32, ItemView)>) -> Seq<
    StoredItemView,
>
    decreases updates.len(),
{
    if updates.len() == 0 {
        store
    } else {
        write_in_place(write_all(store, updates.drop_last()), updates.last().0, updates.last().1)
    }
}

/// The record that storage keeps for an item inserted under `id`.
pub open spec fn inserted_record(feed_id: i32, item: ItemView, id: i32) -> StoredItemView {
    StoredItemView { id, feed_id, guid: item.guid, published_at: item.published_at }
}

/// The store after the items `fresh` have been inserted for feed `feed_id`,
/// the k-th under the id `ids[k]`.
pub open spec fn insert_all(
    store: Seq<StoredItemView>,
    feed_id: i32,
    fresh: Seq<ItemView>,
    ids: Seq<i32>,
) -> Seq<StoredItemView> {
    store + Seq::new(fresh.len(), |k: int| inserted_record(feed_id, fresh[k], ids[k]))
}

/// The store after the outcome of reconciling `offered` against `prior` has
/// been written: the Updated items in place, then the New items inserted
/// under the ids `ids`.
pub open spec fn committed(
    prior: Seq<StoredItemView>,
    feed_id: i32,
    offered: Seq<ItemView>,
    ids: Seq<i32>,
) -> Seq<StoredItemView> {
    insert_all(
        write_all(prior, updated_of(prior, feed_id, offered)),
        feed_id,
        new_of(prior, feed_id, offered),
        ids,
    )
}

/// No two records share an id.
pub open spec fn distinct_ids(store: Seq<StoredItemView>) -> bool {
    forall|i: int, j: int| 0 <= i < j < store.len() ==> store[i].id != store[j].id
}

/// No two offered items share a guid.
pub open spec fn distinct_guids(offered: Seq<ItemView>) -> bool {
    forall|i: int, j: int| 0 <= i < j < offered.len() ==> offered[i].guid != offered[j].guid
}

/// The place of the record a guid is stored under: the first that holds it.
pub proof fn lemma_stored_index(prior: Seq<StoredItemView>, feed_id: i32, guid: Seq<char>) -> (p:
    int)
    requires
        stored_under(prior, feed_id, guid) is Some,
    ensures
        0 <= p < prior.len(),
        stored_under(prior, feed_id, guid) == Some(prior[p]),
        holds_guid(prior[p], feed_id, guid),
        forall|q: int| 0 <= q < p ==> !holds_guid(#[trigger] prior[q], feed_id, guid),
    decreases prior.len(),
{
    if holds_guid(prior.first(), feed_id, guid) {
        0
    } else {
        let rest = prior.drop_first();
        let p = lemma_stored_index(rest, feed_id, guid);
        assert(rest[p] == prior[p + 1]);
        assert forall|q: int| 0 <= q < p + 1 implies !holds_guid(
            #[trigger] prior[q],
            feed_id,
            guid,
        ) by {
            if q > 0 {
                assert(rest[q - 1] == prior[q]);
            }
        }
        p + 1
    }
}

/// A guid is stored under the first record that holds it.
pub proof fn lemma_stored_at(prior: Seq<StoredItemView>, feed_id: i32, guid: Seq<char>, p: int)
    requires
        0 <= p < prior.len(),
        holds_guid(prior[p], feed_id, guid),
        forall|q: int| 0 <= q < p ==> !holds_guid(#[trigger] prior[q], feed_id, guid),
    ensures
        stored_under(prior, feed_id, guid) == Some(prior[p]),
    decreases prior.len(),
{
    if p > 0 {
        let rest = prior.drop_first();
        assert(!holds_guid(prior[0], feed_id, guid));
        assert(rest[p - 1] == prior[p]);
        assert forall|q: int| 0 <= q < p - 1 implies !holds_guid(
            #[trigger] rest[q],
            feed_id,
            guid,
        ) by {
            assert(rest[q] == prior[q + 1]);
        }
        lemma_stored_at(rest, feed_id, guid, p - 1);
    }
}

/// A guid that no record holds is not stored, and conversely.
pub proof fn lemma_not_stored(prior: Seq<StoredItemView>, feed_id: i32, guid: Seq<char>)
    ensures
        stored_under(prior, feed_id, guid) is None <==> forall|q: int|
            0 <= q < prior.len() ==> !holds_guid(#[trigger] prior[q], feed_id, guid),
    decreases prior.len(),
{
    if prior.len() > 0 {
        let rest = prior.drop_first();
        lemma_not_stored(rest, feed_id, guid);
        if stored_under(prior, feed_id, guid) is None {
            assert forall|q: int| 0 <= q < prior.len() implies !holds_guid(
                #[trigger] prior[q],
                feed_id,
                guid,
            ) by {
                if q > 0 {
                    assert(rest[q - 1] == prior[q]);
                }
            }
        } else {
            let p = lemma_stored_index(prior, feed_id, guid);
        }
    }
}

/// Writes in place keep the number of records and, of each record, its id,
/// feed and guid. A record's publication date stays unless a write names its
/// id, and is then that of such a write.
pub proof fn lemma_write_all_at(store: Seq<StoredItemView>, updates: Seq<(i32, ItemView)>, p: int)
    requires
        0 <= p < store.len(),
    ensures
        write_all(store, updates).len() == store.len(),
        write_all(store, updates)[p].id == store[p].id,
        write_all(store, updates)[p].feed_id == store[p].feed_id,
        write_all(store, updates)[p].guid == store[p].guid,
        (write_all(store, updates)[p].published_at == store[p].published_at && forall|u: int|
            0 <= u < updates.len() ==> (#[trigger] updates[u]).0 != store[p].id) || (exists|u: int|
            0 <= u < updates.len() && (#[trigger] updates[u]).0 == store[p].id && write_all(
                store,
                updates,
            )[p].published_at == updates[u].1.published_at),
    decreases updates.len(),
{
    if updates.len() > 0 {
        let earlier = updates.drop_last();
        let last = updates.last();
        lemma_write_all_at(store, earlier, p);
        let before = write_all(store, earlier);
        let after = write_all(store, updates);
        assert(after == write_in_place(before, last.0, last.1));
        if last.0 == store[p].id {
            assert(updates[updates.len() - 1] == last);
            assert(after[p].published_at == last.1.published_at);
        } else {
            assert(after[p] == before[p]);
            if before[p].published_at == store[p].published_at && forall|u: int|
                0 <= u < earlier.len() ==> (#[trigger] earlier[u]).0 != store[p].id {
                assert forall|u: int| 0 <= u < updates.len() implies (#[trigger] updates[u]).0
                    != store[p].id by {
                    if u < earlier.len() {
                        assert(earlier[u] == updates[u]);
                    }
                }
            } else {
                let u = choose|u: int|
                    0 <= u < earlier.len() && (#[trigger] earlier[u]).0 == store[p].id
                        && before[p].published_at == earlier[u].1.published_at;
                assert(updates[u] == earlier[u]);
            }
        }
    }
}

/// Writes in place keep the number of records.
pub proof fn lemma_write_all_len(store: Seq<StoredItemView>, updates: Seq<(i32, ItemView)>)
    ensures
        write_all(store, updates).len() == store.len(),
    decreases updates.len(),
{
    if updates.len() > 0 {
        lemma_write_all_len(store, updates.drop_last());
    }
}

/// Records added behind a store do not change what a guid is stored under
/// where the store already holds it; where it does not, the guid is stored
/// under what the added records hold.
pub proof fn lemma_stored_under_append(
    store: Seq<StoredItemView>,
    added: Seq<StoredItemView>,
    feed_id: i32,
    guid: Seq<char>,
)
    ensures
        stored_under(store + added, feed_id, guid) == if stored_under(store, feed_id, guid) is Some {
            stored_under(store, feed_id, guid)
        } else {
            stored_under(added, feed_id, guid)
        },
    decreases store.len(),
{
    if store.len() == 0 {
        assert(store + added =~= added);
    } else {
        assert((store + added).first() == store.first());
        assert((store + added).drop_first() =~= store.drop_first() + added);
        lemma_stored_under_append(store.drop_first(), added, feed_id, guid);
    }
}

/// After the outcome of a poll has been written, each item of that poll is
/// Unchanged.
proof fn lemma_offered_is_settled(
    prior: Seq<StoredItemView>,
    feed_id: i32,
    offered: Seq<ItemView>,
    ids: Seq<i32>,
    k: int,
)
    requires
        distinct_ids(prior),
        distinct_guids(offered),
        0 <= k < offered.len(),
    ensures
        classification(committed(prior, feed_id, offered, ids), feed_id, offered[k]) is Unchanged,
{
    let item = offered[k];
    let updates = updated_of(prior, feed_id, offered);
    let written = write_all(prior, updates);
    let fresh = new_of(prior, feed_id, offered);
    let added = Seq::new(fresh.len(), |j: int| inserted_record(feed_id, fresh[j], ids[j]));
    assert(committed(prior, feed_id, offered, ids) == written + added);
    lemma_stored_under_append(written, added, feed_id, item.guid);
    lemma_write_all_len(prior, updates);
    assert forall|q: int| 0 <= q < prior.len() implies holds_guid(
        #[trigger] written[q],
        feed_id,
        item.guid,
    ) == holds_guid(prior[q], feed_id, item.guid) by {
        lemma_write_all_at(prior, updates, q);
    }
    lemma_not_stored(prior, feed_id, item.guid);
    lemma_not_stored(written, feed_id, item.guid);
    if stored_under(prior, feed_id, item.guid) is Some {
        let p = lemma_stored_index(prior, feed_id, item.guid);
        lemma_write_all_at(prior, updates, p);
        assert forall|q: int| 0 <= q < p implies !holds_guid(
            #[trigger] written[q],
            feed_id,
            item.guid,
        ) by {
            assert(!holds_guid(prior[q], feed_id, item.guid));
        }
        lemma_stored_at(written, feed_id, item.guid, p);
        if written[p].published_at == prior[p].published_at && forall|u: int|
            0 <= u < updates.len() ==> (#[trigger] updates[u]).0 != prior[p].id {
            if classification(prior, feed_id, item) == Classification::Updated(prior[p].id) {
                lemma_updated_of_contains(prior, feed_id, offered, prior[p].id, item);
                let u = choose|u: int| 0 <= u < updates.len() && updates[u] == (prior[p].id, item);
                assert(updates[u].0 == prior[p].id);
            }
        } else {
            let u = choose|u: int|
                0 <= u < updates.len() && (#[trigger] updates[u]).0 == prior[p].id
                    && written[p].published_at == updates[u].1.published_at;
            let pair = updates[u];
            assert(updates.contains(pair));
            lemma_updated_of_contains(prior, feed_id, offered, pair.0, pair.1);
            let q = lemma_stored_index(prior, feed_id, pair.1.guid);
            assert(prior[q].id == prior[p].id);
            assert(q == p);
            let k2 = choose|k2: int| 0 <= k2 < offered.len() && offered[k2] == pair.1;
            assert(offered[k2].guid == offered[k].guid);
            assert(k2 == k);
        }
    } else {
        lemma_new_of_contains(prior, feed_id, offered, item);
        let j = choose|j: int| 0 <= j < fresh.len() && fresh[j] == item;
        assert(holds_guid(added[j], feed_id, item.guid));
        lemma_not_stored(added, feed_id, item.guid);
        let first = lemma_stored_index(added, feed_id, item.guid);
        assert(fresh.contains(fresh[first]));
        lemma_new_of_contains(prior, feed_id, offered, fresh[first]);
        let k2 = choose|k2: int| 0 <= k2 < offered.len() && offered[k2] == fresh[first];
        assert(offered[k2].guid == offered[k].guid);
        assert(k2 == k);
    }
}

/// Reconciliation is idempotent: once the outcome of a poll has been
/// written, offering the same items again yields nothing New and nothing
/// Updated, whatever ids storage chose. This holds where no two stored
/// records share an id and no two offered items share a guid.
pub proof fn lemma_second_poll_is_quiet(
    prior: Seq<StoredItemView>,
    feed_id: i32,
    offered: Seq<ItemView>,
    ids: Seq<i32>,
)
    requires
        distinct_ids(prior),
        distinct_guids(offered),
    ensures
        forall|k: int|
            0 <= k < offered.len() ==> classification(
                committed(prior, feed_id, offered, ids),
                feed_id,
                #[trigger] offered[k],
            ) is Unchanged,
        new_of(committed(prior, feed_id, offered, ids), feed_id, offered).len() == 0,
        updated_of(committed(prior, feed_id, offered, ids), feed_id, offered).len() == 0,
{
    let after = committed(prior, feed_id, offered, ids);
    assert forall|k: int| 0 <= k < offered.len() implies classification(
        after,
        feed_id,
        #[trigger] offered[k],
    ) is Unchanged by {
        lemma_offered_is_settled(prior, feed_id, offered, ids, k);
    }
    let is_new = |item: ItemView| classification(after, feed_id, item) is New;
    offered.lemma_all_neg_filter_empty(is_new);
    let pick = |item: ItemView| update_of(after, feed_id, item);
    lemma_filter_map_none(offered, pick);
}

} // verus!
