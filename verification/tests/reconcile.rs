use feed_aggregator::fanout::subscribe_new_items;
use feed_aggregator::models::{Item, StoredItem, SubscribedItem, Timestamp};
use feed_aggregator::reconcile::{
    classify, find_stored, process_duplicates, same_instant, Classification,
};

fn at(secs: i64) -> Option<Timestamp> {
    Some(Timestamp { secs, nanos: 0 })
}

fn item(guid: &str, published_at: Option<Timestamp>) -> Item {
    Item {
        guid: guid.to_string(),
        link: format!("https://example.org/{}", guid),
        title: format!("Title of {}", guid),
        summary: None,
        content: None,
        published_at,
        updated_at: published_at,
    }
}

fn stored(id: i32, feed_id: i32, guid: &str, published_at: Option<Timestamp>) -> StoredItem {
    StoredItem { id, feed_id, guid: guid.to_string(), published_at }
}

/// Storage after an outcome has been written: updates in place, inserts
/// under fresh ids.
fn commit(
    prior: &mut Vec<StoredItem>,
    feed_id: i32,
    fresh: &Option<Vec<Item>>,
    updated: &Vec<(i32, Item)>,
) -> Vec<i32> {
    for (id, new) in updated {
        for record in prior.iter_mut() {
            if record.id == *id {
                record.published_at = new.published_at;
            }
        }
    }
    let mut ids = Vec::new();
    if let Some(items) = fresh {
        for new in items {
            let id = prior.iter().map(|r| r.id).max().unwrap_or(0) + 1;
            prior.push(stored(id, feed_id, &new.guid, new.published_at));
            ids.push(id);
        }
    }
    ids
}

#[test]
fn unknown_guid_is_new() {
    let prior = vec![stored(1, 7, "g1", at(100))];
    assert_eq!(classify(&prior, 7, &item("g2", at(100))), Classification::New);
}

#[test]
fn changed_date_is_updated_and_keeps_the_stored_id() {
    let prior = vec![stored(41, 7, "g", at(100))];
    assert_eq!(classify(&prior, 7, &item("g", at(200))), Classification::Updated(41));
    let outcome = process_duplicates(7, vec![item("g", at(200))], &prior);
    assert_eq!(outcome.new_items, None);
    assert_eq!(outcome.updated_items, vec![(41, item("g", at(200)))]);
}

#[test]
fn same_date_is_neither_inserted_nor_updated() {
    let prior = vec![stored(41, 7, "g", at(100))];
    assert_eq!(classify(&prior, 7, &item("g", at(100))), Classification::Unchanged);
    let outcome = process_duplicates(7, vec![item("g", at(100))], &prior);
    assert_eq!(outcome.new_items, None);
    assert_eq!(outcome.updated_items, vec![]);
}

#[test]
fn a_date_that_appears_or_disappears_is_a_change() {
    let prior = vec![stored(1, 7, "a", None), stored(2, 7, "b", at(5))];
    assert_eq!(classify(&prior, 7, &item("a", at(5))), Classification::Updated(1));
    assert_eq!(classify(&prior, 7, &item("b", None)), Classification::Updated(2));
    assert_eq!(classify(&prior, 7, &item("a", None)), Classification::Unchanged);
}

#[test]
fn nanoseconds_count_for_the_date() {
    let prior = vec![stored(1, 7, "a", Some(Timestamp { secs: 5, nanos: 1 }))];
    let offered = item("a", Some(Timestamp { secs: 5, nanos: 2 }));
    assert_eq!(classify(&prior, 7, &offered), Classification::Updated(1));
}

#[test]
fn guids_are_scoped_by_feed() {
    let prior = vec![stored(1, 8, "g", at(100)), stored(2, 7, "g", at(300))];
    assert_eq!(classify(&prior, 9, &item("g", at(100))), Classification::New);
    assert_eq!(classify(&prior, 8, &item("g", at(100))), Classification::Unchanged);
    assert_eq!(classify(&prior, 7, &item("g", at(100))), Classification::Updated(2));
    assert_eq!(find_stored(&prior, 7, &"g".to_string()), Some(&prior[1]));
    assert_eq!(find_stored(&prior, 7, &"h".to_string()), None);
}

#[test]
fn first_poll_of_an_empty_feed_inserts_everything_in_order() {
    let offered = vec![item("g1", at(1)), item("g2", at(2)), item("g3", None)];
    let outcome = process_duplicates(7, offered.clone(), &vec![]);
    assert_eq!(outcome.new_items, Some(offered));
    assert_eq!(outcome.updated_items, vec![]);
}

#[test]
fn an_empty_poll_yields_nothing() {
    let prior = vec![stored(1, 7, "g1", at(1))];
    let outcome = process_duplicates(7, vec![], &prior);
    assert_eq!(outcome.new_items, None);
    assert_eq!(outcome.updated_items, vec![]);
}

#[test]
fn mixed_poll_is_split_in_offered_order() {
    let prior = vec![stored(1, 7, "a", at(1)), stored(2, 7, "b", at(2)), stored(3, 7, "c", at(3))];
    let offered = vec![
        item("x", at(9)),
        item("c", at(30)),
        item("b", at(2)),
        item("y", at(8)),
        item("a", at(10)),
    ];
    let outcome = process_duplicates(7, offered, &prior);
    assert_eq!(outcome.new_items, Some(vec![item("x", at(9)), item("y", at(8))]));
    assert_eq!(outcome.updated_items, vec![(3, item("c", at(30))), (1, item("a", at(10)))]);
}

#[test]
fn second_identical_poll_yields_nothing() {
    let mut store = vec![stored(1, 7, "a", at(1)), stored(2, 8, "b", at(2))];
    let offered = vec![item("a", at(5)), item("b", at(2)), item("c", at(3))];
    let first = process_duplicates(7, offered.clone(), &store);
    assert_eq!(first.new_items, Some(vec![item("b", at(2)), item("c", at(3))]));
    assert_eq!(first.updated_items, vec![(1, item("a", at(5)))]);
    commit(&mut store, 7, &first.new_items, &first.updated_items);
    let second = process_duplicates(7, offered, &store);
    assert_eq!(second.new_items, None);
    assert_eq!(second.updated_items, vec![]);
}

#[test]
fn three_polls_end_to_end() {
    let (t1, t2, t3, t4) = (at(1000), at(2000), at(3000), at(4000));
    let subscribers = vec![501, 502];
    let mut store: Vec<StoredItem> = Vec::new();

    let first = process_duplicates(7, vec![item("g1", t1), item("g2", t2)], &store);
    assert_eq!(first.new_items, Some(vec![item("g1", t1), item("g2", t2)]));
    assert_eq!(first.updated_items, vec![]);
    let ids = commit(&mut store, 7, &first.new_items, &first.updated_items);
    assert_eq!(ids, vec![1, 2]);

    let second =
        process_duplicates(7, vec![item("g1", t1), item("g2", t2), item("g3", t3)], &store);
    assert_eq!(second.new_items, Some(vec![item("g3", t3)]));
    assert_eq!(second.updated_items, vec![]);
    let ids = commit(&mut store, 7, &second.new_items, &second.updated_items);
    assert_eq!(ids, vec![3]);
    assert_eq!(
        subscribe_new_items(&ids, &subscribers),
        vec![
            SubscribedItem { user_id: 501, item_id: 3, seen: false },
            SubscribedItem { user_id: 502, item_id: 3, seen: false },
        ]
    );

    let third =
        process_duplicates(7, vec![item("g1", t1), item("g2", t4), item("g3", t3)], &store);
    assert_eq!(third.new_items, None);
    assert_eq!(third.updated_items, vec![(2, item("g2", t4))]);
    let ids = commit(&mut store, 7, &third.new_items, &third.updated_items);
    assert_eq!(subscribe_new_items(&ids, &subscribers), vec![]);
    assert_eq!(store[1], stored(2, 7, "g2", t4));
}

#[test]
fn instants_compare_by_both_fields() {
    assert!(same_instant(&at(5), &at(5)));
    assert!(same_instant(&None, &None));
    assert!(!same_instant(&at(5), &at(6)));
    assert!(!same_instant(&at(5), &None));
    assert!(!same_instant(&None, &at(5)));
    assert!(!same_instant(
        &Some(Timestamp { secs: 5, nanos: 0 }),
        &Some(Timestamp { secs: 5, nanos: 7 })
    ));
}
