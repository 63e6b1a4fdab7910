use feed_aggregator::scheduler::{FeedSubscribers, Scheduler};

fn row(feed_id: i32, subscribers: Vec<i32>) -> FeedSubscribers {
    FeedSubscribers {
        feed_id,
        feed_url: format!("https://example.org/{}.xml", feed_id),
        subscriber_ids: subscribers,
    }
}

#[test]
fn first_tick_starts_every_feed() {
    let mut scheduler = Scheduler::new();
    let snapshot = vec![row(3, vec![1]), row(1, vec![1, 2]), row(2, vec![])];
    assert_eq!(scheduler.tick(&snapshot), vec![0, 1, 2]);
    assert!(scheduler.is_running(1) && scheduler.is_running(2) && scheduler.is_running(3));
    assert!(!scheduler.is_running(4));
}

#[test]
fn a_feed_in_flight_is_not_started_again() {
    let mut scheduler = Scheduler::new();
    let snapshot = vec![row(1, vec![1]), row(2, vec![1])];
    assert_eq!(scheduler.tick(&snapshot), vec![0, 1]);
    assert_eq!(scheduler.tick(&snapshot), vec![]);
    scheduler.complete(2);
    assert!(!scheduler.is_running(2));
    assert!(scheduler.is_running(1));
    assert_eq!(scheduler.tick(&snapshot), vec![1]);
}

#[test]
fn a_feed_named_twice_is_started_once() {
    let mut scheduler = Scheduler::new();
    let snapshot = vec![row(5, vec![1]), row(6, vec![2]), row(5, vec![3])];
    assert_eq!(scheduler.tick(&snapshot), vec![0, 1]);
    scheduler.complete(5);
    assert!(!scheduler.is_running(5));
    assert_eq!(scheduler.tick(&snapshot), vec![0]);
}

#[test]
fn an_empty_snapshot_starts_nothing() {
    let mut scheduler = Scheduler::new();
    assert_eq!(scheduler.tick(&vec![]), vec![]);
    assert!(!scheduler.is_running(0));
}

#[test]
fn completing_an_idle_feed_changes_nothing() {
    let mut scheduler = Scheduler::new();
    scheduler.tick(&vec![row(1, vec![])]);
    scheduler.complete(9);
    assert!(scheduler.is_running(1));
    assert!(!scheduler.is_running(9));
}
