//! The polling scheduler's decisions: which feeds of a snapshot a tick
//! starts a pipeline run for.
//!
//! A feed has at most one run in flight. A tick starts a run for every feed
//! of the snapshot that has none, and never waits for a run to end; the
//! driver reports the end of each run back.

use vstd::prelude::*;

verus! {

/// One row of the snapshot that a tick works on: a feed, the URL it is
/// polled from and the users subscribed to it.
#[derive(Debug, Clone, PartialEq, Eq)]
pub struct FeedSubscribers {
    pub feed_id: i32,
    pub feed_url: String,
    pub subscriber_ids: Vec<i32>,
}

/// The feeds that have a pipeline run in flight.
#[derive(Debug)]
pub struct Scheduler {
    running: Vec<i32>,
}

/// The feeds that the rows of a snapshot name, row by row.
pub open spec fn feed_ids(snapshot: Seq<FeedSubscribers>) -> Seq<i32> {
    snapshot.map_values(|row: FeedSubscribers| row.feed_id)
}

/// The feeds that the first `n` rows of a snapshot name.
pub open spec fn feeds_named(snapshot: Seq<FeedSubscribers>, n: int) -> Set<i32> {
    feed_ids(snapshot).take(n).to_set()
}

/// Whether a tick starts a run for row `i` of the snapshot: its feed has no
/// run in flight, and no earlier row of the snapshot names the same feed.
pub open spec fn is_due(running: Set<i32>, snapshot: Seq<FeedSubscribers>, i: int) -> bool {
    &&& 0 <= i < snapshot.len()
    &&& !running.contains(snapshot[i].feed_id)
    &&& !feeds_named(snapshot, i).contains(snapshot[i].feed_id)
}

/// The rows among the first `n` of a snapshot that a tick starts a run for,
/// in ascending order.
pub open spec fn due_rows(running: Set<i32>, snapshot: Seq<FeedSubscribers>, n: int) -> Seq<int>
    decreases n,
{
    if n <= 0 {
        Seq::empty()
    } else if is_due(running, snapshot, n - 1) {
        due_rows(running, snapshot, n - 1).push(n - 1)
    } else {
        due_rows(running, snapshot, n - 1)
    }
}

/// The rows of a list of jobs as mathematical integers.
pub open spec fn rows_of(jobs: Seq<usize>) -> Seq<int> {
    jobs.map_values(|row: usize| row as int)
}

/// One row more names one feed more.
proof fn lemma_feeds_named_next(snapshot: Seq<FeedSubscribers>, n: int)
    requires
        0 <= n < snapshot.len(),
    ensures
        feeds_named(snapshot, n + 1) == feeds_named(snapshot, n).insert(snapshot[n].feed_id),
{
    let ids = feed_ids(snapshot);
    assert(ids.take(n + 1) =~= ids.take(n).push(snapshot[n].feed_id));
    ids.take(n).lemma_push_to_set_commute(snapshot[n].feed_id);
}

impl View for Scheduler {
    type V = Set<i32>;

    closed spec fn view(&self) -> Set<i32> {
        self.running@.to_set()
    }
}

impl Scheduler {
    /// A scheduler with no run in flight.
    pub fn new() -> (s: Scheduler)
        ensures
            s@ == Set::<i32>::empty(),
    {
        let s = Scheduler { running: Vec::new() };
        assert(s.running@.to_set() =~= Set::<i32>::empty());
        s
    }

    /// Whether feed `feed_id` has a run in flight.
    pub fn is_running(&self, feed_id: i32) -> (r: bool)
        ensures
            r == self@.contains(feed_id),
    {
        let mut i: usize = 0;
        while i < self.running.len()
            invariant
                i <= self.running.len(),
                forall|j: int| 0 <= j < i ==> self.running@[j] != feed_id,
            decreases self.running.len() - i,
        {
            if self.running[i] == feed_id {
                assert(self.running@.contains(feed_id));
                return true;
            }
            i += 1;
        }
        assert(!self.running@.contains(feed_id));
        false
    }

    /// One tick over a snapshot of the feeds. Returns, in ascending order,
    /// the rows to start a pipeline run for: those that are due. Their feeds,
    /// and so all feeds of the snapshot, have a run in flight afterwards.
    pub fn tick(&mut self, snapshot: &Vec<FeedSubscribers>) -> (jobs: Vec<usize>)
        ensures
            rows_of(jobs@) == due_rows(old(self)@, snapshot@, snapshot@.len() as int),
            final(self)@ == old(self)@.union(feeds_named(snapshot@, snapshot@.len() as int)),
    {
        let ghost before = self@;
        let mut jobs: Vec<usize> = Vec::new();
        assert(self@ =~= before.union(feeds_named(snapshot@, 0)));
        assert(rows_of(jobs@) =~= due_rows(before, snapshot@, 0));
        for i in 0..snapshot.len()
            invariant
                self@ == before.union(feeds_named(snapshot@, i as int)),
                rows_of(jobs@) == due_rows(before, snapshot@, i as int),
        {
            let ghost started = jobs@;
            let feed_id = snapshot[i].feed_id;
            proof {
                lemma_feeds_named_next(snapshot@, i as int);
            }
            if !self.is_running(feed_id) {
                proof {
                    self.running@.lemma_push_to_set_commute(feed_id);
                }
                self.running.push(feed_id);
                jobs.push(i);
                assert(rows_of(jobs@) =~= rows_of(started).push(i as int));
            }
            assert(self@ =~= before.union(feeds_named(snapshot@, i + 1)));
        }
        jobs
    }

    /// Records that the run of feed `feed_id` has ended, by success or by
    /// failure. The feed is due again at the next tick.
    pub fn complete(&mut self, feed_id: i32)
        ensures
            final(self)@ == old(self)@.remove(feed_id),
    {
        let ghost before = self.running@;
        let mut kept: Vec<i32> = Vec::new();
        assert(kept@.to_set() =~= before.take(0).to_set().remove(feed_id));
        for i in 0..self.running.len()
            invariant
                self.running@ == before,
                kept@.to_set() == before.take(i as int).to_set().remove(feed_id),
        {
            let id = self.running[i];
            proof {
                assert(before.take(i + 1) =~= before.take(i as int).push(id));
                before.take(i as int).lemma_push_to_set_commute(id);
                kept@.lemma_push_to_set_commute(id);
            }
            if id != feed_id {
                kept.push(id);
            }
            assert(kept@.to_set() =~= before.take(i + 1).to_set().remove(feed_id));
        }
        assert(before.take(before.len() as int) =~= before);
        self.running = kept;
    }
}

/// A tick starts the rows that are due, each once and in ascending order.
pub proof fn lemma_due_rows(running: Set<i32>, snapshot: Seq<FeedSubscribers>, n: int)
    requires
        0 <= n <= snapshot.len(),
    ensures
        forall|a: int|
            0 <= a < due_rows(running, snapshot, n).len() ==> 0 <= (#[trigger] due_rows(
                running,
                snapshot,
                n,
            )[a]) < n && is_due(running, snapshot, due_rows(running, snapshot, n)[a]),
        forall|a: int, b: int|
            0 <= a < b < due_rows(running, snapshot, n).len() ==> due_rows(running, snapshot, n)[a]
                < due_rows(running, snapshot, n)[b],
        forall|i: int|
            0 <= i < n && is_due(running, snapshot, i) ==> due_rows(running, snapshot, n).contains(i),
    decreases n,
{
    if n > 0 {
        lemma_due_rows(running, snapshot, n - 1);
        let earlier = due_rows(running, snapshot, n - 1);
        let rows = due_rows(running, snapshot, n);
        assert forall|i: int| 0 <= i < n && is_due(running, snapshot, i) implies rows.contains(
            i,
        ) by {
            if i < n - 1 {
                let a = choose|a: int| 0 <= a < earlier.len() && earlier[a] == i;
                assert(rows[a] == i);
            } else {
                assert(rows[rows.len() - 1] == i);
            }
        }
    }
}

/// Single flight: a tick starts no run for a feed that has one in flight,
/// and starts at most one run per feed.
pub proof fn lemma_single_flight(running: Set<i32>, snapshot: Seq<FeedSubscribers>)
    ensures
        forall|a: int|
            0 <= a < due_rows(running, snapshot, snapshot.len() as int).len() ==> !running.contains(
                snapshot[#[trigger] due_rows(running, snapshot, snapshot.len() as int)[a]].feed_id,
            ),
        forall|a: int, b: int|
            0 <= a < b < due_rows(running, snapshot, snapshot.len() as int).len() ==> snapshot[due_rows(
                running,
                snapshot,
                snapshot.len() as int,
            )[a]].feed_id != snapshot[due_rows(running, snapshot, snapshot.len() as int)[b]].feed_id,
{
    let n = snapshot.len() as int;
    let rows = due_rows(running, snapshot, n);
    lemma_due_rows(running, snapshot, n);
    assert forall|a: int, b: int| 0 <= a < b < rows.len() implies snapshot[rows[a]].feed_id
        != snapshot[rows[b]].feed_id by {
        let i = rows[a];
        let j = rows[b];
        assert(is_due(running, snapshot, j));
        assert(feed_ids(snapshot).take(j)[i] == snapshot[i].feed_id);
    }
}

} // verus!
