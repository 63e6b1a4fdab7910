//! Subscription fan-out: the unseen-item rows that make items visible to
//! subscribers.

use vstd::prelude::*;
use vstd::arithmetic::div_mod::lemma_fundamental_div_mod_converse;
use crate::models::SubscribedItem;

verus! {

/// The row that makes one item visible, unseen, to one subscriber.
pub open spec fn unseen_row(user_id: i32, item_id: i32) -> SubscribedItem {
    SubscribedItem { user_id, item_id, seen: false }
}

/// The cross product of subscribers and items as unseen rows: subscriber by
/// subscriber, and for each subscriber item by item.
pub open spec fn fan_out(items: Seq<i32>, subscribers: Seq<i32>) -> Seq<SubscribedItem> {
    Seq::new(
        subscribers.len() * items.len(),
        |k: int| unseen_row(subscribers[k / (items.len() as int)], items[k % (items.len() as int)]),
    )
}

/// The place of the row of subscriber `s` and item `i` in the fan-out.
proof fn lemma_row_index(n: int, m: int, s: int, i: int)
    requires
        0 <= s < m,
        0 <= i < n,
    ensures
        0 <= s * n + i < m * n,
        (s * n + i) / n == s,
        (s * n + i) % n == i,
{
    assert(0 <= s * n && s * n + n <= m * n) by (nonlinear_arith)
        requires
            0 <= s < m,
            0 < n,
    ;
    lemma_fundamental_div_mod_converse(s * n + i, n, s, i);
}

/// The subscriber and the item of the row at place `k` of the fan-out.
proof fn lemma_index_row(n: int, m: int, k: int)
    requires
        0 <= k < m * n,
        0 <= n,
        0 <= m,
    ensures
        0 < n,
        0 <= k / n < m,
        0 <= k % n < n,
        k == (k / n) * n + k % n,
{
    assert(0 < n) by (nonlinear_arith)
        requires
            0 <= k < m * n,
            0 <= n,
            0 <= m,
    ;
    vstd::arithmetic::div_mod::lemma_fundamental_div_mod(k, n);
    vstd::arithmetic::div_mod::lemma_mod_bound(k, n);
    let q = k / n;
    assert(0 <= q < m) by (nonlinear_arith)
        requires
            0 <= k < m * n,
            0 < n,
            k == n * q + k % n,
            0 <= k % n < n,
    ;
    assert(n * q == q * n) by (nonlinear_arith);
}

/// Creates the rows that make every item of `inserted_items` visible,
/// unseen, to every subscriber of `subscribers`.
pub fn subscribe_new_items(inserted_items: &Vec<i32>, subscribers: &Vec<i32>) -> (rows: Vec<
    SubscribedItem,
>)
    ensures
        rows@ == fan_out(inserted_items@, subscribers@),
        rows@.len() == inserted_items@.len() * subscribers@.len(),
        forall|k: int| 0 <= k < rows@.len() ==> !(#[trigger] rows@[k]).seen,
{
    let n = inserted_items.len();
    let m = subscribers.len();
    let ghost want = fan_out(inserted_items@, subscribers@);
    let mut rows: Vec<SubscribedItem> = Vec::new();
    let mut s: usize = 0;
    while s < m
        invariant
            s <= m,
            n == inserted_items@.len(),
            m == subscribers@.len(),
            want == fan_out(inserted_items@, subscribers@),
            rows@.len() == s * n,
            forall|k: int| 0 <= k < rows@.len() ==> rows@[k] == want[k],
        decreases m - s,
    {
        let user_id = subscribers[s];
        let mut i: usize = 0;
        while i < n
            invariant
                s < m,
                i <= n,
                n == inserted_items@.len(),
                m == subscribers@.len(),
                user_id == subscribers@[s as int],
                want == fan_out(inserted_items@, subscribers@),
                rows@.len() == s * n + i,
                forall|k: int| 0 <= k < rows@.len() ==> rows@[k] == want[k],
            decreases n - i,
        {
            proof {
                lemma_row_index(n as int, m as int, s as int, i as int);
            }
            rows.push(SubscribedItem { user_id, item_id: inserted_items[i], seen: false });
            i += 1;
        }
        proof {
            assert((s + 1) * n == s * n + n) by (nonlinear_arith);
        }
        s += 1;
    }
    proof {
        assert(m * n == n * m) by (nonlinear_arith);
        assert(rows@ =~= want);
    }
    rows
}

/// Fan-out is complete and exact: for N items and M subscribers it holds
/// N×M rows, every row is unseen and pairs a subscriber with an item, and
/// every pair of a subscriber and an item has its row.
pub proof fn lemma_fan_out_complete(items: Seq<i32>, subscribers: Seq<i32>)
    ensures
        fan_out(items, subscribers).len() == items.len() * subscribers.len(),
        forall|k: int|
            0 <= k < fan_out(items, subscribers).len() ==> {
                let row = #[trigger] fan_out(items, subscribers)[k];
                !row.seen && subscribers.contains(row.user_id) && items.contains(row.item_id)
            },
        forall|s: int, i: int|
            0 <= s < subscribers.len() && 0 <= i < items.len() ==> fan_out(
                items,
                subscribers,
            ).contains(#[trigger] unseen_row(subscribers[s], items[i])),
{
    let n = items.len() as int;
    let m = subscribers.len() as int;
    let rows = fan_out(items, subscribers);
    assert(m * n == n * m) by (nonlinear_arith);
    assert forall|k: int| 0 <= k < rows.len() implies {
        let row = #[trigger] rows[k];
        !row.seen && subscribers.contains(row.user_id) && items.contains(row.item_id)
    } by {
        lemma_index_row(n, m, k);
        assert(rows[k].user_id == subscribers[k / n]);
        assert(rows[k].item_id == items[k % n]);
    }
    assert forall|s: int, i: int|
        0 <= s < subscribers.len() && 0 <= i < items.len() implies rows.contains(
        #[trigger] unseen_row(subscribers[s], items[i]),
    ) by {
        lemma_row_index(n, m, s, i);
        assert(rows[s * n + i] == unseen_row(subscribers[s], items[i]));
    }
}

} // verus!
