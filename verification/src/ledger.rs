//! The ledger: every entry under its sequence number, numbered upwards from 1.

use vstd::prelude::*;
use vstd::std_specs::hash::*;
use vstd::std_specs::iter::IteratorSpec;
use std::collections::HashMap;
use crate::structure::TradeHistory;

verus! {

/// `k` is the largest of `keys`.
pub open spec fn is_last_sequence(keys: Set<i64>, k: i64) -> bool {
    keys.contains(k) && forall|j: i64| keys.contains(j) ==> j <= k
}

/// The number after the largest of `keys`, and 1 where there is none.
pub open spec fn next_sequence_spec(keys: Set<i64>) -> int {
    if exists|k: i64| is_last_sequence(keys, k) {
        (choose|k: i64| is_last_sequence(keys, k)) + 1
    } else {
        1
    }
}

/// A set has at most one largest element.
pub proof fn lemma_last_sequence_unique(keys: Set<i64>, a: i64, b: i64)
    requires
        is_last_sequence(keys, a),
        is_last_sequence(keys, b),
    ensures
        a == b,
{
}

/// The largest sequence number in the ledger, if it has an entry.
pub fn last_sequence(trade_map: &HashMap<i64, TradeHistory>) -> (r: Option<i64>)
    ensures
        (match r {
            Some(k) => is_last_sequence(trade_map@.dom(), k),
            None => trade_map@.dom() =~= Set::<i64>::empty(),
        }),
{
    let mut best: Option<i64> = None;
    for k in it: trade_map.keys()
        invariant
            it.seq() == spec_keys_iter(trade_map).remaining(),
            best is None ==> it.index() == 0,
            best matches Some(b) ==> exists|j: int| 0 <= j < it.index() && *it.seq()[j] == b,
            best matches Some(b) ==> forall|j: int|
                0 <= j < it.index() ==> *#[trigger] it.seq()[j] <= b,
    {
        assert(*k == *it.seq()[it.index()]);
        match best {
            Some(b) => {
                if *k > b {
                    best = Some(*k);
                }
            },
            None => {
                best = Some(*k);
            },
        }
    }
    proof {
        let walked = spec_keys_iter(trade_map).remaining();
        axiom_spec_keys_iter(trade_map);
        match best {
            Some(b) => {
                let j = choose|j: int| 0 <= j < walked.len() && *walked[j] == b;
                assert(walked.unref()[j] == b);
                assert(walked.unref().to_set().contains(b));
                assert forall|x: i64| trade_map@.dom().contains(x) implies x <= b by {
                    assert(walked.unref().to_set().contains(x));
                    let i = choose|i: int| 0 <= i < walked.unref().len() && walked.unref()[i] == x;
                    assert(*walked[i] == x);
                }
            },
            None => {
                assert(walked.unref().len() == 0);
                assert(walked.unref().to_set() =~= Set::<i64>::empty());
            },
        }
    }
    best
}

/// The sequence number that the next entry gets: one more than the largest in
/// the ledger, or 1 in an empty ledger. `None` where that number is past the
/// last `i64`.
pub fn next_sequence(trade_map: &HashMap<i64, TradeHistory>) -> (r: Option<i64>)
    ensures
        r is Some <==> next_sequence_spec(trade_map@.dom()) <= i64::MAX,
        r matches Some(n) ==> n == next_sequence_spec(trade_map@.dom()),
{
    match last_sequence(trade_map) {
        Some(last) => {
            proof {
                let keys = trade_map@.dom();
                let chosen = choose|k: i64| is_last_sequence(keys, k);
                lemma_last_sequence_unique(keys, chosen, last);
            }
            if last < i64::MAX {
                Some(last + 1)
            } else {
                None
            }
        },
        None => {
            proof {
                let keys = trade_map@.dom();
                assert(!exists|k: i64| is_last_sequence(keys, k));
            }
            Some(1)
        },
    }
}

} // verus!
