use vstd::prelude::*;

use crate::session::Session;
use crate::store::{is_idle, lists_idle, SessionStore};

verus! {

/// Seconds between two sweeps for idle sessions.
pub const SWEEP_INTERVAL_SECS: u64 = 300;

/// Above this many sessions the store is taken to be flooded.
pub const HIGH_WATER_MARK: usize = 10_000;

/// How long a session may idle while the store is not flooded, in seconds.
pub const NORMAL_TIMEOUT_SECS: u64 = 14_400;

/// How long a session may idle while the store is flooded, in seconds.
pub const FLOOD_TIMEOUT_SECS: u64 = 900;

/// The idle timeout that applies while `count` sessions are in progress.
pub open spec fn timeout_for(count: nat) -> u64 {
    if count > HIGH_WATER_MARK {
        FLOOD_TIMEOUT_SECS
    } else {
        NORMAL_TIMEOUT_SECS
    }
}

/// The idle timeout that applies while `session_count` sessions are in
/// progress: shortened while the store is flooded.
pub fn active_threshold(session_count: usize) -> (r: u64)
    ensures
        r == timeout_for(session_count as nat),
{
    if session_count > HIGH_WATER_MARK {
        FLOOD_TIMEOUT_SECS
    } else {
        NORMAL_TIMEOUT_SECS
    }
}

/// `after` is `before` without the sessions idle at `now`, which it keeps unchanged.
pub open spec fn swept(before: Map<u64, Session>, after: Map<u64, Session>, now: u64, threshold: u64) -> bool {
    &&& forall|k: u64|
        #[trigger] after.contains_key(k) == (before.contains_key(k) && !is_idle(before[k], now, threshold))
    &&& forall|k: u64| #[trigger] after.contains_key(k) ==> after[k] == before[k]
}

/// One sweep at time `now`: removes every session idle for longer than the
/// timeout that the current number of sessions calls for, and returns the
/// user and chat keys of those removed, each once, to be told of the cancellation.
pub fn sweep(store: &mut SessionStore, now: u64) -> (r: Vec<(u64, i64)>)
    requires
        old(store).wf(),
    ensures
        final(store).wf(),
        swept(old(store)@, final(store)@, now, timeout_for(old(store)@.len())),
        lists_idle(old(store)@, now, timeout_for(old(store)@.len()), r@),
{
    let threshold = active_threshold(store.len());
    let idle = store.idle_sessions(now, threshold);
    let ghost m0 = store@;
    let mut i: usize = 0;
    while i < idle.len()
        invariant
            store.wf(),
            i <= idle@.len(),
            lists_idle(m0, now, threshold, idle@),
            forall|k: u64|
                #[trigger] store@.contains_key(k) == (m0.contains_key(k) && !exists|j: int|
                    0 <= j < i && idle@[j].0 == k),
            forall|k: u64| #[trigger] store@.contains_key(k) ==> store@[k] == m0[k],
        decreases idle@.len() - i,
    {
        let ghost m1 = store@;
        let _ = store.remove(idle[i].0);
        proof {
            assert forall|k: u64|
                #[trigger] store@.contains_key(k) == (m0.contains_key(k) && !exists|j: int|
                    0 <= j < i + 1 && idle@[j].0 == k) by {
                if k != idle@[i as int].0 {
                    assert(store@.contains_key(k) == m1.contains_key(k));
                    if exists|j: int| 0 <= j < i + 1 && idle@[j].0 == k {
                        let j = choose|j: int| 0 <= j < i + 1 && idle@[j].0 == k;
                        assert(j != i);
                    }
                } else {
                    assert(!store@.contains_key(k));
                }
            }
        }
        i = i + 1;
    }
    proof {
        assert forall|k: u64|
            #[trigger] store@.contains_key(k) == (m0.contains_key(k) && !is_idle(m0[k], now, threshold)) by {
            if m0.contains_key(k) && is_idle(m0[k], now, threshold) {
                let j = choose|j: int| 0 <= j < idle@.len() && idle@[j].0 == k;
                assert(idle@[j].0 == k);
            }
            if exists|j: int| 0 <= j < idle@.len() && idle@[j].0 == k {
                let j = choose|j: int| 0 <= j < idle@.len() && idle@[j].0 == k;
                assert(m0.contains_key(idle@[j].0));
            }
        }
    }
    idle
}

} // verus!
