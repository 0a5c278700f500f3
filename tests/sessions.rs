use valetudo_dreameadapter_map::reaper::{active_threshold, sweep};
use valetudo_dreameadapter_map::session::{DialogueState, Session};
use valetudo_dreameadapter_map::store::SessionStore;

fn session(user: u64, last_active: u64) -> Session {
    Session { user_key: user, chat_key: -(user as i64), state: DialogueState::AwaitingLocation, last_active }
}

#[test]
fn thresholds() {
    assert_eq!(active_threshold(0), 14_400);
    assert_eq!(active_threshold(10_000), 14_400);
    assert_eq!(active_threshold(10_001), 900);
}

#[test]
fn store_put_get_remove() {
    let mut store = SessionStore::new();
    store.put(session(1, 5));
    store.put(session(2, 6));
    store.put(session(1, 7));
    assert_eq!(store.len(), 2);
    assert_eq!(store.get(1), Some(session(1, 7)));
    assert_eq!(store.remove(1), Some(session(1, 7)));
    assert_eq!(store.remove(1), None);
    assert_eq!(store.len(), 1);
    assert_eq!(store.get(2), Some(session(2, 6)));
}

#[test]
fn sweep_removes_idle_sessions_once() {
    let mut store = SessionStore::new();
    store.put(session(1, 0));
    store.put(session(2, 1_000));
    store.put(session(3, 100));
    let notices = sweep(&mut store, 14_401);
    assert_eq!(notices, vec![(1, -1)]);
    assert_eq!(store.len(), 2);
    assert_eq!(store.get(1), None);
    assert_eq!(store.get(2), Some(session(2, 1_000)));
    assert_eq!(store.get(3), Some(session(3, 100)));
    assert!(sweep(&mut store, 14_401).is_empty());
}

#[test]
fn sweep_at_exact_threshold_keeps_session() {
    let mut store = SessionStore::new();
    store.put(session(1, 100));
    assert!(sweep(&mut store, 14_500).is_empty());
    assert_eq!(store.len(), 1);
    assert_eq!(sweep(&mut store, 14_501), vec![(1, -1)]);
}

#[test]
fn sweep_uses_short_timeout_when_flooded() {
    let mut store = SessionStore::new();
    for u in 0..10_001u64 {
        store.put(session(u, if u == 0 { 0 } else { 5_000 }));
    }
    let notices = sweep(&mut store, 5_900);
    assert_eq!(notices, vec![(0, 0)]);
    assert_eq!(store.len(), 10_000);
    assert!(sweep(&mut store, 5_900).is_empty());
}

#[test]
fn clock_behind_session_is_not_idle() {
    let mut store = SessionStore::new();
    store.put(session(1, 50_000));
    assert!(sweep(&mut store, 10).is_empty());
    assert_eq!(store.len(), 1);
}

#[test]
fn finalize_and_sweep_race_one_wins() {
    for finalize_first in [true, false] {
        let mut store = SessionStore::new();
        store.put(session(1, 0));
        store.put(session(2, 20_000));
        let before = store.len();
        if finalize_first {
            assert!(store.remove(1).is_some());
            assert!(sweep(&mut store, 20_000).is_empty());
        } else {
            assert_eq!(sweep(&mut store, 20_000), vec![(1, -1)]);
            assert!(store.remove(1).is_none());
        }
        assert_eq!(store.len(), before - 1);
    }
}
