use vstd::prelude::*;

use crate::session::Session;

verus! {

/// Whether some session in `s` belongs to `k`.
pub open spec fn holds_key(s: Seq<Session>, k: u64) -> bool {
    exists|i: int| 0 <= i < s.len() && s[i].user_key == k
}

/// The position of `k`'s session in `s`.
pub open spec fn index_of(s: Seq<Session>, k: u64) -> int {
    choose|i: int| 0 <= i < s.len() && s[i].user_key == k
}

/// No two sessions of `s` belong to the same user.
pub open spec fn keys_unique(s: Seq<Session>) -> bool {
    forall|i: int, j: int|
        0 <= i < s.len() && 0 <= j < s.len() && i != j ==> s[i].user_key != s[j].user_key
}

/// The sessions of `s` as a map from user key to session.
pub open spec fn as_map(s: Seq<Session>) -> Map<u64, Session> {
    Map::new(|k: u64| holds_key(s, k), |k: u64| s[index_of(s, k)])
}

/// Whether `s` has been idle for longer than `threshold` at time `now`.
pub open spec fn is_idle(s: Session, now: u64, threshold: u64) -> bool {
    now as int - s.last_active as int > threshold as int
}

/// `r` lists each session of `m` idle at `now` exactly once, as its user key
/// and the chat to notify, and nothing else.
pub open spec fn lists_idle(m: Map<u64, Session>, now: u64, threshold: u64, r: Seq<(u64, i64)>) -> bool {
    &&& forall|i: int, j: int| 0 <= i < r.len() && 0 <= j < r.len() && i != j ==> r[i].0 != r[j].0
    &&& forall|i: int|
        0 <= i < r.len() ==> {
            &&& m.contains_key(#[trigger] r[i].0)
            &&& is_idle(m[r[i].0], now, threshold)
            &&& r[i].1 == m[r[i].0].chat_key
        }
    &&& forall|k: u64|
        #[trigger] m.contains_key(k) && is_idle(m[k], now, threshold) ==> exists|i: int|
            0 <= i < r.len() && r[i].0 == k
}

/// Some session of `s` before position `i` is idle and listed as `e`.
spec fn idle_before(s: Seq<Session>, i: int, now: u64, threshold: u64, e: (u64, i64)) -> bool {
    exists|j: int| 0 <= j < i && #[trigger] s[j].user_key == e.0 && s[j].chat_key == e.1 && is_idle(s[j], now, threshold)
}

/// The sessions in progress, at most one for each user.
pub struct SessionStore {
    sessions: Vec<Session>,
}

proof fn lemma_index_of(s: Seq<Session>, i: int)
    requires
        keys_unique(s),
        0 <= i < s.len(),
    ensures
        holds_key(s, s[i].user_key),
        index_of(s, s[i].user_key) == i,
{
    let k = s[i].user_key;
    assert(holds_key(s, k));
    let j = index_of(s, k);
    assert(s[j].user_key == k);
}

impl View for SessionStore {
    type V = Map<u64, Session>;

    closed spec fn view(&self) -> Map<u64, Session> {
        as_map(self.sessions@)
    }
}

impl SessionStore {
    /// Keys are unique and each session is filed under its own user key.
    pub closed spec fn wf(&self) -> bool {
        keys_unique(self.sessions@)
    }

    /// A store holds finitely many sessions, each under its own user key.
    pub proof fn lemma_finite(&self)
        requires
            self.wf(),
        ensures
            self@.dom().finite(),
            forall|k: u64| #[trigger] self@.contains_key(k) ==> self@[k].user_key == k,
    {
        assert forall|k: u64| #[trigger] self@.contains_key(k) implies self@[k].user_key == k by {
            let i = index_of(self.sessions@, k);
            assert(self.sessions@[i].user_key == k);
        }
        self.lemma_len();
        let s = self.sessions@;
        let idx = vstd::set_lib::set_int_range(0, s.len() as int);
        let f = |i: int| s[i].user_key;
        assert(self@.dom() =~= idx.map(f)) by {
            assert forall|k: u64| #[trigger] self@.dom().contains(k) implies idx.map(f).contains(k) by {
                let j = index_of(s, k);
                assert(idx.contains(j) && f(j) == k);
            }
        }
        vstd::set_lib::lemma_int_range(0, s.len() as int);
        vstd::set_lib::lemma_map_size_bound(idx, idx.map(f), f);
    }

    /// An empty store.
    pub fn new() -> (r: SessionStore)
        ensures
            r.wf(),
            r@ == Map::<u64, Session>::empty(),
    {
        let r = SessionStore { sessions: Vec::new() };
        assert(r@ =~= Map::<u64, Session>::empty());
        r
    }

    /// The number of sessions in progress.
    pub fn len(&self) -> (r: usize)
        requires
            self.wf(),
        ensures
            r == self@.len(),
    {
        proof {
            self.lemma_len();
        }
        self.sessions.len()
    }

    proof fn lemma_len(&self)
        requires
            self.wf(),
        ensures
            self@.len() == self.sessions@.len(),
    {
        let s = self.sessions@;
        let idx = vstd::set_lib::set_int_range(0, s.len() as int);
        let f = |i: int| s[i].user_key;
        assert(self@.dom() =~= idx.map(f)) by {
            assert forall|k: u64| #[trigger] self@.dom().contains(k) implies idx.map(f).contains(k) by {
                let j = index_of(s, k);
                assert(idx.contains(j) && f(j) == k);
            }
        }
        vstd::set_lib::lemma_int_range(0, s.len() as int);
        assert(vstd::relations::injective_on(f, idx));
        vstd::set_lib::lemma_map_size(idx, idx.map(f), f);
    }

    fn find(&self, user_key: u64) -> (r: Option<usize>)
        requires
            self.wf(),
        ensures
            match r {
                Some(i) => i < self.sessions@.len() && self.sessions@[i as int].user_key == user_key,
                None => !holds_key(self.sessions@, user_key),
            },
    {
        let mut i: usize = 0;
        while i < self.sessions.len()
            invariant
                i <= self.sessions@.len(),
                forall|j: int| 0 <= j < i ==> self.sessions@[j].user_key != user_key,
            decreases self.sessions@.len() - i,
        {
            if self.sessions[i].user_key == user_key {
                return Some(i);
            }
            i = i + 1;
        }
        None
    }

    /// The session of `user_key`, if one is in progress.
    pub fn get(&self, user_key: u64) -> (r: Option<Session>)
        requires
            self.wf(),
        ensures
            r == (if self@.contains_key(user_key) {
                Some(self@[user_key])
            } else {
                None
            }),
    {
        match self.find(user_key) {
            Some(i) => {
                proof {
                    lemma_index_of(self.sessions@, i as int);
                }
                Some(self.sessions[i])
            },
            None => None,
        }
    }

    /// Files `session` under its user key, replacing the one there was.
    pub fn put(&mut self, session: Session)
        requires
            old(self).wf(),
        ensures
            final(self).wf(),
            final(self)@ == old(self)@.insert(session.user_key, session),
    {
        let ghost s0 = self.sessions@;
        match self.find(session.user_key) {
            Some(i) => {
                self.sessions.set(i, session);
                proof {
                    let s1 = self.sessions@;
                    assert forall|a: int, b: int|
                        0 <= a < s1.len() && 0 <= b < s1.len() && a != b implies s1[a].user_key
                        != s1[b].user_key by {
                        if a != i && b != i {
                            assert(s1[a] == s0[a] && s1[b] == s0[b]);
                        } else if a == i {
                            assert(s1[b] == s0[b]);
                        } else {
                            assert(s1[a] == s0[a]);
                        }
                    }
                    assert forall|k: u64| #[trigger] holds_key(s1, k) == (holds_key(s0, k) || k == session.user_key) by {
                        if holds_key(s0, k) {
                            let j = choose|j: int| 0 <= j < s0.len() && s0[j].user_key == k;
                            assert(s1[j].user_key == k);
                        }
                        if holds_key(s1, k) {
                            let j = choose|j: int| 0 <= j < s1.len() && s1[j].user_key == k;
                            if j != i {
                                assert(s0[j].user_key == k);
                            }
                        }
                    }
                    assert forall|k: u64| #[trigger] holds_key(s1, k) implies s1[index_of(s1, k)]
                        == old(self)@.insert(session.user_key, session)[k] by {
                        let j = index_of(s1, k);
                        lemma_index_of(s1, j);
                        if k != session.user_key {
                            assert(j != i);
                            lemma_index_of(s0, j);
                        }
                    }
                    assert(self@ =~= old(self)@.insert(session.user_key, session));
                }
            },
            None => {
                self.sessions.push(session);
                proof {
                    let s1 = self.sessions@;
                    assert forall|k: u64| #[trigger] holds_key(s1, k) == (holds_key(s0, k) || k == session.user_key) by {
                        if holds_key(s0, k) {
                            let j = choose|j: int| 0 <= j < s0.len() && s0[j].user_key == k;
                            assert(s1[j].user_key == k);
                        }
                        if k == session.user_key {
                            assert(s1[s0.len() as int].user_key == k);
                        }
                    }
                    assert forall|k: u64| #[trigger] holds_key(s1, k) implies s1[index_of(s1, k)]
                        == old(self)@.insert(session.user_key, session)[k] by {
                        let j = index_of(s1, k);
                        lemma_index_of(s1, j);
                        if k != session.user_key {
                            lemma_index_of(s0, j);
                        }
                    }
                    assert(self@ =~= old(self)@.insert(session.user_key, session));
                }
            },
        }
    }

    /// Takes out the session of `user_key`; a missing one is no error.
    pub fn remove(&mut self, user_key: u64) -> (r: Option<Session>)
        requires
            old(self).wf(),
        ensures
            final(self).wf(),
            final(self)@ == old(self)@.remove(user_key),
            r == (if old(self)@.contains_key(user_key) {
                Some(old(self)@[user_key])
            } else {
                None
            }),
    {
        let ghost s0 = self.sessions@;
        match self.find(user_key) {
            Some(i) => {
                proof {
                    lemma_index_of(s0, i as int);
                }
                let removed = self.sessions.remove(i);
                proof {
                    let s1 = self.sessions@;
                    assert(s1 =~= s0.remove(i as int));
                    assert forall|a: int, b: int|
                        0 <= a < s1.len() && 0 <= b < s1.len() && a != b implies s1[a].user_key
                        != s1[b].user_key by {
                        let a0 = if a < i { a } else { a + 1 };
                        let b0 = if b < i { b } else { b + 1 };
                        assert(s1[a] == s0[a0] && s1[b] == s0[b0]);
                    }
                    assert forall|k: u64| #[trigger] holds_key(s1, k) == (holds_key(s0, k) && k != user_key) by {
                        if holds_key(s0, k) && k != user_key {
                            let j = choose|j: int| 0 <= j < s0.len() && s0[j].user_key == k;
                            assert(j != i);
                            let j1 = if j < i { j } else { j - 1 };
                            assert(s1[j1].user_key == k);
                        }
                        if holds_key(s1, k) {
                            let j = choose|j: int| 0 <= j < s1.len() && s1[j].user_key == k;
                            let j0 = if j < i { j } else { j + 1 };
                            assert(s0[j0].user_key == k);
                            assert(j0 != i);
                        }
                    }
                    assert forall|k: u64| #[trigger] holds_key(s1, k) implies s1[index_of(s1, k)]
                        == old(self)@.remove(user_key)[k] by {
                        let j = index_of(s1, k);
                        lemma_index_of(s1, j);
                        let j0 = if j < i { j } else { j + 1 };
                        assert(s1[j] == s0[j0]);
                        lemma_index_of(s0, j0);
                    }
                    assert(self@ =~= old(self)@.remove(user_key));
                }
                Some(removed)
            },
            None => {
                proof {
                    assert(self@ =~= old(self)@.remove(user_key));
                }
                None
            },
        }
    }
    /// The user and chat keys of every session idle for longer than
    /// `threshold` at time `now`.
    pub fn idle_sessions(&self, now: u64, threshold: u64) -> (r: Vec<(u64, i64)>)
        requires
            self.wf(),
        ensures
            lists_idle(self@, now, threshold, r@),
    {
        let ghost s = self.sessions@;
        let mut r: Vec<(u64, i64)> = Vec::new();
        let mut i: usize = 0;
        while i < self.sessions.len()
            invariant
                s == self.sessions@,
                keys_unique(s),
                i <= s.len(),
                r@.len() <= i,
                forall|a: int, b: int| 0 <= a < r@.len() && 0 <= b < r@.len() && a != b ==> r@[a].0 != r@[b].0,
                forall|a: int| 0 <= a < r@.len() ==> idle_before(s, i as int, now, threshold, #[trigger] r@[a]),
                forall|j: int| 0 <= j < i && is_idle(s[j], now, threshold) ==> exists|a: int| 0 <= a < r@.len() && #[trigger] r@[a].0 == s[j].user_key,
            decreases s.len() - i,
        {
            let sess = self.sessions[i];
            if now > sess.last_active && now - sess.last_active > threshold {
                proof {
                    assert forall|a: int| 0 <= a < r@.len() implies r@[a].0 != sess.user_key by {
                        let j = choose|j: int| 0 <= j < i && #[trigger] s[j].user_key == r@[a].0 && s[j].chat_key == r@[a].1 && is_idle(s[j], now, threshold);
                assert(idle_before(s, i as int, now, threshold, r@[a]));
                        assert(j != i);
                    }
                }
                let ghost r0 = r@;
                r.push((sess.user_key, sess.chat_key));
                proof {
                    let n = r@.len() - 1;
                    assert(s[i as int].user_key == r@[n].0);
                    assert forall|j: int| 0 <= j < i + 1 && is_idle(s[j], now, threshold) implies exists|a: int| 0 <= a < r@.len() && #[trigger] r@[a].0 == s[j].user_key by {
                        if j < i {
                            let a = choose|a: int| 0 <= a < r0.len() && #[trigger] r0[a].0 == s[j].user_key;
                            assert(r@[a] == r0[a]);
                        } else {
                            assert(r@[n].0 == s[j].user_key);
                        }
                    }
                }
            }
            i = i + 1;
        }
        proof {
            assert forall|a: int| 0 <= a < r@.len() implies {
                &&& self@.contains_key(#[trigger] r@[a].0)
                &&& is_idle(self@[r@[a].0], now, threshold)
                &&& r@[a].1 == self@[r@[a].0].chat_key
            } by {
                let j = choose|j: int| 0 <= j < i && #[trigger] s[j].user_key == r@[a].0 && s[j].chat_key == r@[a].1 && is_idle(s[j], now, threshold);
                assert(idle_before(s, i as int, now, threshold, r@[a]));
                lemma_index_of(s, j);
            }
            assert forall|k: u64| #[trigger] self@.contains_key(k) && is_idle(self@[k], now, threshold) implies exists|a: int| 0 <= a < r@.len() && r@[a].0 == k by {
                let j = index_of(s, k);
                assert(s[j].user_key == k);
            }
        }
        r
    }
}

} // verus!
