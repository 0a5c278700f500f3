use vstd::prelude::*;

use crate::dialogue::{
    applied, next, no_answer, public_handle, record_wf, start_command, state_of, yes_answer,
    EventModel, ReplyModel, StoreChange,
};
use crate::escape::escaped;
use crate::reaper::swept;
use crate::session::{truncated, Coordinates, DialogueState, Session, MAX_NOTE_LEN};
use crate::store::{is_idle, lists_idle, SessionStore};

verus! {

/// A user without a session who sends anything but the start command gets the
/// help notice, and no session is created.
pub proof fn law_unknown_user_gets_help(m: Map<u64, Session>, ev: EventModel, now: u64)
    requires
        !m.contains_key(ev.user_key),
        ev.text != Some(start_command()),
    ensures
        next(state_of(m, ev.user_key), ev, now).reply == Some(ReplyModel::Help),
        next(state_of(m, ev.user_key), ev, now).record is None,
        applied(m, ev.user_key, next(state_of(m, ev.user_key), ev, now).change) == m,
{
}

/// A user without a session who has a public handle and sends the start
/// command is greeted, and a session awaiting the location is created.
pub proof fn law_start_opens_session(m: Map<u64, Session>, ev: EventModel, now: u64)
    requires
        !m.contains_key(ev.user_key),
        public_handle(ev) is Some,
        ev.text == Some(start_command()),
    ensures
        next(state_of(m, ev.user_key), ev, now).reply == Some(ReplyModel::Greeting(escaped(ev.first_name))),
        applied(m, ev.user_key, next(state_of(m, ev.user_key), ev, now).change).contains_key(ev.user_key),
        applied(m, ev.user_key, next(state_of(m, ev.user_key), ev, now).change)[ev.user_key].state
            == DialogueState::AwaitingLocation,
{
}

/// A user without a session and without a public handle who sends the start
/// command is told to set one, and no session is created.
pub proof fn law_start_without_handle(m: Map<u64, Session>, ev: EventModel, now: u64)
    requires
        !m.contains_key(ev.user_key),
        public_handle(ev) is None,
        ev.text == Some(start_command()),
    ensures
        next(state_of(m, ev.user_key), ev, now).reply == Some(ReplyModel::HandleRequired(escaped(ev.first_name))),
        !applied(m, ev.user_key, next(state_of(m, ev.user_key), ev, now).change).contains_key(ev.user_key),
{
}

/// Coordinates sent while the location is awaited move the session on to the
/// note choice carrying exactly those coordinates, and a following "No" hands
/// the sink a record with those same coordinates and no note.
pub proof fn law_location_is_kept(ev1: EventModel, ev2: EventModel, now1: u64, now2: u64, c: Coordinates)
    requires
        ev1.location == Some(c),
        ev2.user_key == ev1.user_key,
        ev2.text == Some(no_answer()),
        public_handle(ev2) is Some,
    ensures
        next(Some(DialogueState::AwaitingLocation), ev1, now1).change
            == StoreChange::Put(Session {
                user_key: ev1.user_key,
                chat_key: ev1.chat_key,
                state: DialogueState::AwaitingNoteChoice(c),
                last_active: now1,
            }),
        ({
            let s = next(Some(DialogueState::AwaitingLocation), ev1, now1).change->Put_0;
            let d = next(Some(s.state), ev2, now2);
            &&& d.record is Some
            &&& d.record->0.coordinates == c
            &&& d.record->0.note is None
        }),
{
    assert(no_answer() != yes_answer()) by {
        reveal_strlit("No");
        reveal_strlit("Yes");
        assert(no_answer().len() != yes_answer().len());
    }
}

/// At the note choice, "No" finalizes with no note and removes the session;
/// "Yes" moves on to the note text without finalizing.
pub proof fn law_note_choice(ev: EventModel, now: u64, c: Coordinates)
    ensures
        ev.text == Some(no_answer()) ==> {
            let d = next(Some(DialogueState::AwaitingNoteChoice(c)), ev, now);
            &&& d.change == StoreChange::Remove
            &&& public_handle(ev) is Some ==> d.record is Some && d.record->0.note is None
                && d.record->0.coordinates == c
        },
        ev.text == Some(yes_answer()) ==> {
            let d = next(Some(DialogueState::AwaitingNoteChoice(c)), ev, now);
            &&& d.record is None
            &&& d.change is Put
            &&& d.change->Put_0.state == DialogueState::AwaitingNoteText(c)
        },
{
    assert(no_answer() != yes_answer()) by {
        reveal_strlit("No");
        reveal_strlit("Yes");
        assert(no_answer().len() != yes_answer().len());
    }
}

/// A note longer than the bound is cut to exactly the bound; a shorter one is
/// kept as it is.
pub proof fn law_note_truncation(note: Seq<char>)
    ensures
        note.len() > MAX_NOTE_LEN ==> truncated(note).len() == MAX_NOTE_LEN
            && truncated(note) == note.subrange(0, MAX_NOTE_LEN as int),
        note.len() <= MAX_NOTE_LEN ==> truncated(note) == note,
{
}

/// A sweep removes each session idle beyond the threshold and reports it
/// exactly once for a cancellation notice; a session idle no longer than the
/// threshold stays as it was and is not reported.
pub proof fn law_sweep(
    before: Map<u64, Session>,
    after: Map<u64, Session>,
    now: u64,
    threshold: u64,
    notices: Seq<(u64, i64)>,
    k: u64,
)
    requires
        swept(before, after, now, threshold),
        lists_idle(before, now, threshold, notices),
        before.contains_key(k),
    ensures
        is_idle(before[k], now, threshold) ==> !after.contains_key(k) && notices.filter(
            |e: (u64, i64)| e.0 == k,
        ).len() == 1,
        !is_idle(before[k], now, threshold) ==> after.contains_key(k) && after[k] == before[k]
            && notices.filter(|e: (u64, i64)| e.0 == k).len() == 0,
{
    let f = |e: (u64, i64)| e.0 == k;
    assert(after.contains_key(k) == !is_idle(before[k], now, threshold));
    if is_idle(before[k], now, threshold) {
        let i = choose|i: int| 0 <= i < notices.len() && notices[i].0 == k;
        lemma_filter_single(notices, f, i);
    } else {
        lemma_filter_none(notices, f);
    }
}

proof fn lemma_filter_none(s: Seq<(u64, i64)>, f: spec_fn((u64, i64)) -> bool)
    requires
        forall|i: int| 0 <= i < s.len() ==> !f(#[trigger] s[i]),
    ensures
        s.filter(f).len() == 0,
    decreases s.len(),
{
    reveal(Seq::filter);
    if s.len() > 0 {
        lemma_filter_none(s.drop_last(), f);
    }
}

proof fn lemma_filter_single(s: Seq<(u64, i64)>, f: spec_fn((u64, i64)) -> bool, i: int)
    requires
        0 <= i < s.len(),
        f(s[i]),
        forall|j: int| 0 <= j < s.len() && j != i ==> !f(#[trigger] s[j]),
    ensures
        s.filter(f).len() == 1,
    decreases s.len(),
{
    reveal(Seq::filter);
    if i == s.len() - 1 {
        lemma_filter_none(s.drop_last(), f);
    } else {
        lemma_filter_single(s.drop_last(), f, i);
    }
}

/// When the dialogue's end and a sweep race for the same session, exactly one
/// of them removes it: after one removal the key is gone, so the other finds
/// nothing, and the store has exactly one session fewer.
pub proof fn law_single_removal(store: &SessionStore, k: u64, now: u64, threshold: u64, notices: Seq<(u64, i64)>)
    requires
        store.wf(),
        store@.contains_key(k),
    ensures
        !store@.remove(k).contains_key(k),
        store@.remove(k).remove(k) == store@.remove(k),
        store@.remove(k).len() == store@.len() - 1,
        lists_idle(store@.remove(k), now, threshold, notices) ==> forall|i: int|
            0 <= i < notices.len() ==> notices[i].0 != k,
{
    store.lemma_finite();
    assert(store@.remove(k).remove(k) =~= store@.remove(k));
}

/// Every record that the dialogue hands to the sink has a non-empty display
/// name and a note within the length bound.
pub proof fn law_records_well_formed(current: Option<DialogueState>, ev: EventModel, now: u64)
    ensures
        next(current, ev, now).record matches Some(r) ==> record_wf(r),
{
    if let Some(DialogueState::AwaitingNoteText(_)) = current {
        if let Some(t) = ev.text {
            law_note_truncation(t);
        }
    }
}

} // verus!
