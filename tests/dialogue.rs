use valetudo_dreameadapter_map::dialogue::{
    decide, handle_event, sink_reply, truncate_note, Decision, InboundEvent, Reply, StoreChange,
};
use valetudo_dreameadapter_map::escape::markdown_escape;
use valetudo_dreameadapter_map::session::{Coordinates, DialogueState, Session};
use valetudo_dreameadapter_map::store::SessionStore;

fn coords(lat: f64, lon: f64) -> Coordinates {
    Coordinates { latitude_bits: lat.to_bits(), longitude_bits: lon.to_bits() }
}

fn event(user: u64, handle: Option<&str>, text: Option<&str>, location: Option<Coordinates>) -> InboundEvent {
    InboundEvent {
        user_key: user,
        chat_key: user as i64 + 1000,
        first_name: "Ann-Marie".to_string(),
        handle: handle.map(|h| h.to_string()),
        text: text.map(|t| t.to_string()),
        location,
    }
}

fn session(user: u64, state: DialogueState, last_active: u64) -> Session {
    Session { user_key: user, chat_key: user as i64 + 1000, state, last_active }
}

fn is_greeting(d: &Decision) -> bool {
    matches!(&d.reply, Some(Reply::Greeting(n)) if n == "\\A\\n\\n\\-\\M\\a\\r\\i\\e")
}

#[test]
fn scenario_full_dialogue_without_note() {
    let mut store = SessionStore::new();
    let d = handle_event(&mut store, &event(1, Some("alice"), Some("/start"), None), 10);
    assert!(is_greeting(&d));
    assert!(d.record.is_none());
    assert_eq!(store.get(1).map(|s| s.state), Some(DialogueState::AwaitingLocation));

    let c = coords(51.5, -0.09);
    let d = handle_event(&mut store, &event(1, Some("alice"), None, Some(c)), 20);
    assert!(matches!(d.reply, Some(Reply::AskForNote)));
    assert!(d.reply.as_ref().unwrap().offers_yes_no());
    assert_eq!(store.get(1), Some(session(1, DialogueState::AwaitingNoteChoice(c), 20)));

    let d = handle_event(&mut store, &event(1, Some("alice"), Some("No"), None), 30);
    assert!(d.reply.is_none());
    assert_eq!(d.change, StoreChange::Remove);
    let r = d.record.expect("record for the sink");
    assert_eq!(r.user_key, 1);
    assert_eq!(r.display_name, "alice");
    assert_eq!(f64::from_bits(r.coordinates.latitude_bits), 51.5);
    assert_eq!(f64::from_bits(r.coordinates.longitude_bits), -0.09);
    assert_eq!(r.note, None);
    assert_eq!(store.get(1), None);
    assert_eq!(store.len(), 0);
}

#[test]
fn scenario_start_without_handle() {
    let mut store = SessionStore::new();
    let d = handle_event(&mut store, &event(2, None, Some("/start"), None), 10);
    assert!(matches!(&d.reply, Some(Reply::HandleRequired(n)) if n == "\\A\\n\\n\\-\\M\\a\\r\\i\\e"));
    assert_eq!(d.change, StoreChange::Unchanged);
    assert_eq!(store.get(2), None);
    assert_eq!(store.len(), 0);
}

#[test]
fn empty_handle_counts_as_none() {
    let mut store = SessionStore::new();
    let d = handle_event(&mut store, &event(2, Some(""), Some("/start"), None), 10);
    assert!(matches!(d.reply, Some(Reply::HandleRequired(_))));
    assert_eq!(store.len(), 0);
}

#[test]
fn unknown_user_gets_help() {
    let mut store = SessionStore::new();
    for text in [Some("hello"), Some("Yes"), Some("/start now"), None] {
        let d = handle_event(&mut store, &event(3, Some("bob"), text, None), 10);
        assert!(matches!(d.reply, Some(Reply::Help)));
        assert_eq!(d.change, StoreChange::Unchanged);
        assert!(d.record.is_none());
        assert_eq!(store.len(), 0);
    }
}

#[test]
fn location_missing_is_ignored() {
    let d = decide(Some(DialogueState::AwaitingLocation), &event(4, Some("bob"), Some("here"), None), 5);
    assert!(d.reply.is_none());
    assert_eq!(d.change, StoreChange::Unchanged);
    assert!(d.record.is_none());
}

#[test]
fn yes_moves_to_note_text() {
    let c = coords(1.0, 2.0);
    let d = decide(Some(DialogueState::AwaitingNoteChoice(c)), &event(5, Some("bob"), Some("Yes"), None), 7);
    assert!(matches!(d.reply, Some(Reply::AskForNoteText)));
    assert!(!d.reply.as_ref().unwrap().offers_yes_no());
    assert_eq!(d.change, StoreChange::Put(session(5, DialogueState::AwaitingNoteText(c), 7)));
    assert!(d.record.is_none());
}

#[test]
fn other_answer_repeats_question() {
    let c = coords(1.0, 2.0);
    let d = decide(Some(DialogueState::AwaitingNoteChoice(c)), &event(5, Some("bob"), Some("yes"), None), 7);
    assert!(matches!(d.reply, Some(Reply::RepeatYesNo)));
    assert!(d.reply.as_ref().unwrap().offers_yes_no());
    assert_eq!(d.change, StoreChange::Unchanged);
}

#[test]
fn note_text_finalizes_with_note() {
    let c = coords(3.0, 4.0);
    let d = decide(Some(DialogueState::AwaitingNoteText(c)), &event(6, Some("carol"), Some("mail me"), None), 9);
    assert!(d.reply.is_none());
    assert_eq!(d.change, StoreChange::Remove);
    let r = d.record.unwrap();
    assert_eq!(r.display_name, "carol");
    assert_eq!(r.coordinates, c);
    assert_eq!(r.note.as_deref(), Some("mail me"));
}

#[test]
fn note_must_be_text() {
    let c = coords(3.0, 4.0);
    let d = decide(Some(DialogueState::AwaitingNoteText(c)), &event(6, Some("carol"), None, Some(c)), 9);
    assert!(matches!(d.reply, Some(Reply::NoteMustBeText)));
    assert_eq!(d.change, StoreChange::Unchanged);
}

#[test]
fn handle_removed_before_finalize() {
    let mut store = SessionStore::new();
    let c = coords(3.0, 4.0);
    store.put(session(7, DialogueState::AwaitingNoteChoice(c), 1));
    let d = handle_event(&mut store, &event(7, None, Some("No"), None), 9);
    assert!(matches!(d.reply, Some(Reply::HandleRemoved)));
    assert!(d.record.is_none());
    assert_eq!(store.get(7), None);
}

#[test]
fn long_note_is_truncated() {
    let long: String = "é".repeat(300);
    let d = decide(
        Some(DialogueState::AwaitingNoteText(coords(0.0, 0.0))),
        &event(8, Some("dan"), Some(&long), None),
        1,
    );
    let note = d.record.unwrap().note.unwrap();
    assert_eq!(note.chars().count(), 250);
    assert_eq!(note, "é".repeat(250));
}

#[test]
fn truncation_bounds() {
    assert_eq!(truncate_note(&"a".repeat(251)), "a".repeat(250));
    assert_eq!(truncate_note(&"a".repeat(250)), "a".repeat(250));
    assert_eq!(truncate_note(&"short".to_string()), "short");
    assert_eq!(truncate_note(&String::new()), "");
}

#[test]
fn escaping() {
    assert_eq!(markdown_escape("a.b".to_string()), "\\a\\.\\b");
    assert_eq!(markdown_escape("Zoë!".to_string()), "\\Z\\oë\\!");
    assert_eq!(markdown_escape(String::new()), "");
    assert_eq!(markdown_escape("\u{7f}\u{0}".to_string()), "\u{7f}\u{0}");
}

#[test]
fn sink_replies() {
    assert!(matches!(sink_reply(true), Reply::Saved));
    assert!(matches!(sink_reply(false), Reply::SaveFailed));
}
