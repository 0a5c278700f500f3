use vstd::prelude::*;
use vstd::string::{StrSliceExecFns, StringExecFns};

use crate::escape::{escaped, markdown_escape};
use crate::session::{truncated, Coordinates, DialogueState, Record, Session, MAX_NOTE_LEN};
use crate::store::SessionStore;

verus! {

/// A message as the chat transport delivers it.
pub struct InboundEvent {
    pub user_key: u64,
    pub chat_key: i64,
    pub first_name: String,
    /// The user's public handle, if they have one.
    pub handle: Option<String>,
    pub text: Option<String>,
    pub location: Option<Coordinates>,
}

/// What the bot says back; the text of each is up to the transport.
pub enum Reply {
    /// Greeting and privacy notice, for the user with this (escaped) first name.
    Greeting(String),
    /// The user with this (escaped) first name must set a public handle first.
    HandleRequired(String),
    /// How to use the bot.
    Help,
    /// Asks, with Yes and No buttons, whether a note is to be added.
    AskForNote,
    /// Asks for the note itself.
    AskForNoteText,
    /// Asks again, with Yes and No buttons, for Yes or No.
    RepeatYesNo,
    /// The note must be text.
    NoteMustBeText,
    /// The handle went away during the dialogue, which is cancelled.
    HandleRemoved,
    /// The record was stored.
    Saved,
    /// The record could not be stored.
    SaveFailed,
    /// The session idled too long and was cancelled.
    SessionExpired,
}

/// How the session store changes for the user of an event.
#[derive(Clone, Copy, Debug, PartialEq, Eq, Structural)]
pub enum StoreChange {
    Unchanged,
    Put(Session),
    Remove,
}

/// The outcome of one event: the reply to send, the change of the store and
/// the record to hand to the sink, if any.
pub struct Decision {
    pub reply: Option<Reply>,
    pub change: StoreChange,
    pub record: Option<Record>,
}

/// An inbound event with its texts as character sequences.
pub struct EventModel {
    pub user_key: u64,
    pub chat_key: i64,
    pub first_name: Seq<char>,
    pub handle: Option<Seq<char>>,
    pub text: Option<Seq<char>>,
    pub location: Option<Coordinates>,
}

/// A reply with its texts as character sequences.
pub enum ReplyModel {
    Greeting(Seq<char>),
    HandleRequired(Seq<char>),
    Help,
    AskForNote,
    AskForNoteText,
    RepeatYesNo,
    NoteMustBeText,
    HandleRemoved,
    Saved,
    SaveFailed,
    SessionExpired,
}

/// A record with its texts as character sequences.
pub struct RecordModel {
    pub user_key: u64,
    pub display_name: Seq<char>,
    pub coordinates: Coordinates,
    pub note: Option<Seq<char>>,
}

/// A decision with its texts as character sequences.
pub struct DecisionModel {
    pub reply: Option<ReplyModel>,
    pub change: StoreChange,
    pub record: Option<RecordModel>,
}

/// The characters of an optional text.
pub open spec fn opt_seq(o: Option<String>) -> Option<Seq<char>> {
    match o {
        Some(s) => Some(s@),
        None => None,
    }
}

impl View for InboundEvent {
    type V = EventModel;

    open spec fn view(&self) -> EventModel {
        EventModel {
            user_key: self.user_key,
            chat_key: self.chat_key,
            first_name: self.first_name@,
            handle: opt_seq(self.handle),
            text: opt_seq(self.text),
            location: self.location,
        }
    }
}

impl View for Reply {
    type V = ReplyModel;

    open spec fn view(&self) -> ReplyModel {
        match self {
            Reply::Greeting(n) => ReplyModel::Greeting(n@),
            Reply::HandleRequired(n) => ReplyModel::HandleRequired(n@),
            Reply::Help => ReplyModel::Help,
            Reply::AskForNote => ReplyModel::AskForNote,
            Reply::AskForNoteText => ReplyModel::AskForNoteText,
            Reply::RepeatYesNo => ReplyModel::RepeatYesNo,
            Reply::NoteMustBeText => ReplyModel::NoteMustBeText,
            Reply::HandleRemoved => ReplyModel::HandleRemoved,
            Reply::Saved => ReplyModel::Saved,
            Reply::SaveFailed => ReplyModel::SaveFailed,
            Reply::SessionExpired => ReplyModel::SessionExpired,
        }
    }
}

impl View for Record {
    type V = RecordModel;

    open spec fn view(&self) -> RecordModel {
        RecordModel {
            user_key: self.user_key,
            display_name: self.display_name@,
            coordinates: self.coordinates,
            note: opt_seq(self.note),
        }
    }
}

impl View for Decision {
    type V = DecisionModel;

    open spec fn view(&self) -> DecisionModel {
        DecisionModel {
            reply: match self.reply {
                Some(r) => Some(r@),
                None => None,
            },
            change: self.change,
            record: match self.record {
                Some(r) => Some(r@),
                None => None,
            },
        }
    }
}

/// The command that opens a dialogue.
pub open spec fn start_command() -> Seq<char> {
    "/start"@
}

/// The answer that asks for a note.
pub open spec fn yes_answer() -> Seq<char> {
    "Yes"@
}

/// The answer that declines a note.
pub open spec fn no_answer() -> Seq<char> {
    "No"@
}

/// The public handle of the sender, if they have a non-empty one.
pub open spec fn public_handle(ev: EventModel) -> Option<Seq<char>> {
    match ev.handle {
        Some(h) => if h.len() > 0 { Some(h) } else { None },
        None => None,
    }
}

/// A record may be stored: its display name is not empty and its note, if
/// any, is within the length bound.
pub open spec fn record_wf(r: RecordModel) -> bool {
    r.display_name.len() > 0 && (r.note matches Some(n) ==> n.len() <= MAX_NOTE_LEN)
}

/// The session that the event leaves behind in `state`.
pub open spec fn session_after(ev: EventModel, state: DialogueState, now: u64) -> Session {
    Session { user_key: ev.user_key, chat_key: ev.chat_key, state, last_active: now }
}

/// The end of a dialogue: with a public handle the record goes to the sink,
/// without one the user is told; the session is removed either way.
pub open spec fn finalized(ev: EventModel, coordinates: Coordinates, note: Option<Seq<char>>) -> DecisionModel {
    match public_handle(ev) {
        Some(h) => DecisionModel {
            reply: None,
            change: StoreChange::Remove,
            record: Some(RecordModel { user_key: ev.user_key, display_name: h, coordinates, note }),
        },
        None => DecisionModel {
            reply: Some(ReplyModel::HandleRemoved),
            change: StoreChange::Remove,
            record: None,
        },
    }
}

/// A decision that replies and changes the store, with no record.
pub open spec fn say(reply: ReplyModel, change: StoreChange) -> DecisionModel {
    DecisionModel { reply: Some(reply), change, record: None }
}

/// The dialogue's transition: what an event does, given the state of its
/// user's session (none if there is no session) and the time.
pub open spec fn next(current: Option<DialogueState>, ev: EventModel, now: u64) -> DecisionModel {
    match current {
        None => if ev.text == Some(start_command()) {
            if public_handle(ev) is Some {
                say(
                    ReplyModel::Greeting(escaped(ev.first_name)),
                    StoreChange::Put(session_after(ev, DialogueState::AwaitingLocation, now)),
                )
            } else {
                say(ReplyModel::HandleRequired(escaped(ev.first_name)), StoreChange::Unchanged)
            }
        } else {
            say(ReplyModel::Help, StoreChange::Unchanged)
        },
        Some(DialogueState::AwaitingLocation) => match ev.location {
            Some(c) => say(
                ReplyModel::AskForNote,
                StoreChange::Put(session_after(ev, DialogueState::AwaitingNoteChoice(c), now)),
            ),
            None => DecisionModel { reply: None, change: StoreChange::Unchanged, record: None },
        },
        Some(DialogueState::AwaitingNoteChoice(c)) => if ev.text == Some(yes_answer()) {
            say(
                ReplyModel::AskForNoteText,
                StoreChange::Put(session_after(ev, DialogueState::AwaitingNoteText(c), now)),
            )
        } else if ev.text == Some(no_answer()) {
            finalized(ev, c, None)
        } else {
            say(ReplyModel::RepeatYesNo, StoreChange::Unchanged)
        },
        Some(DialogueState::AwaitingNoteText(c)) => match ev.text {
            Some(t) => finalized(ev, c, Some(truncated(t))),
            None => say(ReplyModel::NoteMustBeText, StoreChange::Unchanged),
        },
    }
}

/// A note cut to its first `MAX_NOTE_LEN` characters.
pub fn truncate_note(note: &String) -> (r: String)
    ensures
        r@ == truncated(note@),
{
    let s: &str = note.as_str();
    if s.unicode_len() > MAX_NOTE_LEN {
        s.substring_char(0, MAX_NOTE_LEN).to_owned()
    } else {
        note.clone()
    }
}

fn is_text(text: &Option<String>, expected: &str) -> (r: bool)
    ensures
        r == (opt_seq(*text) == Some(expected@)),
{
    match text {
        Some(t) => *t == String::from_str(expected),
        None => false,
    }
}

fn handle_of(ev: &InboundEvent) -> (r: Option<String>)
    ensures
        opt_seq(r) == public_handle(ev@),
{
    match &ev.handle {
        Some(h) => if h.as_str().unicode_len() > 0 { Some(h.clone()) } else { None },
        None => None,
    }
}

fn finalize(ev: &InboundEvent, coordinates: Coordinates, note: Option<String>) -> (r: Decision)
    ensures
        r@ == finalized(ev@, coordinates, opt_seq(note)),
{
    match handle_of(ev) {
        Some(h) => Decision {
            reply: None,
            change: StoreChange::Remove,
            record: Some(Record { user_key: ev.user_key, display_name: h, coordinates, note }),
        },
        None => Decision { reply: Some(Reply::HandleRemoved), change: StoreChange::Remove, record: None },
    }
}

/// Decides what `ev` does to a user whose session is in `current` (none if
/// there is none) at time `now`.
pub fn decide(current: Option<DialogueState>, ev: &InboundEvent, now: u64) -> (r: Decision)
    ensures
        r@ == next(current, ev@, now),
{
    let session = |state: DialogueState| -> (s: Session)
        ensures
            s == session_after(ev@, state, now),
        { Session { user_key: ev.user_key, chat_key: ev.chat_key, state, last_active: now } };
    match current {
        None => {
            if is_text(&ev.text, "/start") {
                let name = markdown_escape(ev.first_name.clone());
                if handle_of(ev).is_some() {
                    Decision {
                        reply: Some(Reply::Greeting(name)),
                        change: StoreChange::Put(session(DialogueState::AwaitingLocation)),
                        record: None,
                    }
                } else {
                    Decision { reply: Some(Reply::HandleRequired(name)), change: StoreChange::Unchanged, record: None }
                }
            } else {
                Decision { reply: Some(Reply::Help), change: StoreChange::Unchanged, record: None }
            }
        },
        Some(DialogueState::AwaitingLocation) => match ev.location {
            Some(c) => Decision {
                reply: Some(Reply::AskForNote),
                change: StoreChange::Put(session(DialogueState::AwaitingNoteChoice(c))),
                record: None,
            },
            None => Decision { reply: None, change: StoreChange::Unchanged, record: None },
        },
        Some(DialogueState::AwaitingNoteChoice(c)) => {
            if is_text(&ev.text, "Yes") {
                Decision {
                    reply: Some(Reply::AskForNoteText),
                    change: StoreChange::Put(session(DialogueState::AwaitingNoteText(c))),
                    record: None,
                }
            } else if is_text(&ev.text, "No") {
                finalize(ev, c, None)
            } else {
                Decision { reply: Some(Reply::RepeatYesNo), change: StoreChange::Unchanged, record: None }
            }
        },
        Some(DialogueState::AwaitingNoteText(c)) => match &ev.text {
            Some(t) => finalize(ev, c, Some(truncate_note(t))),
            None => Decision { reply: Some(Reply::NoteMustBeText), change: StoreChange::Unchanged, record: None },
        },
    }
}

impl Reply {
    /// Whether the reply comes with Yes and No buttons.
    pub fn offers_yes_no(&self) -> (r: bool)
        ensures
            r == (self@ is AskForNote || self@ is RepeatYesNo),
    {
        match self {
            Reply::AskForNote | Reply::RepeatYesNo => true,
            _ => false,
        }
    }
}

/// The state of `k`'s session in `m`, none if there is none.
pub open spec fn state_of(m: Map<u64, Session>, k: u64) -> Option<DialogueState> {
    if m.contains_key(k) {
        Some(m[k].state)
    } else {
        None
    }
}

/// The sessions `m` after `change` for user `k`.
pub open spec fn applied(m: Map<u64, Session>, k: u64, change: StoreChange) -> Map<u64, Session> {
    match change {
        StoreChange::Unchanged => m,
        StoreChange::Put(s) => m.insert(k, s),
        StoreChange::Remove => m.remove(k),
    }
}

/// Handles one inbound event against the store at time `now`: looks up the
/// sender's session, decides, and applies the change to the store. The
/// returned decision holds the reply to send and the record for the sink.
pub fn handle_event(store: &mut SessionStore, ev: &InboundEvent, now: u64) -> (r: Decision)
    requires
        old(store).wf(),
    ensures
        final(store).wf(),
        r@ == next(state_of(old(store)@, ev.user_key), ev@, now),
        final(store)@ == applied(old(store)@, ev.user_key, r.change),
{
    let current = match store.get(ev.user_key) {
        Some(s) => Some(s.state),
        None => None,
    };
    let d = decide(current, ev, now);
    match d.change {
        StoreChange::Unchanged => {},
        StoreChange::Put(s) => store.put(s),
        StoreChange::Remove => {
            let _ = store.remove(ev.user_key);
        },
    }
    d
}

/// The reply once the sink has answered: whether the record was stored.
pub fn sink_reply(stored: bool) -> (r: Reply)
    ensures
        r@ == (if stored {
            ReplyModel::Saved
        } else {
            ReplyModel::SaveFailed
        }),
{
    if stored {
        Reply::Saved
    } else {
        Reply::SaveFailed
    }
}

} // verus!
