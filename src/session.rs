use vstd::prelude::*;

verus! {

/// A point on the map. Each angle is held as the bit pattern of its IEEE-754
/// double, so that the dialogue carries it through unchanged.
#[derive(Clone, Copy, Debug, PartialEq, Eq, Structural)]
pub struct Coordinates {
    pub latitude_bits: u64,
    pub longitude_bits: u64,
}

/// Where a user stands in the dialogue; the coordinates are present exactly
/// once the location is known.
#[derive(Clone, Copy, Debug, PartialEq, Eq, Structural)]
pub enum DialogueState {
    AwaitingLocation,
    AwaitingNoteChoice(Coordinates),
    AwaitingNoteText(Coordinates),
}

/// One user's dialogue in progress.
#[derive(Clone, Copy, Debug, PartialEq, Eq, Structural)]
pub struct Session {
    pub user_key: u64,
    pub chat_key: i64,
    pub state: DialogueState,
    pub last_active: u64,
}

/// The longest note that is stored, in characters.
pub const MAX_NOTE_LEN: usize = 250;

/// A finished submission, ready for the record sink.
#[derive(Clone, Debug)]
pub struct Record {
    pub user_key: u64,
    pub display_name: String,
    pub coordinates: Coordinates,
    pub note: Option<String>,
}

/// A note as it is stored: cut to its first `MAX_NOTE_LEN` characters.
pub open spec fn truncated(s: Seq<char>) -> Seq<char> {
    if s.len() > MAX_NOTE_LEN {
        s.subrange(0, MAX_NOTE_LEN as int)
    } else {
        s
    }
}

} // verus!
