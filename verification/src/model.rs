//! The library's own data model: a post ("note") with its attachments, the
//! wall-clock timestamp, and the persisted score record. The platform client
//! and the record store deal in their own types; the surrounding process
//! translates those into these plain values at the boundary.

use crate::text::{spec_pad2, spec_pad4, u64_to_pad2, u64_to_pad4};
use vstd::prelude::*;

verus! {

/// A local wall-clock instant, to minute/second resolution.
#[derive(Clone, Copy, Debug, PartialEq, Eq, Structural)]
pub struct Timestamp {
    pub year: i32,
    pub month: u32,
    pub day: u32,
    pub hour: u32,
    pub minute: u32,
    pub second: u32,
}

impl Timestamp {
    /// Field ranges of a calendar timestamp. Years are kept to four digits so
    /// every well-formed timestamp has a fixed-width rendering.
    pub open spec fn wf(self) -> bool {
        &&& 0 <= self.year <= 9999
        &&& 1 <= self.month <= 12
        &&& 1 <= self.day <= 31
        &&& self.hour < 24
        &&& self.minute < 60
        &&& self.second < 60
    }

    /// Midnight at the start of this timestamp's calendar day, the lower
    /// bound of the records that the daily jobs look at.
    pub fn day_start(&self) -> (r: Timestamp)
        ensures
            r == (Timestamp { hour: 0, minute: 0, second: 0, ..*self }),
            self.wf() ==> r.wf(),
    {
        Timestamp { hour: 0, minute: 0, second: 0, ..*self }
    }
}

/// `"YYYY-MM-DD HH:MM"` for a well-formed timestamp.
pub open spec fn spec_stamp(t: Timestamp) -> Seq<char>
    recommends
        t.wf(),
{
    spec_pad4(t.year as nat) + seq!['-'] + spec_pad2(t.month as nat) + seq!['-'] + spec_pad2(
        t.day as nat,
    ) + seq![' '] + spec_pad2(t.hour as nat) + seq![':'] + spec_pad2(t.minute as nat)
}

/// Renders a timestamp as `YYYY-MM-DD HH:MM`, the heading of every reply the
/// bot composes.
pub fn format_stamp(t: &Timestamp) -> (r: String)
    requires
        t.wf(),
    ensures
        r@ == spec_stamp(*t),
{
    proof {
        reveal_strlit("-");
        reveal_strlit(" ");
        reveal_strlit(":");
    }
    let mut s = u64_to_pad4(t.year as u64);
    s.append("-");
    let m = u64_to_pad2(t.month as u64);
    s.append(m.as_str());
    s.append("-");
    let d = u64_to_pad2(t.day as u64);
    s.append(d.as_str());
    s.append(" ");
    let h = u64_to_pad2(t.hour as u64);
    s.append(h.as_str());
    s.append(":");
    let mi = u64_to_pad2(t.minute as u64);
    s.append(mi.as_str());
    proof {
        assert(s@ =~= spec_stamp(*t));
    }
    s
}

/// The author of a note, as far as the bot reads it.
#[derive(Clone, Debug, PartialEq, Eq)]
pub struct NoteUser {
    /// Platform identifier of the account.
    pub id: String,
    /// Handle used in the reply's `User:@...` line.
    pub username: String,
}

/// What an attached file is for the scoring rules; anything that is neither
/// an image nor a video is skipped.
#[derive(Clone, Copy, Debug, PartialEq, Eq, Structural)]
pub enum MediaKind {
    Image,
    Video,
    Other,
}

/// One attachment of a note. The address may be missing, in which case an
/// image cannot be fetched and is skipped.
#[derive(Clone, Debug, PartialEq, Eq)]
pub struct MediaFile {
    pub kind: MediaKind,
    pub url: Option<String>,
}

/// A post from the stream, reduced to the fields the pipeline reads.
#[derive(Clone, Debug, PartialEq, Eq)]
pub struct Note {
    /// Platform identifier of the note itself.
    pub id: String,
    pub user: NoteUser,
    /// Identifier of the note this one replies to, if any.
    pub reply_id: Option<String>,
    /// Identifier of the note this one reshares, if any.
    pub renote_id: Option<String>,
    pub files: Vec<MediaFile>,
}

/// One persisted row per successfully processed note. Scores are held in
/// milli-units; `0` is the sentinel for "no valid photo" or "video posted".
#[derive(Clone, Debug, PartialEq, Eq)]
pub struct ScoreRecord {
    /// Surrogate key assigned by the store; `0` until inserted.
    pub id: i32,
    pub username: String,
    /// Identifier of the scored source note.
    pub note_id: String,
    /// Identifier of the bot's quote reply.
    pub quote_id: String,
    /// Sharpness score in milli-units.
    pub score_millis: u64,
    /// Insertion time, used for day-boundary filtering.
    pub date: Timestamp,
}

} // verus!
