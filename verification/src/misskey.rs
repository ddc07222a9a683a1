//! The Misskey instance the bot talks to, reduced to its plain facts: the
//! instance host, the access token, the bot's own account identifier, and
//! whether transport is secure. The endpoints and note addresses the bot
//! uses are fixed exactly by these fields; the HTTP and websocket clients
//! built on the endpoints live outside the library.

use crate::model::Note;
use vstd::prelude::*;

verus! {

/// Connection facts of one Misskey instance, established once at startup.
pub struct Misskey {
    /// Host name of the instance, without a scheme.
    pub instance: String,
    /// API access token.
    pub token: String,
    /// Identifier of the bot's own account, used to skip self-posts.
    pub user_id: String,
    /// Whether to speak `https`/`wss` rather than `http`/`ws`.
    pub secure: bool,
}

/// The HTTP API endpoint: `http(s)://{instance}/api/`.
pub open spec fn spec_api_endpoint(m: Misskey) -> Seq<char> {
    (if m.secure {
        "https://"@
    } else {
        "http://"@
    }) + m.instance@ + "/api/"@
}

/// The streaming endpoint: `ws(s)://{instance}/streaming`.
pub open spec fn spec_streaming_endpoint(m: Misskey) -> Seq<char> {
    (if m.secure {
        "wss://"@
    } else {
        "ws://"@
    }) + m.instance@ + "/streaming"@
}

/// The public address of a note: `http(s)://{instance}/notes/{id}`.
pub open spec fn spec_note_url(m: Misskey, note_id: Seq<char>) -> Seq<char> {
    (if m.secure {
        "https://"@
    } else {
        "http://"@
    }) + m.instance@ + "/notes/"@ + note_id
}

impl Misskey {
    /// Bundles the connection facts. Reading the environment and proving
    /// the token against the instance happen before this, outside the
    /// library; a failure there is fatal to the process.
    pub fn new(instance: String, token: String, user_id: String, secure: bool) -> (m: Misskey)
        ensures
            m.instance@ == instance@,
            m.token@ == token@,
            m.user_id@ == user_id@,
            m.secure == secure,
    {
        Misskey { instance, token, user_id, secure }
    }

    /// The HTTP API endpoint the client is built on.
    pub fn api_endpoint(&self) -> (r: String)
        ensures
            r@ == spec_api_endpoint(*self),
    {
        let mut s = if self.secure {
            String::from_str("https://")
        } else {
            String::from_str("http://")
        };
        s.append(self.instance.as_str());
        s.append("/api/");
        proof {
            assert(s@ =~= spec_api_endpoint(*self));
        }
        s
    }

    /// The websocket endpoint a stream subscription connects to.
    pub fn streaming_endpoint(&self) -> (r: String)
        ensures
            r@ == spec_streaming_endpoint(*self),
    {
        let mut s = if self.secure {
            String::from_str("wss://")
        } else {
            String::from_str("ws://")
        };
        s.append(self.instance.as_str());
        s.append("/streaming");
        proof {
            assert(s@ =~= spec_streaming_endpoint(*self));
        }
        s
    }

    /// The public address of a note on this instance.
    pub fn get_note_url(&self, note: &Note) -> (r: String)
        ensures
            r@ == spec_note_url(*self, note.id@),
    {
        let mut s = if self.secure {
            String::from_str("https://")
        } else {
            String::from_str("http://")
        };
        s.append(self.instance.as_str());
        s.append("/notes/");
        s.append(note.id.as_str());
        proof {
            assert(s@ =~= spec_note_url(*self, note.id@));
        }
        s
    }

    /// The bot's own account identifier.
    pub fn user_id(&self) -> (r: String)
        ensures
            r@ == self.user_id@,
    {
        self.user_id.clone()
    }
}

} // verus!
