//! The follow-back rules: how the main-stream monitor reacts to events, and
//! when an account is followed. The stream subscription and the follow
//! requests themselves are platform calls made outside the library.

use crate::model::NoteUser;
use crate::monitor::RECONNECT_DELAY_SECS;
use vstd::prelude::*;

verus! {

/// What the main stream hands the follower monitor on one wakeup.
pub enum FollowerEvent {
    /// Someone started following the bot.
    Followed(NoteUser),
    /// Any other event of the main stream.
    Other,
    /// The transport failed or the stream ended.
    TransportError,
}

/// What the follower monitor does next.
pub enum FollowerAction {
    /// Follow this account back.
    FollowBack(NoteUser),
    /// Nothing; wait for the next event.
    Ignore,
    /// Drop the subscription, wait, and subscribe afresh.
    ReconnectAfter(u64),
}

/// The follower monitor's reaction to one event: a new follower is followed
/// back, other events are ignored, and a transport failure means the fixed
/// backoff and a fresh subscription — the loop never exits.
pub fn follower_step(event: FollowerEvent) -> (a: FollowerAction)
    ensures
        event matches FollowerEvent::Followed(u) ==> a == FollowerAction::FollowBack(u),
        event is Other ==> a == FollowerAction::Ignore,
        event is TransportError ==> a == FollowerAction::ReconnectAfter(RECONNECT_DELAY_SECS),
{
    match event {
        FollowerEvent::Followed(user) => FollowerAction::FollowBack(user),
        FollowerEvent::Other => FollowerAction::Ignore,
        FollowerEvent::TransportError => FollowerAction::ReconnectAfter(RECONNECT_DELAY_SECS),
    }
}

/// Whether a follower should be followed back when the whole follower list
/// is walked: only if the bot neither follows them already nor has a
/// pending follow request to them.
pub fn should_follow(is_following: bool, has_pending_request: bool) -> (b: bool)
    ensures
        b == (!is_following && !has_pending_request),
{
    !is_following && !has_pending_request
}

} // verus!
