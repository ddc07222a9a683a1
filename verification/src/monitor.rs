//! Per-note decisions of the stream pipeline: which attachments are scored,
//! how a reply chain is walked back to its origin with a bounded hop count,
//! which notes are skipped outright, and how the stream loop reacts to a
//! transport failure. The loop around these decisions — subscribing, fetching
//! and sleeping — runs outside the library and feeds events in.

use crate::model::{MediaFile, MediaKind, Note};
use vstd::prelude::*;

verus! {

/// Seconds waited before re-subscribing after a stream transport error.
pub const RECONNECT_DELAY_SECS: u64 = 5;

/// Most parent fetches a reply-chain resolution may make before it gives up;
/// bounds a cyclic or degenerate chain instead of following it forever.
pub const MAX_REPLY_HOPS: u32 = 10;

/// Whether some attachment is a video.
pub open spec fn spec_has_video(files: Seq<MediaFile>) -> bool {
    exists|i: int| 0 <= i < files.len() && (#[trigger] files[i]).kind is Video
}

/// The addresses of the images that get scored: the image attachments with
/// an address, in order, up to (and not including) the first video; scoring
/// stops dead at a video.
pub open spec fn spec_eligible_urls(files: Seq<MediaFile>) -> Seq<Seq<char>>
    decreases files.len(),
{
    if files.len() == 0 {
        Seq::empty()
    } else if files[0].kind is Video {
        Seq::empty()
    } else if files[0].kind is Image && files[0].url is Some {
        seq![files[0].url->0@] + spec_eligible_urls(files.drop_first())
    } else {
        spec_eligible_urls(files.drop_first())
    }
}

/// What one non-video attachment adds to the scoring list.
pub open spec fn spec_url_of(f: MediaFile) -> Seq<Seq<char>> {
    if f.kind is Image && f.url is Some {
        seq![f.url->0@]
    } else {
        Seq::empty()
    }
}

/// Appending an attachment to a video-free list appends its contribution.
pub proof fn lemma_eligible_push(s: Seq<MediaFile>, f: MediaFile)
    requires
        !spec_has_video(s),
    ensures
        spec_eligible_urls(s.push(f)) == spec_eligible_urls(s) + spec_url_of(f),
    decreases s.len(),
{
    if s.len() == 0 {
        assert(s.push(f) =~= seq![f]);
        assert(seq![f][0] == f);
        assert(seq![f].drop_first() =~= Seq::<MediaFile>::empty());
        assert(spec_eligible_urls(Seq::<MediaFile>::empty()) == Seq::<Seq<char>>::empty());
        assert(spec_eligible_urls(seq![f]) == spec_eligible_urls(s.push(f)));
        if f.kind is Image && f.url is Some {
            assert(spec_eligible_urls(seq![f]) == seq![f.url->0@] + Seq::<Seq<char>>::empty());
        }
        assert(spec_eligible_urls(s.push(f)) =~= spec_eligible_urls(s) + spec_url_of(f));
    } else {
        assert(!(s[0].kind is Video));
        assert(s.push(f)[0] == s[0]);
        assert(s.push(f).drop_first() =~= s.drop_first().push(f));
        assert(!spec_has_video(s.drop_first())) by {
            if spec_has_video(s.drop_first()) {
                let j = choose|j: int|
                    0 <= j < s.drop_first().len() && (#[trigger] s.drop_first()[j]).kind is Video;
                assert(s[j + 1].kind is Video);
            }
        }
        lemma_eligible_push(s.drop_first(), f);
        assert(spec_eligible_urls(s.push(f)) =~= spec_eligible_urls(s) + spec_url_of(f));
    }
}

/// Attachments at or after a video never reach scoring: the eligible list of
/// the whole attachment list is that of the part before the video.
pub proof fn lemma_no_scoring_after_video(files: Seq<MediaFile>, i: int)
    requires
        0 <= i < files.len(),
        files[i].kind is Video,
    ensures
        spec_eligible_urls(files) == spec_eligible_urls(files.take(i)),
    decreases files.len(),
{
    if files[0].kind is Video {
        if i == 0 {
            assert(files.take(0) =~= Seq::<MediaFile>::empty());
        } else {
            assert(files.take(i)[0] == files[0]);
        }
    } else {
        assert(i > 0);
        assert(files.take(i)[0] == files[0]);
        assert(files.take(i).drop_first() =~= files.drop_first().take(i - 1));
        assert(files.drop_first()[i - 1] == files[i]);
        lemma_no_scoring_after_video(files.drop_first(), i - 1);
    }
}

/// What one pass over a note's attachments decides: the image addresses to
/// score, in order, and whether a video cut the pass short.
pub struct ScoringPlan {
    pub image_urls: Vec<String>,
    pub video: bool,
}

/// Scans the attachments in order: images with an address are collected for
/// scoring until the first video, which aborts the scan; other files are
/// skipped.
pub fn plan_attachments(files: &Vec<MediaFile>) -> (p: ScoringPlan)
    ensures
        p.image_urls.deep_view() == spec_eligible_urls(files@),
        p.video == spec_has_video(files@),
{
    let mut urls: Vec<String> = Vec::new();
    let mut video = false;
    let mut i: usize = 0;
    while i < files.len() && !video
        invariant
            0 <= i <= files@.len(),
            !video ==> !spec_has_video(files@.take(i as int)),
            !video ==> urls.deep_view() == spec_eligible_urls(files@.take(i as int)),
            video ==> spec_has_video(files@),
            video ==> urls.deep_view() == spec_eligible_urls(files@),
        decreases files@.len() - i,
    {
        let ghost prefix = files@.take(i as int);
        let ghost dv = urls.deep_view();
        match files[i].kind {
            MediaKind::Video => {
                proof {
                    assert(files@[i as int].kind is Video);
                    lemma_no_scoring_after_video(files@, i as int);
                }
                video = true;
            },
            MediaKind::Image => {
                match &files[i].url {
                    Some(u) => {
                        urls.push(u.clone());
                        proof {
                            lemma_eligible_push(prefix, files@[i as int]);
                            assert(urls.deep_view() =~= dv.push(u@));
                            assert(spec_eligible_urls(prefix) + spec_url_of(files@[i as int])
                                =~= spec_eligible_urls(prefix).push(u@));
                        }
                    },
                    None => {
                        proof {
                            lemma_eligible_push(prefix, files@[i as int]);
                            assert(spec_eligible_urls(prefix) + spec_url_of(files@[i as int])
                                =~= spec_eligible_urls(prefix));
                        }
                    },
                }
            },
            MediaKind::Other => {
                proof {
                    lemma_eligible_push(prefix, files@[i as int]);
                    assert(spec_eligible_urls(prefix) + spec_url_of(files@[i as int])
                        =~= spec_eligible_urls(prefix));
                }
            },
        }
        proof {
            assert(files@.take(i + 1 as int) =~= prefix.push(files@[i as int]));
            if !video {
                assert(!spec_has_video(files@.take(i + 1 as int))) by {
                    if spec_has_video(files@.take(i + 1 as int)) {
                        let j = choose|j: int|
                            0 <= j < files@.take(i + 1 as int).len() && (#[trigger] files@.take(
                                i + 1 as int,
                            )[j]).kind is Video;
                        if j < i {
                            assert(prefix[j].kind is Video);
                        }
                    }
                }
            }
        }
        i = i + 1;
    }
    proof {
        if !video {
            assert(files@.take(files@.len() as int) =~= files@);
        }
    }
    ScoringPlan { image_urls: urls, video }
}

/// A note is left alone when the bot itself wrote it or when it merely
/// reshares another note.
pub fn should_skip(note: &Note, bot_user_id: &String) -> (b: bool)
    ensures
        b == (note.user.id@ == bot_user_id@ || note.renote_id is Some),
{
    note.user.id == *bot_user_id || note.renote_id.is_some()
}

/// Walks a reply chain toward its origin, spending one hop per parent fetch,
/// so that a cyclic or overlong chain ends in `ChainTooDeep` instead of an
/// unbounded walk.
pub struct ReplyResolver {
    pub hops_left: u32,
}

/// What the resolver asks of its driver after seeing one note.
#[derive(Debug)]
pub enum ResolveStep {
    /// The note is not a reply: resolution ends here, at this note.
    Resolved(Note),
    /// The note replies to the note with this identifier: fetch it and feed
    /// it back in.
    FetchParent(String),
    /// The hop budget is spent and the note is still a reply: fail safely.
    ChainTooDeep,
}

/// The hop budget after feeding one note to a resolver with budget `h`.
pub open spec fn spec_next_hops(h: nat, note: Note) -> nat {
    if note.reply_id is Some && h > 0 {
        (h - 1) as nat
    } else {
        h
    }
}

/// How many parent fetches a resolver with budget `h` performs when fed the
/// notes of `chain` in order: one per reply hop, none once the budget is
/// spent or a non-reply is reached.
pub open spec fn spec_fetch_count(h: nat, chain: Seq<Note>) -> nat
    decreases chain.len(),
{
    if chain.len() == 0 {
        0
    } else if chain[0].reply_id is None {
        0
    } else if h == 0 {
        0
    } else {
        1 + spec_fetch_count((h - 1) as nat, chain.drop_first())
    }
}

/// A resolution run never fetches more parents than its hop budget, whatever
/// notes the platform returns — the resolver cannot recurse unboundedly.
pub proof fn lemma_resolution_bounded(h: nat, chain: Seq<Note>)
    ensures
        spec_fetch_count(h, chain) <= h,
    decreases chain.len(),
{
    if chain.len() != 0 && chain[0].reply_id is Some && h > 0 {
        lemma_resolution_bounded((h - 1) as nat, chain.drop_first());
    }
}

impl ReplyResolver {
    /// A fresh resolver with `max_hops` parent fetches to spend.
    pub fn new(max_hops: u32) -> (r: Self)
        ensures
            r.hops_left == max_hops,
    {
        ReplyResolver { hops_left: max_hops }
    }

    /// Looks at one note: a non-reply ends the resolution, a reply asks for
    /// its parent while hops remain, and otherwise the chain is too deep.
    pub fn advance(&mut self, note: Note) -> (s: ResolveStep)
        ensures
            final(self).hops_left as nat == spec_next_hops(old(self).hops_left as nat, note),
            note.reply_id is None ==> s == ResolveStep::Resolved(note),
            note.reply_id matches Some(id) ==> (if old(self).hops_left > 0 {
                s == ResolveStep::FetchParent(id)
            } else {
                s == ResolveStep::ChainTooDeep
            }),
    {
        match &note.reply_id {
            None => ResolveStep::Resolved(note),
            Some(id) => {
                if self.hops_left > 0 {
                    let parent = id.clone();
                    self.hops_left = self.hops_left - 1;
                    ResolveStep::FetchParent(parent)
                } else {
                    ResolveStep::ChainTooDeep
                }
            },
        }
    }
}

/// What the stream hands the monitor on one wakeup.
pub enum StreamEvent {
    /// A matching note arrived.
    Received(Note),
    /// Processing a single note failed after it was received.
    ProcessingFailed,
    /// The transport failed or the stream ended.
    TransportError,
}

/// What the monitor does next: hand a note to processing, keep reading the
/// live subscription, or drop it, wait, and subscribe afresh.
pub enum MonitorAction {
    Process(Note),
    ContinueStream,
    ReconnectAfter(u64),
}

/// The monitor's reaction to one stream event. A note is processed; a
/// failure of one note is contained, the same subscription is kept and read
/// on; a transport failure means a fixed backoff and a fresh subscription.
/// Never an exit — the monitor loop is perpetual.
pub fn monitor_step(event: StreamEvent) -> (a: MonitorAction)
    ensures
        event matches StreamEvent::Received(n) ==> a == MonitorAction::Process(n),
        event is ProcessingFailed ==> a == MonitorAction::ContinueStream,
        event is TransportError ==> a == MonitorAction::ReconnectAfter(RECONNECT_DELAY_SECS),
{
    match event {
        StreamEvent::Received(note) => MonitorAction::Process(note),
        StreamEvent::ProcessingFailed => MonitorAction::ContinueStream,
        StreamEvent::TransportError => MonitorAction::ReconnectAfter(RECONNECT_DELAY_SECS),
    }
}

} // verus!
