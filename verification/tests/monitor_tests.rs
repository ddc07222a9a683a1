use mis1yakudo::model::{MediaFile, MediaKind, Note, NoteUser};
use mis1yakudo::monitor::{
    monitor_step, plan_attachments, should_skip, MonitorAction, ReplyResolver, ResolveStep,
    StreamEvent, MAX_REPLY_HOPS, RECONNECT_DELAY_SECS,
};

fn note(id: &str, user_id: &str, reply_id: Option<&str>, renote_id: Option<&str>) -> Note {
    Note {
        id: id.to_string(),
        user: NoteUser { id: user_id.to_string(), username: format!("user_{}", user_id) },
        reply_id: reply_id.map(|s| s.to_string()),
        renote_id: renote_id.map(|s| s.to_string()),
        files: Vec::new(),
    }
}

fn image(url: Option<&str>) -> MediaFile {
    MediaFile { kind: MediaKind::Image, url: url.map(|s| s.to_string()) }
}

fn video() -> MediaFile {
    MediaFile { kind: MediaKind::Video, url: Some("http://example.net/v.mp4".to_string()) }
}

fn other() -> MediaFile {
    MediaFile { kind: MediaKind::Other, url: Some("http://example.net/a.txt".to_string()) }
}

#[test]
fn plan_collects_images_with_urls_in_order() {
    let files = vec![image(Some("http://a")), other(), image(None), image(Some("http://b"))];
    let plan = plan_attachments(&files);
    assert!(!plan.video);
    assert_eq!(plan.image_urls, vec!["http://a".to_string(), "http://b".to_string()]);
}

#[test]
fn video_stops_scoring_at_once() {
    // images after the video are never scored
    let files = vec![image(Some("http://a")), video(), image(Some("http://b"))];
    let plan = plan_attachments(&files);
    assert!(plan.video);
    assert_eq!(plan.image_urls, vec!["http://a".to_string()]);
}

#[test]
fn leading_video_leaves_nothing_to_score() {
    let files = vec![video(), image(Some("http://a"))];
    let plan = plan_attachments(&files);
    assert!(plan.video);
    assert_eq!(plan.image_urls, Vec::<String>::new());
}

#[test]
fn empty_attachments_plan_nothing() {
    let files: Vec<MediaFile> = Vec::new();
    let plan = plan_attachments(&files);
    assert!(!plan.video);
    assert!(plan.image_urls.is_empty());
}

#[test]
fn own_notes_and_renotes_are_skipped() {
    let bot = String::from("bot-id");
    assert!(should_skip(&note("n1", "bot-id", None, None), &bot));
    assert!(should_skip(&note("n2", "someone", None, Some("n0")), &bot));
    assert!(!should_skip(&note("n3", "someone", None, None), &bot));
}

#[test]
fn transport_error_backs_off_five_seconds() {
    assert_eq!(RECONNECT_DELAY_SECS, 5);
    match monitor_step(StreamEvent::TransportError) {
        MonitorAction::ReconnectAfter(secs) => assert_eq!(secs, 5),
        _ => panic!("a transport error must lead to a reconnect"),
    }
}

#[test]
fn a_failed_note_keeps_the_subscription() {
    assert!(matches!(
        monitor_step(StreamEvent::ProcessingFailed),
        MonitorAction::ContinueStream
    ));
}

#[test]
fn received_note_is_processed() {
    let n = note("n1", "someone", None, None);
    match monitor_step(StreamEvent::Received(n.clone())) {
        MonitorAction::Process(m) => assert_eq!(m, n),
        _ => panic!("a received note must be processed"),
    }
}

#[test]
fn reply_chain_resolves_to_the_origin() {
    // a replies to b, b replies to c, c is no reply: resolution ends at c
    let a = note("a", "u1", Some("b"), None);
    let b = note("b", "u2", Some("c"), None);
    let c = note("c", "u3", None, None);
    let mut resolver = ReplyResolver::new(MAX_REPLY_HOPS);
    let step = resolver.advance(a);
    match step {
        ResolveStep::FetchParent(id) => assert_eq!(id, "b"),
        _ => panic!("a reply must ask for its parent"),
    }
    let step = resolver.advance(b);
    match step {
        ResolveStep::FetchParent(id) => assert_eq!(id, "c"),
        _ => panic!("a reply must ask for its parent"),
    }
    match resolver.advance(c.clone()) {
        ResolveStep::Resolved(n) => assert_eq!(n, c),
        _ => panic!("a non-reply ends the resolution"),
    }
}

#[test]
fn cyclic_reply_chain_fails_safely() {
    // a replies to b, b replies to a, forever
    let a = note("a", "u1", Some("b"), None);
    let b = note("b", "u2", Some("a"), None);
    let mut resolver = ReplyResolver::new(MAX_REPLY_HOPS);
    let mut fetches = 0u32;
    let mut current = a.clone();
    loop {
        match resolver.advance(current.clone()) {
            ResolveStep::FetchParent(id) => {
                fetches += 1;
                assert!(fetches <= MAX_REPLY_HOPS, "the hop budget bounds the walk");
                current = if id == "a" { a.clone() } else { b.clone() };
            }
            ResolveStep::ChainTooDeep => break,
            ResolveStep::Resolved(_) => panic!("a cycle never resolves"),
        }
    }
    assert_eq!(fetches, MAX_REPLY_HOPS);
}
