use mis1yakudo::maintenance::{
    best_record, cleanup_targets, daily_report_action, CleanupTarget, ReportAction,
    CLEANUP_PAUSE_SECS,
};
use mis1yakudo::model::{ScoreRecord, Timestamp};

fn record(id: i32, note_id: &str, score_millis: u64) -> ScoreRecord {
    ScoreRecord {
        id,
        username: format!("user{}", id),
        note_id: note_id.to_string(),
        quote_id: format!("quote-{}", note_id),
        score_millis,
        date: Timestamp { year: 2022, month: 9, day: 26, hour: 12, minute: 0, second: 0 },
    }
}

#[test]
fn empty_day_reports_that_nothing_happened() {
    let records: Vec<ScoreRecord> = Vec::new();
    match daily_report_action(&records) {
        ReportAction::Post { message } => {
            assert_eq!(message, "本日のyakudoは...何一つ...出ませんでした...")
        }
        _ => panic!("an empty day is a plain post"),
    }
}

#[test]
fn sentinel_only_day_reports_the_low_score() {
    let records = vec![record(1, "n1", 0), record(2, "n2", 0)];
    match daily_report_action(&records) {
        ReportAction::Post { message } => {
            assert_eq!(message, "おい待てや...今日のyakudo...-inf点しか無いやん...")
        }
        _ => panic!("a sentinel-only day is a plain post"),
    }
}

#[test]
fn best_note_is_quoted_with_its_score_verbatim() {
    let records = vec![record(1, "n1", 99_000), record(2, "n2", 123_456), record(3, "n3", 5_000)];
    match daily_report_action(&records) {
        ReportAction::Quote { note_id, message } => {
            assert_eq!(note_id, "n2");
            assert_eq!(message, "Highest Score:123.456\n優勝おめでとう!");
        }
        _ => panic!("a scored day quotes the best note"),
    }
}

#[test]
fn first_record_wins_a_tie() {
    let records = vec![record(1, "n1", 7_000), record(2, "n2", 7_000)];
    assert_eq!(best_record(&records), Some(0));
    let records: Vec<ScoreRecord> = Vec::new();
    assert_eq!(best_record(&records), None);
}

#[test]
fn cleanup_deletes_exactly_the_vanished_source() {
    let records = vec![record(1, "n1", 1_000), record(2, "n2", 2_000), record(3, "n3", 3_000)];
    let found = vec![true, false, true];
    let targets = cleanup_targets(&records, &found);
    assert_eq!(
        targets,
        vec![CleanupTarget { record_id: 2, quote_id: "quote-n2".to_string() }]
    );
}

#[test]
fn cleanup_with_every_source_alive_deletes_nothing() {
    let records = vec![record(1, "n1", 1_000), record(2, "n2", 2_000)];
    let found = vec![true, true];
    assert_eq!(cleanup_targets(&records, &found), Vec::<CleanupTarget>::new());
}

#[test]
fn cleanup_pauses_one_second_between_records() {
    assert_eq!(CLEANUP_PAUSE_SECS, 1);
}
