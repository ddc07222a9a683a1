use mis1yakudo::message::{compose_message, GOOD_SCORE_THRESHOLD_MILLIS};
use mis1yakudo::model::Timestamp;

fn stamp() -> Timestamp {
    Timestamp { year: 2022, month: 9, day: 26, hour: 19, minute: 46, second: 18 }
}

#[test]
fn no_eligible_image_composes_no_photo_and_zero_score() {
    let user = String::from("alice");
    let scores: Vec<u64> = Vec::new();
    let (message, persisted) = compose_message(&stamp(), &user, false, &scores);
    assert_eq!(
        message,
        "2022-09-26 19:46\nUser:@alice\n画像が入ってないやん!\nScore:-inf\n"
    );
    assert_eq!(persisted, 0);
}

#[test]
fn video_composes_scolding_and_zero_score() {
    let user = String::from("bob");
    let scores: Vec<u64> = vec![123_456];
    let (message, persisted) = compose_message(&stamp(), &user, true, &scores);
    assert_eq!(
        message,
        "2022-09-26 19:46\nUser:@bob\n1枚目:123.456\nやめろ！クソ動画を投稿するんじゃない!\nScore:-inf\n"
    );
    assert_eq!(persisted, 0);
}

#[test]
fn video_without_scored_images_composes_scolding_alone() {
    let user = String::from("bob");
    let scores: Vec<u64> = Vec::new();
    let (message, persisted) = compose_message(&stamp(), &user, true, &scores);
    assert_eq!(
        message,
        "2022-09-26 19:46\nUser:@bob\nやめろ！クソ動画を投稿するんじゃない!\nScore:-inf\n"
    );
    assert_eq!(persisted, 0);
}

#[test]
fn mean_at_threshold_is_praised_and_last_score_is_persisted() {
    let user = String::from("carol");
    let scores: Vec<u64> = vec![200_000, 100_000];
    let (message, persisted) = compose_message(&stamp(), &user, false, &scores);
    assert_eq!(
        message,
        "2022-09-26 19:46\nUser:@carol\n1枚目:200.000\n2枚目:100.000\nGoodYakudo!\nScore:150.000\n"
    );
    // the stored score is the last image's score, not the displayed mean
    assert_eq!(persisted, 100_000);
}

#[test]
fn mean_below_threshold_gets_encouragement() {
    let user = String::from("dave");
    let scores: Vec<u64> = vec![100_000];
    let (message, persisted) = compose_message(&stamp(), &user, false, &scores);
    assert_eq!(
        message,
        "2022-09-26 19:46\nUser:@dave\n1枚目:100.000\nもっとyakudoしろ！\nScore:100.000\n"
    );
    assert_eq!(persisted, 100_000);
}

#[test]
fn threshold_is_150() {
    assert_eq!(GOOD_SCORE_THRESHOLD_MILLIS, 150_000);
}
