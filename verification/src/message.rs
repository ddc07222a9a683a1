//! Composition of the bot's reply text. Given the wall-clock stamp, the
//! author and the per-image scores, the composed message and the score to
//! persist are fixed exactly: a heading, one line per scored image, and a
//! closing that depends on whether a video was posted, no image was eligible,
//! or a mean score was computed and judged against the fixed threshold.

use crate::model::{spec_stamp, Timestamp};
use crate::text::{millis_to_string, spec_dec, spec_millis, u64_to_dec};
use vstd::prelude::*;

verus! {

/// Mean score (in milli-units) at or above which the verdict is positive;
/// the fixed point form of the `150.0` threshold.
pub const GOOD_SCORE_THRESHOLD_MILLIS: u64 = 150_000;

/// Sum of a sequence of scores.
pub open spec fn spec_sum(s: Seq<u64>) -> nat
    decreases s.len(),
{
    if s.len() == 0 {
        0
    } else {
        (s[0] + spec_sum(s.drop_first())) as nat
    }
}

/// Appending one element grows the sum by that element.
pub proof fn lemma_sum_push(s: Seq<u64>, x: u64)
    ensures
        spec_sum(s.push(x)) == spec_sum(s) + x,
    decreases s.len(),
{
    if s.len() == 0 {
        assert(s.push(x) =~= seq![x]);
        assert(spec_sum(seq![x].drop_first()) == 0);
    } else {
        assert(s.push(x).drop_first() =~= s.drop_first().push(x));
        lemma_sum_push(s.drop_first(), x);
    }
}

/// Every prefix sums to no more than the whole sequence.
pub proof fn lemma_sum_take_le(s: Seq<u64>, i: int)
    requires
        0 <= i <= s.len(),
    ensures
        spec_sum(s.take(i)) <= spec_sum(s),
    decreases s.len(),
{
    if s.len() == 0 || i == 0 {
        assert(s.take(i) =~= Seq::<u64>::empty());
    } else {
        assert(s.take(i).drop_first() =~= s.drop_first().take(i - 1));
        lemma_sum_take_le(s.drop_first(), i - 1);
    }
}

/// The line printed for the `k`-th scored image (1-based):
/// `{k}枚目:{score:.3}\n`.
pub open spec fn spec_image_line(k: nat, score_millis: u64) -> Seq<char> {
    spec_dec(k) + "枚目:"@ + spec_millis(score_millis as nat) + "\n"@
}

/// The image lines for `scores`, numbered from `k` upward.
pub open spec fn spec_image_lines_from(scores: Seq<u64>, k: nat) -> Seq<char>
    decreases scores.len(),
{
    if scores.len() == 0 {
        Seq::empty()
    } else {
        spec_image_line(k, scores[0]) + spec_image_lines_from(scores.drop_first(), k + 1)
    }
}

/// The image lines for `scores`, numbered from 1.
pub open spec fn spec_image_lines(scores: Seq<u64>) -> Seq<char> {
    spec_image_lines_from(scores, 1)
}

/// Appending a score appends its line, numbered after the existing ones.
pub proof fn lemma_image_lines_push(scores: Seq<u64>, k: nat, x: u64)
    ensures
        spec_image_lines_from(scores.push(x), k) == spec_image_lines_from(scores, k)
            + spec_image_line(k + scores.len(), x),
    decreases scores.len(),
{
    if scores.len() == 0 {
        assert(scores.push(x) =~= seq![x]);
        assert(seq![x].drop_first() =~= Seq::<u64>::empty());
        assert(seq![x][0] == x);
        assert(spec_image_lines_from(Seq::<u64>::empty(), k + 1) == Seq::<char>::empty());
        assert(spec_image_lines_from(seq![x], k) == spec_image_line(k, seq![x][0])
            + spec_image_lines_from(seq![x].drop_first(), k + 1));
        assert(spec_image_lines_from(seq![x], k) =~= spec_image_line(k, x));
    } else {
        assert(scores.push(x).drop_first() =~= scores.drop_first().push(x));
        lemma_image_lines_push(scores.drop_first(), k + 1, x);
    }
}

/// The heading of every composed message: the stamp, then `User:@{name}`.
pub open spec fn spec_header(t: Timestamp, username: Seq<char>) -> Seq<char> {
    spec_stamp(t) + "\nUser:@"@ + username + "\n"@
}

/// Closing when a video was among the attachments.
pub open spec fn spec_video_closing() -> Seq<char> {
    "やめろ！クソ動画を投稿するんじゃない!\nScore:-inf\n"@
}

/// Closing when the note had no eligible image.
pub open spec fn spec_no_photo_closing() -> Seq<char> {
    "画像が入ってないやん!\nScore:-inf\n"@
}

/// Verdict line for a computed mean score.
pub open spec fn spec_verdict(mean_millis: u64) -> Seq<char> {
    if mean_millis >= GOOD_SCORE_THRESHOLD_MILLIS {
        "GoodYakudo!\n"@
    } else {
        "もっとyakudoしろ！\n"@
    }
}

/// Mean of the scores, in milli-units (integer division).
pub open spec fn spec_mean(scores: Seq<u64>) -> nat
    recommends
        scores.len() > 0,
{
    spec_sum(scores) / scores.len()
}

/// The full reply text for a processed note.
pub open spec fn spec_message(
    t: Timestamp,
    username: Seq<char>,
    video: bool,
    scores: Seq<u64>,
) -> Seq<char> {
    let header = spec_header(t, username);
    if video {
        header + spec_image_lines(scores) + spec_video_closing()
    } else if scores.len() == 0 {
        header + spec_no_photo_closing()
    } else {
        let mean = spec_mean(scores) as u64;
        header + spec_image_lines(scores) + spec_verdict(mean) + "Score:"@ + spec_millis(
            mean as nat,
        ) + "\n"@
    }
}

/// A post with a video among its attachments always composes the scolding
/// closing — whatever was scored before the scan stopped at the video — and
/// persists the zero sentinel, never a score or a mean.
pub proof fn lemma_video_post_outcome(t: Timestamp, username: Seq<char>, scores: Seq<u64>)
    ensures
        spec_message(t, username, true, scores) == spec_header(t, username) + spec_image_lines(
            scores,
        ) + spec_video_closing(),
        spec_persisted_score(true, scores) == 0,
{
}

/// The score persisted with the record: the last individual image score, or
/// the `0` sentinel when a video was posted or no image was scored. (The
/// message shows the mean; the stored value deliberately keeps the last
/// per-image score, as the deployed bot always has.)
pub open spec fn spec_persisted_score(video: bool, scores: Seq<u64>) -> u64 {
    if video || scores.len() == 0 {
        0u64
    } else {
        scores.last()
    }
}

/// Appends one numbered line per score to `msg`.
fn append_image_lines(msg: &mut String, scores: &Vec<u64>)
    ensures
        final(msg)@ == old(msg)@ + spec_image_lines(scores@),
{
    let mut i: usize = 0;
    while i < scores.len()
        invariant
            0 <= i <= scores@.len(),
            msg@ == old(msg)@ + spec_image_lines(scores@.take(i as int)),
        decreases scores@.len() - i,
    {
        let line_no = u64_to_dec((i + 1) as u64);
        msg.append(line_no.as_str());
        msg.append("枚目:");
        let score_text = millis_to_string(scores[i]);
        msg.append(score_text.as_str());
        msg.append("\n");
        proof {
            assert(scores@.take(i + 1 as int) =~= scores@.take(i as int).push(scores@[i as int]));
            lemma_image_lines_push(scores@.take(i as int), 1, scores@[i as int]);
            assert(msg@ =~= old(msg)@ + spec_image_lines(scores@.take(i + 1 as int)));
        }
        i = i + 1;
    }
    proof {
        assert(scores@.take(scores@.len() as int) =~= scores@);
    }
}

/// Sums the scores; the caller guarantees the total fits.
fn sum_scores(scores: &Vec<u64>) -> (total: u64)
    requires
        spec_sum(scores@) <= u64::MAX,
    ensures
        total == spec_sum(scores@),
{
    let mut total: u64 = 0;
    let mut i: usize = 0;
    while i < scores.len()
        invariant
            0 <= i <= scores@.len(),
            spec_sum(scores@) <= u64::MAX,
            total == spec_sum(scores@.take(i as int)),
        decreases scores@.len() - i,
    {
        proof {
            assert(scores@.take(i + 1 as int) =~= scores@.take(i as int).push(scores@[i as int]));
            lemma_sum_push(scores@.take(i as int), scores@[i as int]);
            lemma_sum_take_le(scores@, i + 1 as int);
        }
        total = total + scores[i];
        i = i + 1;
    }
    proof {
        assert(scores@.take(scores@.len() as int) =~= scores@);
    }
    total
}

/// Composes the reply text and the score to persist for one note: `video`
/// says whether scoring was aborted on a video attachment, and `scores` are
/// the milli-unit scores of the images that were evaluated, in order.
pub fn compose_message(stamp: &Timestamp, username: &String, video: bool, scores: &Vec<u64>) -> (out: (
    String,
    u64,
))
    requires
        stamp.wf(),
        spec_sum(scores@) <= u64::MAX,
    ensures
        out.0@ == spec_message(*stamp, username@, video, scores@),
        out.1 == spec_persisted_score(video, scores@),
{
    let mut msg = crate::model::format_stamp(stamp);
    msg.append("\nUser:@");
    msg.append(username.as_str());
    msg.append("\n");
    proof {
        assert(msg@ =~= spec_header(*stamp, username@));
    }
    if video {
        append_image_lines(&mut msg, scores);
        msg.append("やめろ！クソ動画を投稿するんじゃない!\nScore:-inf\n");
        proof {
            assert(msg@ =~= spec_message(*stamp, username@, video, scores@));
        }
        (msg, 0)
    } else if scores.len() == 0 {
        msg.append("画像が入ってないやん!\nScore:-inf\n");
        proof {
            assert(msg@ =~= spec_message(*stamp, username@, video, scores@));
        }
        (msg, 0)
    } else {
        append_image_lines(&mut msg, scores);
        let total = sum_scores(scores);
        let mean = total / (scores.len() as u64);
        if mean >= GOOD_SCORE_THRESHOLD_MILLIS {
            msg.append("GoodYakudo!\n");
        } else {
            msg.append("もっとyakudoしろ！\n");
        }
        msg.append("Score:");
        let mean_text = millis_to_string(mean);
        msg.append(mean_text.as_str());
        msg.append("\n");
        proof {
            assert(msg@ =~= spec_message(*stamp, username@, video, scores@));
        }
        (msg, scores[scores.len() - 1])
    }
}

} // verus!
