//! The decision rules of the two maintenance jobs: what the daily report
//! says and where it is posted, and which records the cleanup deletes. The
//! jobs' queries, network calls and pauses run outside the library; they
//! hand the day's records (and, for cleanup, the outcome of each source
//! fetch) in as plain values.

use crate::model::ScoreRecord;
use crate::text::{millis_to_string, spec_millis};
use vstd::prelude::*;

verus! {

/// Seconds paused between the cleanup's per-record checks, out of respect
/// for the platform's rate limits.
pub const CLEANUP_PAUSE_SECS: u64 = 1;

/// Index of the best record of a non-empty day: the first record attaining
/// the maximum score.
pub open spec fn spec_best_index(records: Seq<ScoreRecord>) -> int
    recommends
        records.len() > 0,
    decreases records.len(),
{
    if records.len() <= 1 {
        0
    } else {
        let b = spec_best_index(records.drop_last());
        if records.last().score_millis > records[b].score_millis {
            records.len() - 1
        } else {
            b
        }
    }
}

/// The best index is in range, attains the maximum, and is the first to do
/// so.
pub proof fn lemma_best_index_is_max(records: Seq<ScoreRecord>)
    requires
        records.len() > 0,
    ensures
        0 <= spec_best_index(records) < records.len(),
        forall|j: int|
            0 <= j < records.len() ==> (#[trigger] records[j]).score_millis <= records[spec_best_index(
                records,
            )].score_millis,
        forall|j: int|
            0 <= j < spec_best_index(records) ==> (#[trigger] records[j]).score_millis < records[spec_best_index(
                records,
            )].score_millis,
    decreases records.len(),
{
    if records.len() > 1 {
        lemma_best_index_is_max(records.drop_last());
        assert(forall|j: int|
            0 <= j < records.len() - 1 ==> records.drop_last()[j] == (#[trigger] records[j]));
    }
}

/// Finds the record the daily report celebrates: the first one with the
/// day's maximum score. `None` exactly when the day has no records.
pub fn best_record(records: &Vec<ScoreRecord>) -> (r: Option<usize>)
    ensures
        r is None <==> records@.len() == 0,
        records@.len() > 0 ==> (r matches Some(i) && i as int == spec_best_index(records@)),
{
    if records.len() == 0 {
        return None;
    }
    let mut best: usize = 0;
    let mut i: usize = 1;
    while i < records.len()
        invariant
            records@.len() > 0,
            0 < i <= records@.len(),
            best == spec_best_index(records@.take(i as int)),
            0 <= best < i,
        decreases records@.len() - i,
    {
        let ghost prefix = records@.take(i as int);
        if records[i].score_millis > records[best].score_millis {
            best = i;
        }
        proof {
            let next = records@.take(i + 1 as int);
            assert(next.drop_last() =~= prefix);
            assert(next.last() == records@[i as int]);
        }
        i = i + 1;
    }
    proof {
        assert(records@.take(records@.len() as int) =~= records@);
    }
    Some(best)
}

/// Where the daily report goes and with what text: a quote of the day's
/// best note, or a plain post when there is nothing to celebrate.
pub enum ReportAction {
    /// Quote the note with this identifier, with this text.
    Quote { note_id: String, message: String },
    /// Post this text on its own.
    Post { message: String },
}

/// Report text when no record was made today.
pub open spec fn spec_nothing_message() -> Seq<char> {
    "本日のyakudoは...何一つ...出ませんでした..."@
}

/// Report text when every score of the day is the zero sentinel.
pub open spec fn spec_low_message() -> Seq<char> {
    "おい待てや...今日のyakudo...-inf点しか無いやん..."@
}

/// Report text celebrating the day's best score.
pub open spec fn spec_best_message(score_millis: u64) -> Seq<char> {
    "Highest Score:"@ + spec_millis(score_millis as nat) + "\n優勝おめでとう!"@
}

/// Decides the daily report for the day's records: with no records, the
/// "nothing happened" post; with only sentinel scores, the "low score"
/// post; otherwise a quote of the first best-scored note, naming its score.
pub fn daily_report_action(records: &Vec<ScoreRecord>) -> (a: ReportAction)
    ensures
        records@.len() == 0 ==> (a matches ReportAction::Post { message } && message@
            == spec_nothing_message()),
        records@.len() > 0 && records@[spec_best_index(records@)].score_millis == 0 ==> (a matches
            ReportAction::Post { message } && message@ == spec_low_message()),
        records@.len() > 0 && records@[spec_best_index(records@)].score_millis > 0 ==> (a matches
            ReportAction::Quote { note_id, message } && note_id@ == records@[spec_best_index(
            records@,
        )].note_id@ && message@ == spec_best_message(
            records@[spec_best_index(records@)].score_millis,
        )),
{
    match best_record(records) {
        None => ReportAction::Post { message: String::from_str("本日のyakudoは...何一つ...出ませんでした...") },
        Some(i) => {
            proof {
                lemma_best_index_is_max(records@);
            }
            if records[i].score_millis > 0 {
                let mut message = String::from_str("Highest Score:");
                let score_text = millis_to_string(records[i].score_millis);
                message.append(score_text.as_str());
                message.append("\n優勝おめでとう!");
                proof {
                    assert(message@ =~= spec_best_message(
                        records@[spec_best_index(records@)].score_millis,
                    ));
                }
                ReportAction::Quote { note_id: records[i].note_id.clone(), message }
            } else {
                ReportAction::Post { message: String::from_str("おい待てや...今日のyakudo...-inf点しか無いやん...") }
            }
        },
    }
}

/// One deletion the cleanup owes: the bot's quote, then the stored record.
#[derive(Clone, Debug, PartialEq, Eq)]
pub struct CleanupTarget {
    /// Store key of the record to delete.
    pub record_id: i32,
    /// Identifier of the bot's quote note to delete.
    pub quote_id: String,
}

/// The deletion a record turns into when its source note is gone.
pub open spec fn spec_target_of(r: ScoreRecord) -> CleanupTarget {
    CleanupTarget { record_id: r.id, quote_id: r.quote_id }
}

/// The targets of a cleanup pass: one per record whose source fetch failed,
/// in record order; records whose source was found are left untouched.
pub open spec fn spec_cleanup_targets(records: Seq<ScoreRecord>, found: Seq<bool>) -> Seq<
    CleanupTarget,
>
    recommends
        records.len() == found.len(),
    decreases records.len(),
{
    if records.len() == 0 {
        Seq::empty()
    } else {
        let rest = spec_cleanup_targets(records.drop_last(), found.drop_last());
        if found.last() {
            rest
        } else {
            rest.push(spec_target_of(records.last()))
        }
    }
}

/// Decides a cleanup pass: `source_found[i]` says whether the source note
/// of `records[i]` could still be fetched; exactly the records whose source
/// is gone become targets.
pub fn cleanup_targets(records: &Vec<ScoreRecord>, source_found: &Vec<bool>) -> (v: Vec<
    CleanupTarget,
>)
    requires
        records@.len() == source_found@.len(),
    ensures
        v@ == spec_cleanup_targets(records@, source_found@),
{
    let mut v: Vec<CleanupTarget> = Vec::new();
    let mut i: usize = 0;
    while i < records.len()
        invariant
            records@.len() == source_found@.len(),
            0 <= i <= records@.len(),
            v@ == spec_cleanup_targets(records@.take(i as int), source_found@.take(i as int)),
        decreases records@.len() - i,
    {
        let ghost rp = records@.take(i as int);
        let ghost fp = source_found@.take(i as int);
        if !source_found[i] {
            v.push(CleanupTarget { record_id: records[i].id, quote_id: records[i].quote_id.clone() });
        }
        proof {
            assert(records@.take(i + 1 as int).drop_last() =~= rp);
            assert(source_found@.take(i + 1 as int).drop_last() =~= fp);
            assert(records@.take(i + 1 as int).last() == records@[i as int]);
            assert(source_found@.take(i + 1 as int).last() == source_found@[i as int]);
        }
        i = i + 1;
    }
    proof {
        assert(records@.take(records@.len() as int) =~= records@);
        assert(source_found@.take(source_found@.len() as int) =~= source_found@);
    }
    v
}

/// Cleanup touches exactly the records whose source is gone: each of them
/// contributes its deletion, and every deletion stems from such a record.
pub proof fn lemma_cleanup_exact(records: Seq<ScoreRecord>, found: Seq<bool>)
    requires
        records.len() == found.len(),
    ensures
        forall|i: int|
            0 <= i < records.len() && !found[i] ==> spec_cleanup_targets(records, found).contains(
                spec_target_of(#[trigger] records[i]),
            ),
        forall|t: CleanupTarget|
            spec_cleanup_targets(records, found).contains(t) ==> exists|i: int|
                0 <= i < records.len() && !found[i] && t == spec_target_of(#[trigger] records[i]),
    decreases records.len(),
{
    if records.len() > 0 {
        lemma_cleanup_exact(records.drop_last(), found.drop_last());
        let rest = spec_cleanup_targets(records.drop_last(), found.drop_last());
        let whole = spec_cleanup_targets(records, found);
        assert(forall|j: int|
            0 <= j < records.len() - 1 ==> records.drop_last()[j] == (#[trigger] records[j]));
        assert(forall|j: int|
            0 <= j < found.len() - 1 ==> found.drop_last()[j] == (#[trigger] found[j]));
        assert forall|i: int| 0 <= i < records.len() && !found[i] implies whole.contains(
            spec_target_of(#[trigger] records[i]),
        ) by {
            if i < records.len() - 1 {
                assert(rest.contains(spec_target_of(records.drop_last()[i])));
                let k = choose|k: int| 0 <= k < rest.len() && rest[k] == spec_target_of(records[i]);
                if found.last() {
                    assert(whole[k] == spec_target_of(records[i]));
                } else {
                    assert(whole[k] == spec_target_of(records[i]));
                }
            } else {
                assert(whole.last() == spec_target_of(records[i]));
            }
        }
        assert forall|t: CleanupTarget| whole.contains(t) implies exists|i: int|
            0 <= i < records.len() && !found[i] && t == spec_target_of(#[trigger] records[i]) by {
            let k = choose|k: int| 0 <= k < whole.len() && whole[k] == t;
            if k < rest.len() {
                assert(rest[k] == t);
                assert(rest.contains(t));
                let i = choose|i: int|
                    0 <= i < records.drop_last().len() && !found.drop_last()[i] && t
                        == spec_target_of(#[trigger] records.drop_last()[i]);
                assert(t == spec_target_of(records[i]));
            } else {
                assert(!found.last());
                assert(t == spec_target_of(records[records.len() - 1]));
            }
        }
    }
}

} // verus!
