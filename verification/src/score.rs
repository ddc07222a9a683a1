//! The sharpness ("yakudo") scoring formula.
//!
//! The platform-side pipeline decodes an image, applies the Laplacian and
//! measures the statistical variance of the response; the library turns that
//! variance into the displayed score. All quantities are held in thousandths
//! (fixed point, three fractional digits), matching the three decimal places
//! the bot prints: a variance of `1.0` is `1000` milli-units, and the score
//! `10000.0 / variance` becomes `10_000_000_000 / variance_millis`
//! milli-units.
//!
//! One consequence of fixed point: a legitimate score below one milli-unit
//! (a variance above `10000000.0`) floors to exactly `0` and is then
//! indistinguishable from the stored zero sentinel — unreachable for any
//! realistic image, but inherent in the integer representation.

use vstd::arithmetic::div_mod::{
    lemma_div_by_multiple, lemma_div_by_self, lemma_div_is_ordered,
    lemma_div_is_ordered_by_denominator, lemma_fundamental_div_mod, lemma_hoist_over_denominator,
};
use vstd::prelude::*;

verus! {

/// Numerator of the score formula in (milli * milli) units:
/// `10000.0` scaled by `1000`, applied to a variance in thousandths.
pub const SCORE_NUMERATOR_MILLIS: u64 = 10_000_000_000;

/// Why an image could not be scored: the two classes are kept distinct so a
/// corrupt file is never confused with a division by zero.
#[derive(Clone, Copy, Debug, PartialEq, Eq, Structural)]
pub enum ScoreError {
    /// The image bytes could not be decoded into a pixel matrix.
    DecodeFailed,
    /// The Laplacian response had zero variance, so the formula has no value.
    ZeroVariance,
}

/// The score, in milli-units, that a Laplacian variance of `variance_millis`
/// milli-units earns: `10000.0 / variance`, in fixed point.
pub open spec fn score_of_variance(variance_millis: nat) -> nat
    recommends
        variance_millis > 0,
{
    (SCORE_NUMERATOR_MILLIS as nat) / variance_millis
}

/// Turns a measured Laplacian variance (in milli-units) into the yakudo score
/// (in milli-units). Zero variance is an explicit error, never an infinite or
/// undefined score.
pub fn score_from_variance(variance_millis: u64) -> (r: Result<u64, ScoreError>)
    ensures
        r is Ok <==> variance_millis > 0,
        variance_millis == 0 ==> r == Err::<u64, ScoreError>(ScoreError::ZeroVariance),
        variance_millis > 0 ==> r == Ok::<u64, ScoreError>(
            (score_of_variance(variance_millis as nat) as u64),
        ),
{
    if variance_millis == 0 {
        Err(ScoreError::ZeroVariance)
    } else {
        Ok(SCORE_NUMERATOR_MILLIS / variance_millis)
    }
}

/// Classifies the outcome of one image measurement. A decode that produced
/// no variance is the `DecodeFailed` class; a measured variance goes
/// through the scoring formula, where only zero variance fails.
pub fn score_measurement(measured: Option<u64>) -> (r: Result<u64, ScoreError>)
    ensures
        measured is None ==> r == Err::<u64, ScoreError>(ScoreError::DecodeFailed),
        measured matches Some(v) ==> (v == 0 ==> r == Err::<u64, ScoreError>(
            ScoreError::ZeroVariance,
        )),
        measured matches Some(v) ==> (v > 0 ==> r == Ok::<u64, ScoreError>(
            (score_of_variance(v as nat) as u64),
        )),
{
    match measured {
        None => Err(ScoreError::DecodeFailed),
        Some(variance_millis) => score_from_variance(variance_millis),
    }
}

/// The score never rises with the variance: a blurrier measurement (larger
/// variance) earns at most the score of a sharper one.
pub proof fn lemma_score_antitone(v1: u64, v2: u64)
    requires
        0 < v1 <= v2,
    ensures
        score_of_variance(v2 as nat) <= score_of_variance(v1 as nat),
{
    lemma_div_is_ordered_by_denominator(SCORE_NUMERATOR_MILLIS as int, v1 as int, v2 as int);
}

/// While the variance is small enough that a whole milli-unit still
/// separates consecutive scores (`v2 * v2` at most the numerator, i.e.
/// variances up to `100.0`), a strictly larger variance earns a strictly
/// smaller score. For larger variances the fixed-point scores can collide:
/// the relation is then only the non-strict one above.
pub proof fn lemma_score_strictly_antitone(v1: u64, v2: u64)
    requires
        0 < v1 < v2,
        v2 * v2 <= SCORE_NUMERATOR_MILLIS,
    ensures
        score_of_variance(v2 as nat) < score_of_variance(v1 as nat),
{
    let c = SCORE_NUMERATOR_MILLIS as int;
    let a = v1 as int;
    let b = v2 as int;
    let q = c / b;
    assert((b * b) / b == b) by {
        lemma_div_by_multiple(b, b);
    }
    assert((b * b) / b <= c / b) by {
        lemma_div_is_ordered(b * b, c, b);
    }
    assert(q >= b);
    lemma_fundamental_div_mod(c, b);
    assert(c >= b * q);
    assert(b * q == q + q * (b - 1)) by (nonlinear_arith);
    assert(q / (b - 1) + q == (q + q * (b - 1)) / (b - 1)) by {
        lemma_hoist_over_denominator(q, q, (b - 1) as nat);
    }
    assert((b - 1) / (b - 1) == 1) by {
        lemma_div_by_self(b - 1);
    }
    assert((b - 1) / (b - 1) <= q / (b - 1)) by {
        lemma_div_is_ordered(b - 1, q, b - 1);
    }
    assert((q + q * (b - 1)) / (b - 1) <= c / (b - 1)) by {
        lemma_div_is_ordered(q + q * (b - 1), c, b - 1);
    }
    assert(c / (b - 1) <= c / a) by {
        lemma_div_is_ordered_by_denominator(c, a, b - 1);
    }
    assert(c / a >= q + 1);
}

} // verus!
