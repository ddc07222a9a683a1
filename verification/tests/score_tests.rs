use mis1yakudo::score::{score_from_variance, score_measurement, ScoreError, SCORE_NUMERATOR_MILLIS};

#[test]
fn failed_decode_is_classified_as_decode_error() {
    assert_eq!(score_measurement(None), Err(ScoreError::DecodeFailed));
}

#[test]
fn measured_variance_goes_through_the_formula() {
    assert_eq!(score_measurement(Some(0)), Err(ScoreError::ZeroVariance));
    assert_eq!(score_measurement(Some(1000)), Ok(10_000_000));
}

#[test]
fn zero_variance_is_an_explicit_error() {
    assert_eq!(score_from_variance(0), Err(ScoreError::ZeroVariance));
}

#[test]
fn decode_failure_is_distinct_from_zero_variance() {
    assert_ne!(ScoreError::DecodeFailed, ScoreError::ZeroVariance);
}

#[test]
fn score_is_numerator_over_variance() {
    // variance 1.000 -> score 10000.000
    assert_eq!(score_from_variance(1000), Ok(10_000_000));
    // variance 100.000 -> score 100.000
    assert_eq!(score_from_variance(100_000), Ok(100_000));
    // variance 66.667 -> score 150.000 (truncated to milli-units)
    assert_eq!(score_from_variance(66_667), Ok(149_999));
}

#[test]
fn smaller_variance_scores_higher() {
    let sharp = score_from_variance(2_000).unwrap();
    let blurry = score_from_variance(4_000).unwrap();
    assert!(sharp > blurry);
    assert_eq!(sharp, 5_000_000);
    assert_eq!(blurry, 2_500_000);
}

#[test]
fn numerator_matches_formula_scale() {
    assert_eq!(SCORE_NUMERATOR_MILLIS, 10_000_000_000);
}
