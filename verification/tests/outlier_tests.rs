use cybersec_ai_agent::outlier::detect_outliers;
use cybersec_ai_agent::outlier::detect_outliers_with;

#[test]
fn constant_sequence_is_no_anomaly() {
    let samples = vec![5, 5, 5, 5];
    let r = detect_outliers(&samples).unwrap();
    assert!(!r.is_anomaly);
    assert_eq!(r.outlier_count, 0);
    assert_eq!(r.confidence, 90);
    assert_eq!(r.explanation, "No anomalies detected");
}

#[test]
fn empty_input_fails() {
    let samples: Vec<i64> = Vec::new();
    let r = detect_outliers(&samples);
    assert!(r.is_err());
}

#[test]
fn single_spike_is_flagged() {
    // mean = 208; the spike lies exactly two standard deviations out
    // and is flagged.
    let samples = vec![10, 10, 10, 10, 1000];
    let r = detect_outliers(&samples).unwrap();
    assert!(r.is_anomaly);
    assert_eq!(r.outlier_count, 1);
    assert_eq!(r.confidence, 80);
    assert_eq!(
        r.explanation,
        "Found 1 data points outside 2 standard deviations"
    );
}

#[test]
fn fractional_sigma_multiplier_is_rendered() {
    let samples = vec![1, 1, 1, 1, 1, 1, 1, 100];
    let r = detect_outliers_with(&samples, 25).unwrap();
    assert!(r.is_anomaly);
    assert_eq!(r.outlier_count, 1);
    assert_eq!(
        r.explanation,
        "Found 1 data points outside 2.5 standard deviations"
    );
}

#[test]
fn tight_cluster_with_mild_spread_is_no_anomaly() {
    // Two symmetric values: each deviation equals the standard
    // deviation, well under two of them.
    let samples = vec![4, 6, 4, 6];
    let r = detect_outliers(&samples).unwrap();
    assert!(!r.is_anomaly);
    assert_eq!(r.outlier_count, 0);
}

#[test]
fn negative_samples_are_accepted() {
    let samples = vec![-10, -10, -10, -10, -1000];
    let r = detect_outliers(&samples).unwrap();
    assert!(r.is_anomaly);
    assert_eq!(r.outlier_count, 1);
}

#[test]
fn single_sample_is_no_anomaly() {
    let samples = vec![123];
    let r = detect_outliers(&samples).unwrap();
    assert!(!r.is_anomaly);
    assert_eq!(r.outlier_count, 0);
}
