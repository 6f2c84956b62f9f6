use client_config::TimeSpan;

#[test]
fn span_counts_nanoseconds() {
    assert_eq!(TimeSpan::from_nanos(250), TimeSpan { nanos: 250 });
    assert_eq!(TimeSpan::from_millis(1500), TimeSpan { nanos: 1_500_000_000 });
    assert_eq!(TimeSpan::from_secs(5), TimeSpan { nanos: 5_000_000_000 });
    assert_eq!(TimeSpan::from_secs(1), TimeSpan::from_millis(1000));
}

#[test]
fn longest_spans_from_whole_units_fit() {
    assert_eq!(
        TimeSpan::from_millis(u64::MAX),
        TimeSpan { nanos: 18_446_744_073_709_551_615_000_000 }
    );
    assert_eq!(
        TimeSpan::from_secs(u64::MAX),
        TimeSpan { nanos: 18_446_744_073_709_551_615_000_000_000 }
    );
    assert_eq!(TimeSpan::from_nanos(u128::MAX).nanos, u128::MAX);
}

#[test]
fn only_the_empty_span_is_zero() {
    assert!(TimeSpan::from_nanos(0).is_zero());
    assert!(TimeSpan::from_millis(0).is_zero());
    assert!(TimeSpan::from_secs(0).is_zero());
    assert!(!TimeSpan::from_nanos(1).is_zero());
    assert!(!TimeSpan::from_secs(1).is_zero());
}
