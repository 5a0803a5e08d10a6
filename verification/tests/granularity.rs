use analytics::granularity::{Granularity, TimeRange};

#[test]
fn range_needs_start_not_after_end() {
    assert!(TimeRange::new(5, 4).is_none());
    let empty = TimeRange::new(5, 5).unwrap();
    assert_eq!((empty.start(), empty.end()), (5, 5));
    let range = TimeRange::new(-10, 20).unwrap();
    assert_eq!((range.start(), range.end()), (-10, 20));
    assert!(range.contains(-10));
    assert!(range.contains(19));
    assert!(!range.contains(20));
    assert!(!range.contains(-11));
    assert!(!empty.contains(5));
}

#[test]
fn widths_of_the_granularities() {
    assert_eq!(Granularity::OneMin.width_seconds(), 60);
    assert_eq!(Granularity::FiveMin.width_seconds(), 300);
    assert_eq!(Granularity::FifteenMin.width_seconds(), 900);
    assert_eq!(Granularity::ThirtyMin.width_seconds(), 1800);
    assert_eq!(Granularity::OneHour.width_seconds(), 3600);
    assert_eq!(Granularity::OneDay.width_seconds(), 86_400);
}

#[test]
fn clipping_to_the_bounds_of_a_bucket() {
    let hour = Granularity::OneHour;
    assert_eq!(hour.clip_to_start(7200), Some(7200));
    assert_eq!(hour.clip_to_end(7200), Some(10_800));
    assert_eq!(hour.clip_to_start(7201), Some(7200));
    assert_eq!(hour.clip_to_start(10_799), Some(7200));
    assert_eq!(hour.clip_to_end(10_799), Some(10_800));
    assert_eq!(hour.offset_in_bucket(10_799), 3599);
    // Before the epoch buckets still start at multiples of the width.
    assert_eq!(hour.clip_to_start(-1), Some(-3600));
    assert_eq!(hour.clip_to_end(-1), Some(0));
    assert_eq!(hour.offset_in_bucket(-1), 3599);
    assert_eq!(hour.clip_to_start(-3600), Some(-3600));
    // At the ends of what can be represented a bound may not exist.
    assert_eq!(Granularity::OneDay.clip_to_end(i64::MAX), None);
    assert_eq!(Granularity::OneDay.clip_to_start(i64::MIN), None);
    assert_eq!(
        Granularity::OneMin.clip_to_start(i64::MAX),
        Some(i64::MAX - i64::MAX.rem_euclid(60))
    );
}

#[test]
fn first_and_last_bucket_may_be_partial() {
    let range = TimeRange::new(3000, 12_000).unwrap();
    assert_eq!(
        range.buckets(Some(Granularity::OneHour)),
        vec![(3000, 3600), (3600, 7200), (7200, 10_800), (10_800, 12_000)]
    );
    assert_eq!(range.window_of(Granularity::OneHour, 3000), Some((3000, 3600)));
    assert_eq!(range.window_of(Granularity::OneHour, 3599), Some((3000, 3600)));
    assert_eq!(range.window_of(Granularity::OneHour, 3600), Some((3600, 7200)));
    assert_eq!(range.window_of(Granularity::OneHour, 11_999), Some((10_800, 12_000)));
    assert_eq!(range.window_of(Granularity::OneHour, 12_000), None);
    assert_eq!(range.window_of(Granularity::OneHour, 2999), None);
    assert_eq!(range.buckets(None), vec![(3000, 12_000)]);
}

#[test]
fn range_inside_one_bucket_is_one_window() {
    let range = TimeRange::new(100, 200).unwrap();
    assert_eq!(range.buckets(Some(Granularity::OneDay)), vec![(100, 200)]);
    assert_eq!(range.buckets(Some(Granularity::OneMin)), vec![(100, 120), (120, 180), (180, 200)]);
}

#[test]
fn empty_range_has_no_bucket_under_a_granularity() {
    let range = TimeRange::new(7200, 7200).unwrap();
    assert!(range.buckets(Some(Granularity::OneHour)).is_empty());
    assert_eq!(range.buckets(None), vec![(7200, 7200)]);
}

#[test]
fn buckets_at_the_ends_of_time() {
    let late = TimeRange::new(i64::MAX - 10, i64::MAX).unwrap();
    assert_eq!(late.buckets(Some(Granularity::OneDay)), vec![(i64::MAX - 10, i64::MAX)]);
    let early = TimeRange::new(i64::MIN, i64::MIN + 100).unwrap();
    let windows = early.buckets(Some(Granularity::OneMin));
    assert_eq!(windows.first().unwrap().0, i64::MIN);
    assert_eq!(windows.last().unwrap().1, i64::MIN + 100);
    for pair in windows.windows(2) {
        assert_eq!(pair[0].1, pair[1].0);
    }
}

#[test]
fn every_instant_lies_in_the_listed_window_it_is_given() {
    let range = TimeRange::new(-1000, 2500).unwrap();
    let windows = range.buckets(Some(Granularity::FifteenMin));
    assert_eq!(windows, vec![(-1000, -900), (-900, 0), (0, 900), (900, 1800), (1800, 2500)]);
    for instant in -1000..2500 {
        let window = range.window_of(Granularity::FifteenMin, instant).unwrap();
        assert!(window.0 <= instant && instant < window.1);
        assert!(windows.contains(&window));
    }
}
