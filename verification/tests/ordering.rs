use ttrim::timestamp::Timestamp;

fn samples(video_length: i32) -> Vec<Timestamp> {
    let mut all = vec![Timestamp::Start, Timestamp::End];
    for n in [0, 1, 2, 3, 49, 50, 51, 99, 100, 101, 1000, i32::MAX - 1, i32::MAX] {
        all.push(Timestamp::Seconds(n));
    }
    all.push(Timestamp::Seconds(video_length));
    for p in [0, 1, 2, 30, 39, 49, 50, 51, 99, 100] {
        all.push(Timestamp::Percentage(p));
    }
    all
}

#[test]
fn validity_is_that_of_the_numbers() {
    assert!(Timestamp::Start.is_valid());
    assert!(Timestamp::End.is_valid());
    assert!(Timestamp::Seconds(0).is_valid());
    assert!(Timestamp::Seconds(i32::MAX).is_valid());
    assert!(!Timestamp::Seconds(-1).is_valid());
    assert!(Timestamp::Percentage(0).is_valid());
    assert!(Timestamp::Percentage(100).is_valid());
    assert!(!Timestamp::Percentage(101).is_valid());
    assert!(!Timestamp::Percentage(-1).is_valid());
}

#[test]
fn to_seconds_resolves_each_notation() {
    assert_eq!(Timestamp::Percentage(50).to_seconds(100), 50);
    assert_eq!(Timestamp::End.to_seconds(100), 100);
    assert_eq!(Timestamp::Seconds(42).to_seconds(100), 42);
    assert_eq!(Timestamp::Seconds(110).to_seconds(100), 110);
    for d in [0, 1, 100, 12_345, i32::MAX] {
        assert_eq!(Timestamp::Start.to_seconds(d), 0);
        assert_eq!(Timestamp::End.to_seconds(d), d);
        assert_eq!(Timestamp::Percentage(0).to_seconds(d), 0);
        assert_eq!(Timestamp::Percentage(100).to_seconds(d), d);
    }
}

#[test]
fn to_seconds_rounds_a_share_down() {
    assert_eq!(Timestamp::Percentage(33).to_seconds(10), 3);
    assert_eq!(Timestamp::Percentage(1).to_seconds(99), 0);
    assert_eq!(Timestamp::Percentage(1).to_seconds(100), 1);
    assert_eq!(Timestamp::Percentage(99).to_seconds(1), 0);
    assert_eq!(Timestamp::Percentage(25).to_seconds(3_599), 899);
}

#[test]
fn to_seconds_does_not_overflow_on_long_videos() {
    assert_eq!(Timestamp::Percentage(99).to_seconds(i32::MAX), 2_126_008_810);
    assert_eq!(Timestamp::Percentage(50).to_seconds(i32::MAX), 1_073_741_823);
    assert_eq!(Timestamp::Percentage(1).to_seconds(i32::MAX), 21_474_836);
}

#[test]
fn to_seconds_gives_the_same_answer_twice() {
    for d in [0, 7, 100, i32::MAX] {
        for t in samples(d) {
            assert_eq!(t.to_seconds(d), t.to_seconds(d));
        }
    }
}

#[test]
fn start_is_before_end_whatever_the_length() {
    for d in [0, 1, 100, i32::MAX] {
        assert!(Timestamp::Start.is_before(&Timestamp::End, d));
        assert!(!Timestamp::End.is_before(&Timestamp::Start, d));
    }
}

#[test]
fn sentinels_are_not_before_themselves() {
    assert!(!Timestamp::Start.is_before(&Timestamp::Start, 100));
    assert!(!Timestamp::End.is_before(&Timestamp::End, 100));
}

#[test]
fn start_is_before_what_lies_past_zero() {
    assert!(!Timestamp::Start.is_before(&Timestamp::Seconds(0), 100));
    assert!(Timestamp::Start.is_before(&Timestamp::Seconds(1), 100));
    assert!(!Timestamp::Start.is_before(&Timestamp::Percentage(0), 100));
    assert!(Timestamp::Start.is_before(&Timestamp::Percentage(1), 100));
    assert!(Timestamp::Start.is_before(&Timestamp::Percentage(1), 0));
    assert!(!Timestamp::Seconds(0).is_before(&Timestamp::Start, 100));
    assert!(!Timestamp::Percentage(0).is_before(&Timestamp::Start, 100));
}

#[test]
fn end_is_before_offsets_past_the_video_only() {
    assert!(!Timestamp::End.is_before(&Timestamp::Seconds(99), 100));
    assert!(!Timestamp::End.is_before(&Timestamp::Seconds(100), 100));
    assert!(Timestamp::End.is_before(&Timestamp::Seconds(101), 100));
    assert!(!Timestamp::End.is_before(&Timestamp::Percentage(100), 100));
    assert!(!Timestamp::End.is_before(&Timestamp::Percentage(0), 100));
}

#[test]
fn offsets_are_before_end_while_inside_the_video() {
    assert!(Timestamp::Seconds(99).is_before(&Timestamp::End, 100));
    assert!(!Timestamp::Seconds(100).is_before(&Timestamp::End, 100));
    assert!(!Timestamp::Seconds(110).is_before(&Timestamp::End, 100));
}

#[test]
fn percentages_are_before_end_while_they_resolve_below_the_length() {
    assert!(Timestamp::Percentage(0).is_before(&Timestamp::End, 100));
    assert!(Timestamp::Percentage(10).is_before(&Timestamp::End, 100));
    assert!(Timestamp::Percentage(99).is_before(&Timestamp::End, 100));
    assert!(!Timestamp::Percentage(100).is_before(&Timestamp::End, 100));
    assert!(Timestamp::Percentage(99).is_before(&Timestamp::End, 1));
    assert!(!Timestamp::Percentage(100).is_before(&Timestamp::End, 1));
    assert!(Timestamp::Percentage(99).is_before(&Timestamp::End, i32::MAX));
    assert!(!Timestamp::Percentage(100).is_before(&Timestamp::End, i32::MAX));
}

#[test]
fn no_percentage_is_before_end_in_a_video_of_no_length() {
    for p in 0..=100 {
        assert!(!Timestamp::Percentage(p).is_before(&Timestamp::End, 0));
        assert!(!Timestamp::End.is_before(&Timestamp::Percentage(p), 0));
    }
}

#[test]
fn same_notation_compares_as_written() {
    assert!(Timestamp::Seconds(1).is_before(&Timestamp::Seconds(2), 0));
    assert!(!Timestamp::Seconds(2).is_before(&Timestamp::Seconds(2), 0));
    assert!(!Timestamp::Seconds(3).is_before(&Timestamp::Seconds(2), 0));
    assert!(Timestamp::Percentage(1).is_before(&Timestamp::Percentage(2), 10));
    assert!(!Timestamp::Percentage(2).is_before(&Timestamp::Percentage(2), 10));
    assert!(!Timestamp::Percentage(3).is_before(&Timestamp::Percentage(2), 10));
}

#[test]
fn mixed_notations_compare_by_the_exact_share() {
    assert!(Timestamp::Percentage(50).is_before(&Timestamp::Seconds(101), 200));
    assert!(!Timestamp::Percentage(50).is_before(&Timestamp::Seconds(100), 200));
    assert!(Timestamp::Seconds(99).is_before(&Timestamp::Percentage(50), 200));
    assert!(!Timestamp::Seconds(100).is_before(&Timestamp::Percentage(50), 200));
    assert!(Timestamp::Percentage(99).is_before(&Timestamp::Seconds(i32::MAX), i32::MAX));
    assert!(!Timestamp::Seconds(i32::MAX).is_before(&Timestamp::Percentage(100), i32::MAX));
    assert!(Timestamp::Seconds(i32::MAX - 1).is_before(&Timestamp::Percentage(100), i32::MAX));
}

#[test]
fn a_share_is_not_rounded_before_it_is_compared() {
    assert!(Timestamp::Seconds(2).is_before(&Timestamp::Percentage(50), 5));
    assert!(!Timestamp::Percentage(50).is_before(&Timestamp::Seconds(2), 5));
    assert!(!Timestamp::Seconds(3).is_before(&Timestamp::Percentage(50), 5));
    assert!(Timestamp::Percentage(50).is_before(&Timestamp::Seconds(3), 5));
    assert!(Timestamp::Seconds(3).is_before(&Timestamp::Percentage(39), 10));
    assert!(!Timestamp::Percentage(39).is_before(&Timestamp::Seconds(3), 10));
    assert!(!Timestamp::Seconds(3).is_before(&Timestamp::Percentage(30), 10));
    assert!(!Timestamp::Percentage(30).is_before(&Timestamp::Seconds(3), 10));
    assert!(Timestamp::Seconds(3).is_before(&Timestamp::Percentage(31), 10));
    assert!(Timestamp::Seconds(0).is_before(&Timestamp::Percentage(1), 1));
    assert!(!Timestamp::Seconds(0).is_before(&Timestamp::Percentage(1), 0));
    assert!(!Timestamp::Seconds(0).is_before(&Timestamp::Percentage(0), 100));
}

fn hundredths(timestamp: &Timestamp, video_length: i32) -> i64 {
    match timestamp {
        Timestamp::Start => 0,
        Timestamp::End => 100 * i64::from(video_length),
        Timestamp::Seconds(seconds) => 100 * i64::from(*seconds),
        Timestamp::Percentage(percentage) => i64::from(video_length) * i64::from(*percentage),
    }
}

#[test]
fn ordering_is_that_of_the_exact_times() {
    for d in [1, 5, 7, 50, 100, 1000, i32::MAX] {
        let all = samples(d);
        for a in &all {
            for b in &all {
                let expected = hundredths(a, d) < hundredths(b, d);
                assert_eq!(a.is_before(b, d), expected, "{:?} {:?} {}", a, b, d);
            }
        }
    }
}

#[test]
fn ordering_never_runs_against_the_exact_times() {
    let all = samples(0);
    for a in &all {
        for b in &all {
            if hundredths(a, 0) < hundredths(b, 0) {
                assert!(a.is_before(b, 0), "{:?} {:?}", a, b);
            }
            if a.is_before(b, 0) {
                assert!(hundredths(a, 0) <= hundredths(b, 0), "{:?} {:?}", a, b);
            }
        }
    }
}

#[test]
fn ordering_agrees_with_resolved_seconds() {
    for d in [0, 1, 7, 50, 100, 1000] {
        let all = samples(d);
        for a in &all {
            for b in &all {
                if a.to_seconds(d) < b.to_seconds(d) {
                    assert!(a.is_before(b, d), "{:?} {:?} {}", a, b, d);
                }
                if a.is_before(b, d) {
                    assert!(a.to_seconds(d) <= b.to_seconds(d), "{:?} {:?} {}", a, b, d);
                }
            }
        }
    }
}

#[test]
fn ordering_is_a_strict_order() {
    for d in [0, 1, 5, 7, 50, 100, 1000] {
        let all = samples(d);
        for a in &all {
            assert!(!a.is_before(a, d));
            for b in &all {
                assert!(!(a.is_before(b, d) && b.is_before(a, d)));
                for c in &all {
                    if a.is_before(b, d) && b.is_before(c, d) {
                        assert!(a.is_before(c, d), "{:?} {:?} {:?} {}", a, b, c, d);
                    }
                }
            }
        }
    }
}
