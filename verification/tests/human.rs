use alfred_gitlab::human::{ago_text, format_ago, owned};
use std::time::Duration;

fn words(secs: u64) -> String {
    format_ago(Duration::from_secs(secs)).into_owned()
}

/// The same words, with the counts computed in floating point.
fn in_floating_point(d: Duration) -> String {
    let x = d.as_secs();
    if x <= 44 {
        "a few seconds ago".to_string()
    } else if x <= 89 {
        "a minute ago".to_string()
    } else if x <= 44 * 60 {
        format!("{:.0} minutes ago", (x as f32 / 60.).ceil())
    } else if x <= 89 * 60 {
        "an hour ago".to_string()
    } else if x <= 21 * 60 * 60 {
        format!("{:.0} hours ago", (x as f32 / 60. / 60.).ceil())
    } else if x <= 35 * 60 * 60 {
        "a day ago".to_string()
    } else if x <= 25 * 24 * 60 * 60 {
        format!("{:.0} days ago", (x as f32 / 24. / 60. / 60.).ceil())
    } else if x <= 45 * 24 * 60 * 60 {
        "a month ago".to_string()
    } else if x <= 10 * 30 * 24 * 60 * 60 {
        format!("{:.0} months ago", x as f32 / 30. / 24. / 60. / 60.)
    } else if x <= 17 * 30 * 24 * 60 * 60 {
        "a year ago".to_string()
    } else {
        format!("{:.0} years ago", d.as_secs_f32() / 12. / 30. / 24. / 60. / 60.)
    }
}

fn agrees(secs: u64) {
    let d = Duration::from_secs(secs);
    assert_eq!(format_ago(d).into_owned(), in_floating_point(d), "at {} seconds", secs);
}

#[test]
fn format_ago_seconds_and_minute() {
    assert_eq!(words(0), "a few seconds ago");
    assert_eq!(words(44), "a few seconds ago");
    assert_eq!(words(45), "a minute ago");
    assert_eq!(words(89), "a minute ago");
}

#[test]
fn format_ago_minutes_round_up() {
    assert_eq!(words(90), "2 minutes ago");
    assert_eq!(words(120), "2 minutes ago");
    assert_eq!(words(121), "3 minutes ago");
    assert_eq!(words(600), "10 minutes ago");
    assert_eq!(words(44 * 60), "44 minutes ago");
}

#[test]
fn format_ago_hours_round_up() {
    assert_eq!(words(44 * 60 + 1), "an hour ago");
    assert_eq!(words(89 * 60), "an hour ago");
    assert_eq!(words(89 * 60 + 1), "2 hours ago");
    assert_eq!(words(2 * 3600), "2 hours ago");
    assert_eq!(words(2 * 3600 + 1), "3 hours ago");
    assert_eq!(words(21 * 3600), "21 hours ago");
}

#[test]
fn format_ago_days_round_up() {
    assert_eq!(words(21 * 3600 + 1), "a day ago");
    assert_eq!(words(35 * 3600), "a day ago");
    assert_eq!(words(35 * 3600 + 1), "2 days ago");
    assert_eq!(words(2 * 86_400), "2 days ago");
    assert_eq!(words(2 * 86_400 + 1), "3 days ago");
    assert_eq!(words(25 * 86_400), "25 days ago");
}

#[test]
fn format_ago_months_round_to_nearest() {
    assert_eq!(words(25 * 86_400 + 1), "a month ago");
    assert_eq!(words(45 * 86_400), "a month ago");
    assert_eq!(words(45 * 86_400 + 1), "2 months ago");
    assert_eq!(words(60 * 86_400), "2 months ago");
    // Half way between two and three months: to the even one.
    assert_eq!(words(75 * 86_400), "2 months ago");
    assert_eq!(words(75 * 86_400 + 1), "3 months ago");
    // Half way between three and four months: to the even one.
    assert_eq!(words(105 * 86_400 - 1), "3 months ago");
    assert_eq!(words(105 * 86_400), "4 months ago");
    assert_eq!(words(300 * 86_400), "10 months ago");
}

#[test]
fn format_ago_months_count_seconds_in_single_precision() {
    // One second past six and a half months is held as six and a half.
    assert_eq!(words(16_848_000), "6 months ago");
    assert_eq!(words(16_848_001), "6 months ago");
    assert_eq!(words(16_848_002), "7 months ago");
    assert_eq!(words(19_439_999), "8 months ago");
    assert_eq!(words(22_032_001), "8 months ago");
    assert_eq!(words(24_623_999), "10 months ago");
}

#[test]
fn format_ago_years() {
    assert_eq!(words(300 * 86_400 + 1), "a year ago");
    assert_eq!(words(510 * 86_400), "a year ago");
    assert_eq!(words(510 * 86_400 + 1), "1 years ago");
    assert_eq!(words(540 * 86_400), "2 years ago");
    assert_eq!(words(2 * 360 * 86_400), "2 years ago");
    assert_eq!(words(10 * 360 * 86_400), "10 years ago");
    assert_eq!(words(100 * 360 * 86_400), "100 years ago");
    assert_eq!(words(u64::MAX), "593066590208 years ago");
}

#[test]
fn format_ago_ignores_the_fraction_of_a_second() {
    assert_eq!(format_ago(Duration::new(44, 999_999_999)), "a few seconds ago");
    assert_eq!(format_ago(Duration::new(89, 999_999_999)), "a minute ago");
    let d = Duration::new(17 * 30 * 86_400 + 1, 999_999_999);
    assert_eq!(format_ago(d).into_owned(), in_floating_point(d));
    let d = Duration::new(15_552_000 * 5 - 1, 999_999_999);
    assert_eq!(format_ago(d).into_owned(), in_floating_point(d));
}

#[test]
fn ago_text_and_owned_agree_with_format_ago() {
    for secs in [0u64, 45, 90, 5_341, 126_001, 3_888_001, 44_064_001] {
        assert_eq!(ago_text(secs), format_ago(Duration::from_secs(secs)));
        assert_eq!(owned(ago_text(secs)), words(secs));
    }
}

#[test]
fn format_ago_agrees_with_floating_point_up_to_days() {
    for secs in 0..=130_000u64 {
        agrees(secs);
    }
    let mut secs = 130_000u64;
    while secs <= 25 * 86_400 + 10 {
        agrees(secs);
        agrees(secs + 1);
        secs += 613;
    }
    for days in 1..=26u64 {
        for delta in 0..=4u64 {
            agrees(days * 86_400 - 2 + delta);
        }
    }
}

#[test]
fn format_ago_agrees_with_floating_point_on_months() {
    let mut secs = 25 * 86_400u64;
    while secs <= 17 * 30 * 86_400 + 10 {
        agrees(secs);
        secs += 397;
    }
    for half in 1..=40u64 {
        let tie = half * 1_296_000;
        for delta in 0..=40u64 {
            agrees(tie - 20 + delta);
        }
    }
}

#[test]
fn format_ago_agrees_with_floating_point_on_years() {
    // Around every half year of the first thousand years.
    for half in 2..=2_000u64 {
        let tie = half * 15_552_000;
        for delta in 0..=16u64 {
            agrees(tie - 2_048 + delta * 256);
            agrees(tie - 8 + delta);
        }
    }
    // Along the whole range, in steps that grow with the span.
    let mut secs = 17 * 30 * 86_400u64;
    while secs < u64::MAX / 2 {
        agrees(secs);
        agrees(secs + 1);
        agrees(secs - 1);
        secs += secs / 1_000 + 12_345;
    }
    agrees(u64::MAX);
    agrees(u64::MAX - 1);
    agrees(u64::MAX / 2);
}

#[test]
fn format_ago_agrees_with_floating_point_around_powers_of_two() {
    for bit in 16..64u32 {
        let p = 1u64 << bit;
        for delta in 0..=64u64 {
            agrees(p - 32 + delta);
        }
        agrees(p + p / 2);
        agrees(p + p / 2 + 1);
        agrees(p + p / 3);
    }
}

#[test]
fn format_ago_agrees_with_floating_point_where_years_are_near_half_way() {
    // Spans of some hundred and some thousand years, a few grains around
    // each half year.
    for half in (801..=40_001u64).step_by(2) {
        let tie = half * 15_552_000;
        let grain = 1u64 << (63 - tie.leading_zeros() - 23);
        for delta in 0..=24u64 {
            agrees(tie - 12 * grain + delta * grain);
        }
    }
}
