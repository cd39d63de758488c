//! The metric comparators: epsilon handling, polarity, neutral boundaries,
//! and the exact rendered fragments.

use gameplay::compare::{cmp_count_fewer, cmp_count_more, cmp_duration_shorter};
use gameplay::duration::Duration;
use gameplay::numfmt::{fmt_usize, prettyprint_usize};
use gameplay::text::TextColor;

#[test]
fn duration_same_as_itself_is_neutral() {
    let d = Duration { micros: 90_000_000 };
    let spans = cmp_duration_shorter(d, d);
    assert_eq!(spans.len(), 1);
    assert_eq!(spans[0].text.as_str(), " (same as baseline)");
    assert_eq!(spans[0].color, TextColor::Plain);
}

#[test]
fn duration_within_epsilon_is_neutral() {
    let live = Duration { micros: 1_000_050 };
    let baseline = Duration { micros: 1_000_000 };
    let spans = cmp_duration_shorter(live, baseline);
    assert_eq!(spans.len(), 1);
    assert_eq!(spans[0].text.as_str(), " (same as baseline)");
    assert_eq!(spans[0].color, TextColor::Plain);
}

#[test]
fn duration_faster_is_good() {
    let live = Duration { micros: 60_000_000 };
    let baseline = Duration { micros: 120_000_000 };
    let spans = cmp_duration_shorter(live, baseline);
    assert_eq!(spans.len(), 3);
    assert_eq!(spans[0].text.as_str(), " (");
    assert_eq!(spans[0].color, TextColor::Plain);
    assert_eq!(spans[1].text.as_str(), "1m");
    assert_eq!(spans[1].color, TextColor::Good);
    assert_eq!(spans[2].text.as_str(), " faster)");
    assert_eq!(spans[2].color, TextColor::Plain);
}

#[test]
fn duration_slower_is_bad() {
    let live = Duration { micros: 150_500_000 };
    let baseline = Duration { micros: 60_000_000 };
    let spans = cmp_duration_shorter(live, baseline);
    assert_eq!(spans.len(), 3);
    assert_eq!(spans[1].text.as_str(), "1m30.50s");
    assert_eq!(spans[1].color, TextColor::Bad);
    assert_eq!(spans[2].text.as_str(), " slower)");
}

#[test]
fn count_fewer_polarity() {
    let s = cmp_count_fewer(5, 9);
    assert_eq!(s.text.as_str(), "4 fewer");
    assert_eq!(s.color, TextColor::Good);
    let s = cmp_count_fewer(9, 5);
    assert_eq!(s.text.as_str(), "4 more");
    assert_eq!(s.color, TextColor::Bad);
}

#[test]
fn count_more_polarity_is_inverted() {
    let s = cmp_count_more(5, 9);
    assert_eq!(s.text.as_str(), "4 fewer");
    assert_eq!(s.color, TextColor::Bad);
    let s = cmp_count_more(9, 5);
    assert_eq!(s.text.as_str(), "4 more");
    assert_eq!(s.color, TextColor::Good);
}

#[test]
fn count_equal_is_neutral_for_both() {
    let fewer = cmp_count_fewer(7, 7);
    assert_eq!(fewer.text.as_str(), "same as baseline");
    assert_eq!(fewer.color, TextColor::Plain);
    let more = cmp_count_more(7, 7);
    assert_eq!(more.text.as_str(), "same as baseline");
    assert_eq!(more.color, TextColor::Plain);
    let zero = cmp_count_fewer(0, 0);
    assert_eq!(zero.text.as_str(), "same as baseline");
}

#[test]
fn large_counts_get_commas() {
    let s = cmp_count_fewer(0, 1_234_567);
    assert_eq!(s.text.as_str(), "1,234,567 fewer");
    assert_eq!(s.color, TextColor::Good);
}

#[test]
fn pretty_printing_groups_digits() {
    assert_eq!(prettyprint_usize(0).as_str(), "0");
    assert_eq!(prettyprint_usize(999).as_str(), "999");
    assert_eq!(prettyprint_usize(1004).as_str(), "1,004");
    assert_eq!(prettyprint_usize(1_234_567).as_str(), "1,234,567");
    assert_eq!(fmt_usize(908).as_str(), "908");
}

#[test]
fn duration_rendering() {
    assert_eq!(Duration { micros: 0 }.minimal_tostring().as_str(), "0s");
    assert_eq!(Duration { micros: 3_600_000_000 }.minimal_tostring().as_str(), "1h");
    let mixed = Duration { micros: 3_600_000_000 + 60_000_000 + 1_250_000 };
    assert_eq!(mixed.minimal_tostring().as_str(), "1h1m1.25s");
    assert_eq!(Duration { micros: 30_000_000 }.minimal_tostring().as_str(), "30s");
    assert_eq!(Duration { micros: 50_000 }.minimal_tostring().as_str(), "0.05s");
}

#[test]
fn grouping_boundaries() {
    assert_eq!(prettyprint_usize(1000).as_str(), "1,000");
    assert_eq!(prettyprint_usize(999_999).as_str(), "999,999");
    assert_eq!(prettyprint_usize(1_000_000).as_str(), "1,000,000");
    assert_eq!(prettyprint_usize(10_000_030).as_str(), "10,000,030");
}

#[test]
fn duration_just_under_an_hour() {
    let d = Duration { micros: 3_599_990_000 };
    assert_eq!(d.minimal_tostring().as_str(), "59m59.99s");
}

#[test]
fn epsilon_band_boundaries() {
    let a = Duration { micros: 1000 };
    let b = Duration { micros: 1099 };
    let c = Duration { micros: 1100 };
    assert!(a.epsilon_eq(b));
    assert!(!a.epsilon_eq(c));
    assert!(c.epsilon_eq(b));
}
