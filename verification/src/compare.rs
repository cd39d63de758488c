//! Directional comparisons between a live metric and a baseline metric,
//! rendered as annotated text fragments.

use vstd::prelude::*;
use vstd::string::*;
use crate::duration::Duration;
use crate::numfmt::pretty_seq;
use crate::numfmt::prettyprint_usize;
use crate::text::{SpanView, TextColor, TextSpan};

verus! {

/// The views of a sequence of spans.
pub open spec fn spans_view(v: Seq<TextSpan>) -> Seq<SpanView> {
    v.map_values(|s: TextSpan| s@)
}

/// The fragments produced when a live duration is held against a baseline,
/// shorter being better.  Near-equality within the epsilon tolerance is
/// neutral and is decided before either strict ordering.
pub open spec fn duration_cmp_spec(now: Duration, baseline: Duration) -> Seq<SpanView> {
    if now.spec_eps_eq(baseline) {
        seq![SpanView { text: " (same as baseline)"@, color: TextColor::Plain }]
    } else if now.micros < baseline.micros {
        seq![
            SpanView { text: " ("@, color: TextColor::Plain },
            SpanView {
                text: Duration { micros: (baseline.micros - now.micros) as u64 }.spec_minimal_str(),
                color: TextColor::Good,
            },
            SpanView { text: " faster)"@, color: TextColor::Plain },
        ]
    } else {
        seq![
            SpanView { text: " ("@, color: TextColor::Plain },
            SpanView {
                text: Duration { micros: (now.micros - baseline.micros) as u64 }.spec_minimal_str(),
                color: TextColor::Bad,
            },
            SpanView { text: " slower)"@, color: TextColor::Plain },
        ]
    }
}

/// The fragment produced when live and baseline counts are held against each
/// other, fewer being better.
pub open spec fn count_fewer_spec(now: nat, baseline: nat) -> SpanView {
    if now < baseline {
        SpanView { text: pretty_seq((baseline - now) as nat) + " fewer"@, color: TextColor::Good }
    } else if now > baseline {
        SpanView { text: pretty_seq((now - baseline) as nat) + " more"@, color: TextColor::Bad }
    } else {
        SpanView { text: "same as baseline"@, color: TextColor::Plain }
    }
}

/// The fragment produced when live and baseline counts are held against each
/// other, more being better: the same text as the fewer-is-better form with
/// the color polarity inverted, and an identical neutral case.
pub open spec fn count_more_spec(now: nat, baseline: nat) -> SpanView {
    if now < baseline {
        SpanView { text: pretty_seq((baseline - now) as nat) + " fewer"@, color: TextColor::Bad }
    } else if now > baseline {
        SpanView { text: pretty_seq((now - baseline) as nat) + " more"@, color: TextColor::Good }
    } else {
        SpanView { text: "same as baseline"@, color: TextColor::Plain }
    }
}

/// Shorter is better.
pub fn cmp_duration_shorter(now: Duration, baseline: Duration) -> (r: Vec<TextSpan>)
    ensures
        spans_view(r@) == duration_cmp_spec(now, baseline),
{
    if now.epsilon_eq(baseline) {
        let v = vec![TextSpan::plain(" (same as baseline)")];
        proof {
            assert(spans_view(v@) =~= duration_cmp_spec(now, baseline));
        }
        v
    } else if now.micros < baseline.micros {
        let diff = Duration { micros: baseline.micros - now.micros };
        let v = vec![
            TextSpan::plain(" ("),
            TextSpan::line(diff.minimal_tostring()).fg(TextColor::Good),
            TextSpan::plain(" faster)"),
        ];
        proof {
            assert(spans_view(v@) =~= duration_cmp_spec(now, baseline));
        }
        v
    } else {
        let diff = Duration { micros: now.micros - baseline.micros };
        let v = vec![
            TextSpan::plain(" ("),
            TextSpan::line(diff.minimal_tostring()).fg(TextColor::Bad),
            TextSpan::plain(" slower)"),
        ];
        proof {
            assert(spans_view(v@) =~= duration_cmp_spec(now, baseline));
        }
        v
    }
}

/// Fewer is better.
pub fn cmp_count_fewer(now: usize, baseline: usize) -> (r: TextSpan)
    ensures
        r@ == count_fewer_spec(now as nat, baseline as nat),
{
    if now < baseline {
        let mut t = prettyprint_usize(baseline - now);
        t.append(" fewer");
        TextSpan::line(t).fg(TextColor::Good)
    } else if now > baseline {
        let mut t = prettyprint_usize(now - baseline);
        t.append(" more");
        TextSpan::line(t).fg(TextColor::Bad)
    } else {
        TextSpan::plain("same as baseline")
    }
}

/// More is better.
pub fn cmp_count_more(now: usize, baseline: usize) -> (r: TextSpan)
    ensures
        r@ == count_more_spec(now as nat, baseline as nat),
{
    if now < baseline {
        let mut t = prettyprint_usize(baseline - now);
        t.append(" fewer");
        TextSpan::line(t).fg(TextColor::Bad)
    } else if now > baseline {
        let mut t = prettyprint_usize(now - baseline);
        t.append(" more");
        TextSpan::line(t).fg(TextColor::Good)
    } else {
        TextSpan::plain("same as baseline")
    }
}

/// A duration is always epsilon-equal to itself, so holding it against itself
/// yields the single neutral fragment.
pub proof fn lemma_duration_cmp_self_neutral(a: Duration)
    ensures
        a.spec_eps_eq(a),
        duration_cmp_spec(a, a) == seq![
            SpanView { text: " (same as baseline)"@, color: TextColor::Plain },
        ],
{
}

/// Outside the epsilon band, a shorter live duration carries the good color
/// and a longer one the bad color, always in a three-fragment rendering.
pub proof fn lemma_duration_cmp_polarity(now: Duration, baseline: Duration)
    requires
        !now.spec_eps_eq(baseline),
    ensures
        duration_cmp_spec(now, baseline).len() == 3,
        now.micros < baseline.micros ==> duration_cmp_spec(now, baseline)[1].color
            == TextColor::Good,
        now.micros > baseline.micros ==> duration_cmp_spec(now, baseline)[1].color
            == TextColor::Bad,
{
}

/// The two count comparators carry mirrored polarities on strict orderings
/// and agree exactly on the neutral case, which never renders a zero
/// difference.
pub proof fn lemma_count_cmp_polarity(now: nat, baseline: nat)
    ensures
        now < baseline ==> count_fewer_spec(now, baseline).color == TextColor::Good
            && count_more_spec(now, baseline).color == TextColor::Bad,
        now > baseline ==> count_fewer_spec(now, baseline).color == TextColor::Bad
            && count_more_spec(now, baseline).color == TextColor::Good,
        now == baseline ==> count_fewer_spec(now, baseline) == count_more_spec(now, baseline)
            && count_fewer_spec(now, baseline).color == TextColor::Plain
            && count_fewer_spec(now, baseline).text == "same as baseline"@,
{
}

} // verus!
