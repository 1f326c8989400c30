use vstd::prelude::*;
use crate::lang::Lang;
use crate::outcome::{rat_ge, Rational};

verus! {

/// Saturation point of the direct-magnitude formula: when only the
/// leading language has any signal, confidence is
/// `min(1, score1 / 500)`.  The value is an empirical fit.
pub const DIRECT_SATURATION: u32 = 500;

/// Numerator of the signal term of the confident-rate threshold:
/// `confident_rate = 12 / trigram_count + 1/20`.  An empirical fit.
pub const RATE_SIGNAL_NUM: u32 = 12;

/// Denominator of the constant term of the confident-rate threshold:
/// `confident_rate = 12 / trigram_count + 1/20`.  An empirical fit.
pub const RATE_OFFSET_DEN: u32 = 20;

/// An exact confidence value in the unit interval (or the echoed score
/// of a single-candidate list): a fraction of 128-bit integers.  Zero
/// means no statistical basis; one means maximal certainty.
#[derive(Clone, Copy, PartialEq, Eq, Structural, Debug)]
pub struct Confidence {
    num: u128,
    den: u128,
}

impl Confidence {
    /// Numerator and denominator stay far below 128 bits, so comparing
    /// two confidence values by cross multiplication cannot overflow.
    #[verifier::type_invariant]
    pub closed spec fn inv(self) -> bool {
        &&& 1 <= self.den < 0x1_0000_0000_0000_0000_0000_0000_0000u128
        &&& self.num < 0x1_0000_0000_0000_0000_0000_0000_0000u128
    }

    /// The exact numerator.
    pub closed spec fn spec_num(self) -> nat {
        self.num as nat
    }

    /// The exact denominator; always positive.
    pub closed spec fn spec_den(self) -> nat {
        self.den as nat
    }

    /// Reads the numerator.
    pub fn numerator(&self) -> (r: u128)
        ensures
            r as nat == self.spec_num(),
    {
        self.num
    }

    /// Reads the denominator.
    pub fn denominator(&self) -> (r: u128)
        ensures
            r as nat == self.spec_den(),
            r >= 1,
    {
        proof {
            use_type_invariant(self);
        }
        self.den
    }

    /// A result is reliable when its confidence exceeds `4/5`, the
    /// reliability threshold of this crate.
    pub fn exceeds_reliability_threshold(&self) -> (r: bool)
        ensures
            r == (5 * self.spec_num() > 4 * self.spec_den()),
    {
        proof {
            use_type_invariant(self);
        }
        5u128 * self.num > 4u128 * self.den
    }
}

/// A confidence value is determined by its exact fraction: equal
/// numerator and denominator mean equal values.
pub proof fn lemma_confidence_determined(a: Confidence, b: Confidence)
    requires
        a.spec_num() == b.spec_num(),
        a.spec_den() == b.spec_den(),
    ensures
        a == b,
{
    assert(a.num == b.num);
    assert(a.den == b.den);
}

/// The confidence fraction `(numerator, denominator)` chosen for a list
/// of at least two normalized scores whose leading score
/// `n1/d1` is positive, given the runner-up `n2/d2` and the signal
/// strength `tc`:
///
/// * runner-up zero: `min(1, (n1/d1) / 500)`, magnitude alone decides;
/// * otherwise: `min(1, rate / confident_rate)` with
///   `rate = (s1 - s2)/s2` and `confident_rate = 12/tc + 1/20`,
///   written as one integer fraction; a zero `tc` yields zero
///   confidence rather than a division fault.
pub open spec fn spec_conf_pair(n1: nat, d1: nat, n2: nat, d2: nat, tc: nat) -> (nat, nat) {
    if n2 == 0 {
        if n1 >= (DIRECT_SATURATION as nat) * d1 {
            (1nat, 1nat)
        } else {
            (n1, (DIRECT_SATURATION as nat) * d1)
        }
    } else {
        let a = n1 * d2;
        let b = n2 * d1;
        let x = (a - b) * (RATE_OFFSET_DEN as nat) * tc;
        let y = b * ((RATE_SIGNAL_NUM * RATE_OFFSET_DEN) as nat + tc);
        if x > y {
            (1nat, 1nat)
        } else {
            (x as nat, y)
        }
    }
}

/// The decision of the confidence estimator on a sorted, normalized
/// score list: the winning language with its confidence fraction, or
/// absence.
///
/// * an empty list yields absence;
/// * a single entry is returned verbatim, its score as confidence;
/// * a zero leading score means zero signal everywhere (the list is
///   sorted), and yields absence;
/// * otherwise the confidence is [`spec_conf_pair`].
pub open spec fn confidence_frac(scores: Seq<(Lang, Rational)>, tc: nat) -> Option<
    (Lang, (nat, nat)),
> {
    if scores.len() == 0 {
        None
    } else if scores.len() == 1 {
        Some((scores[0].0, (scores[0].1.num as nat, scores[0].1.den as nat)))
    } else if scores[0].1.num == 0 {
        None
    } else {
        Some(
            (
                scores[0].0,
                spec_conf_pair(
                    scores[0].1.num as nat,
                    scores[0].1.den as nat,
                    scores[1].1.num as nat,
                    scores[1].1.den as nat,
                    tc,
                ),
            ),
        )
    }
}

/// All entries hold valid rationals and the list is sorted descending.
pub open spec fn scores_wf(scores: Seq<(Lang, Rational)>) -> bool {
    &&& forall|i: int| 0 <= i < scores.len() ==> (#[trigger] scores[i]).1.is_valid()
    &&& forall|i: int, j: int|
        #![trigger scores[i], scores[j]]
        0 <= i < j < scores.len() ==> rat_ge(scores[i].1, scores[j].1)
}

/// The estimated confidence always lies in the unit interval, for every
/// non-empty, descending-sorted score list.  A single-entry list echoes
/// its score as the confidence, so there the score itself must not
/// exceed one; every longer list is covered unconditionally.
pub proof fn lemma_confidence_in_unit_range(scores: Seq<(Lang, Rational)>, tc: nat)
    requires
        scores_wf(scores),
        scores.len() >= 1,
        scores.len() == 1 ==> scores[0].1.le_one(),
    ensures
        match confidence_frac(scores, tc) {
            Option::Some(p) => p.1.0 <= p.1.1 && p.1.1 >= 1,
            Option::None => true,
        },
{
    if scores.len() == 1 {
        assert(scores[0].1.is_valid());
    } else if scores[0].1.num != 0 {
        let n1 = scores[0].1.num as nat;
        let d1 = scores[0].1.den as nat;
        let n2 = scores[1].1.num as nat;
        let d2 = scores[1].1.den as nat;
        assert(scores[0].1.is_valid() && scores[1].1.is_valid());
        if n2 == 0 {
            assert(d1 >= 1);
            assert(500 * d1 >= 1);
        } else {
            let b = n2 * d1;
            assert(b >= 1 && b * (240 + tc) >= 240) by (nonlinear_arith)
                requires
                    n2 >= 1,
                    d1 >= 1,
                    b == n2 * d1,
            ;
        }
    }
}

/// Monotonicity of the estimator: with the runner-up score and the
/// signal strength held fixed, widening the gap by raising the leading
/// score never lowers the confidence.  Confidence fractions are
/// compared by cross multiplication.
pub proof fn lemma_confidence_monotone_in_gap(s1: Rational, s1b: Rational, s2: Rational, tc: nat)
    requires
        s1.is_valid(),
        s1b.is_valid(),
        s2.is_valid(),
        rat_ge(s1, s2),
        rat_ge(s1b, s1),
    ensures
        ({
            let p = spec_conf_pair(s1.num as nat, s1.den as nat, s2.num as nat, s2.den as nat, tc);
            let pb = spec_conf_pair(
                s1b.num as nat,
                s1b.den as nat,
                s2.num as nat,
                s2.den as nat,
                tc,
            );
            p.0 * pb.1 <= pb.0 * p.1
        }),
{
    let n1 = s1.num as int;
    let d1 = s1.den as int;
    let n1b = s1b.num as int;
    let d1b = s1b.den as int;
    let n2 = s2.num as int;
    let d2 = s2.den as int;
    if n2 == 0 {
        if n1 >= 500 * d1 {
            assert(n1b >= 500 * d1b) by (nonlinear_arith)
                requires
                    n1b * d1 >= n1 * d1b,
                    n1 >= 500 * d1,
                    d1 >= 1,
                    d1b >= 1,
                    n1b >= 0,
            ;
        } else if n1b >= 500 * d1b {
            assert(n1 * 1 <= 1 * (500 * d1));
        } else {
            assert(n1 * (500 * d1b) <= n1b * (500 * d1)) by (nonlinear_arith)
                requires
                    n1 * d1b <= n1b * d1,
            ;
        }
    } else {
        let a = n1 * d2;
        let b = n2 * d1;
        let ab = n1b * d2;
        let bb = n2 * d1b;
        assert(a >= b && b >= 1 && bb >= 1 && ab >= bb && (a - b) * bb <= (ab - bb) * b) by (nonlinear_arith)
            requires
                n1 * d2 >= n2 * d1,
                n1b * d1 >= n1 * d1b,
                n2 >= 1,
                d1 >= 1,
                d1b >= 1,
                d2 >= 1,
                n1 >= 0,
                n1b >= 0,
                a == n1 * d2,
                b == n2 * d1,
                ab == n1b * d2,
                bb == n2 * d1b,
        ;
        let x = (a - b) * 20 * tc;
        let y = b * (240 + tc);
        let xb = (ab - bb) * 20 * tc;
        let yb = bb * (240 + tc);
        assert(x * yb <= xb * y && y >= 240 && yb >= 240 && x >= 0 && xb >= 0) by (nonlinear_arith)
            requires
                (a - b) * bb <= (ab - bb) * b,
                a >= b,
                ab >= bb,
                b >= 1,
                bb >= 1,
                tc >= 0,
                x == (a - b) * 20 * tc,
                y == b * (240 + tc),
                xb == (ab - bb) * 20 * tc,
                yb == bb * (240 + tc),
        ;
        if x > y {
            assert(xb > yb) by (nonlinear_arith)
                requires
                    x * yb <= xb * y,
                    x > y,
                    y >= 1,
                    yb >= 1,
            ;
        } else if xb > yb {
            assert(x * 1 <= 1 * y);
        }
    }
}

/// Monotonicity at the estimator itself: on two-candidate lists with
/// the runner-up and the signal strength held fixed, raising a positive
/// leading score keeps the winner and never lowers the confidence.
pub proof fn lemma_estimator_monotone_in_gap(
    l1: Lang,
    l2: Lang,
    s1: Rational,
    s1b: Rational,
    s2: Rational,
    tc: nat,
)
    requires
        s1.is_valid(),
        s1b.is_valid(),
        s2.is_valid(),
        rat_ge(s1, s2),
        rat_ge(s1b, s1),
        s1.num > 0,
    ensures
        ({
            let f = confidence_frac(seq![(l1, s1), (l2, s2)], tc);
            let fb = confidence_frac(seq![(l1, s1b), (l2, s2)], tc);
            &&& f is Some
            &&& fb is Some
            &&& f->Some_0.0 == l1
            &&& fb->Some_0.0 == l1
            &&& f->Some_0.1.0 * fb->Some_0.1.1 <= fb->Some_0.1.0 * f->Some_0.1.1
        }),
{
    assert(s1b.num >= 1) by (nonlinear_arith)
        requires
            s1b.num * s1.den >= s1.num * s1b.den,
            s1.num >= 1,
            s1b.den >= 1,
            s1.den >= 1,
    ;
    lemma_confidence_monotone_in_gap(s1, s1b, s2, tc);
    assert(seq![(l1, s1), (l2, s2)][0] == (l1, s1));
    assert(seq![(l1, s1), (l2, s2)][1] == (l2, s2));
    assert(seq![(l1, s1b), (l2, s2)][0] == (l1, s1b));
    assert(seq![(l1, s1b), (l2, s2)][1] == (l2, s2));
}

/// A single-entry score list is returned verbatim: the lone language
/// wins and its own normalized score is the confidence.
pub proof fn lemma_single_entry_verbatim(scores: Seq<(Lang, Rational)>, tc: nat)
    requires
        scores.len() == 1,
    ensures
        confidence_frac(scores, tc) == Some(
            (scores[0].0, (scores[0].1.num as nat, scores[0].1.den as nat)),
        ),
{
}

/// A zero leading score on a list of two or more candidates means the
/// whole sorted list carries no signal: the estimator yields absence.
pub proof fn lemma_zero_top_score_absent(scores: Seq<(Lang, Rational)>, tc: nat)
    requires
        scores.len() >= 2,
        scores[0].1.num == 0,
    ensures
        confidence_frac(scores, tc) is None,
{
}

/// When only the leading language carries signal, magnitude alone
/// decides: the confidence is exactly `min(1, score1 / 500)`.
pub proof fn lemma_sole_signal_direct(scores: Seq<(Lang, Rational)>, tc: nat)
    requires
        scores.len() >= 2,
        scores[0].1.num > 0,
        scores[1].1.num == 0,
    ensures
        confidence_frac(scores, tc) == Some(
            (
                scores[0].0,
                if scores[0].1.num as nat >= 500 * scores[0].1.den as nat {
                    (1nat, 1nat)
                } else {
                    (scores[0].1.num as nat, 500 * scores[0].1.den as nat)
                },
            ),
        ),
{
}

/// Turns a non-empty, descending-sorted normalized score list and a
/// signal-strength count into the winning language and an exact
/// confidence value, or into absence when no language carries signal.
pub fn estimate_confidence(scores: &Vec<(Lang, Rational)>, trigram_count: u32) -> (r: Option<
    (Lang, Confidence),
>)
    requires
        scores_wf(scores@),
    ensures
        (r is Some) == (confidence_frac(scores@, trigram_count as nat) is Some),
        r is Some ==> {
            let (sl, (sn, sd)) = confidence_frac(scores@, trigram_count as nat)->Some_0;
            &&& r->Some_0.0 == sl
            &&& r->Some_0.1.spec_num() == sn
            &&& r->Some_0.1.spec_den() == sd
        },
{
    if scores.len() == 0 {
        return None;
    }
    if scores.len() == 1 {
        let (l, s) = scores[0];
        assert(s.is_valid());
        return Some((l, Confidence { num: s.num as u128, den: s.den as u128 }));
    }
    let (l1, s1) = scores[0];
    let (_l2, s2) = scores[1];
    assert(s1.is_valid() && s2.is_valid());
    if s1.num == 0 {
        return None;
    }
    if s2.num == 0 {
        let den500: u64 = (DIRECT_SATURATION as u64) * (s1.den as u64);
        if s1.num as u64 >= den500 {
            return Some((l1, Confidence { num: 1, den: 1 }));
        }
        return Some((l1, Confidence { num: s1.num as u128, den: den500 as u128 }));
    }
    proof {
        assert(rat_ge(s1, s2));
        assert((s1.num as int) * (s2.den as int) < 0x1_0000_0000_0000_0000 && (s2.num as int) * (
        s1.den as int) < 0x1_0000_0000_0000_0000 && (s2.num as int) * (s1.den as int) >= 1) by (nonlinear_arith)
            requires
                s1.num <= 0xFFFF_FFFFu32,
                s2.den <= 0xFFFF_FFFFu32,
                s2.num <= 0xFFFF_FFFFu32,
                s1.den <= 0xFFFF_FFFFu32,
                s2.num >= 1,
                s1.den >= 1,
        ;
    }
    let a: u64 = (s1.num as u64) * (s2.den as u64);
    let b: u64 = (s2.num as u64) * (s1.den as u64);
    proof {
        assert(a >= b);
        assert(((a - b) as int) * 20 * (trigram_count as int) < 0x1_0000_0000_0000_0000_0000_0000_0000
            && (b as int) * (240 + trigram_count as int) < 0x1_0000_0000_0000_0000_0000_0000_0000)
            by (nonlinear_arith)
            requires
                a <= 0xFFFF_FFFF_FFFF_FFFFu64,
                b <= a,
                trigram_count <= 0xFFFF_FFFFu32,
        ;
    }
    let x: u128 = ((a - b) as u128) * (RATE_OFFSET_DEN as u128) * (trigram_count as u128);
    let y: u128 = (b as u128) * (((RATE_SIGNAL_NUM * RATE_OFFSET_DEN) as u128) + (
    trigram_count as u128));
    proof {
        assert(y >= 240) by (nonlinear_arith)
            requires
                b >= 1,
                y == (b as int) * (240 + trigram_count as int),
        ;
    }
    if x > y {
        Some((l1, Confidence { num: 1, den: 1 }))
    } else {
        Some((l1, Confidence { num: x, den: y }))
    }
}

} // verus!

