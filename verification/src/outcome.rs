use vstd::prelude::*;
use crate::lang::Lang;
use crate::text::cap32;

verus! {

/// An exact nonnegative rational number.  Normalized scores are
/// fractions of small counts, so numerator and denominator both fit in
/// 32 bits; that bound is what lets the confidence formula be evaluated
/// exactly in 128-bit integer arithmetic.
#[derive(Clone, Copy, PartialEq, Eq, Structural, Debug)]
pub struct Rational {
    pub num: u32,
    pub den: u32,
}

impl Rational {
    /// A rational is valid when its denominator is positive.
    pub open spec fn is_valid(self) -> bool {
        self.den >= 1
    }

    /// The value is at most one.
    pub open spec fn le_one(self) -> bool {
        self.num <= self.den
    }
}

/// `a >= b` on rationals, by cross multiplication.
pub open spec fn rat_ge(a: Rational, b: Rational) -> bool {
    a.num * b.den >= b.num * a.den
}

/// A negative raw score clamped to zero: a language cannot be
/// negatively plausible for normalization purposes.
pub open spec fn clamp_nonneg(r: int) -> nat {
    if r < 0 {
        0
    } else {
        r as nat
    }
}

/// The result of one scoring pass over one text: the maximum achievable
/// raw score, the per-language raw scores sorted descending, the
/// parallel normalized scores in the same order, and the signal-strength
/// count that the confidence formula consumes.
#[derive(Debug)]
pub struct Outcome {
    /// The highest raw score any candidate could have reached.
    pub max_raw_score: u32,
    /// `(language, raw score)`, sorted descending by raw score.
    pub raw_scores: Vec<(Lang, i64)>,
    /// `(language, clamped raw score / max raw score)`, in the order of
    /// `raw_scores`; zero for every entry when `max_raw_score` is zero.
    pub normalized_scores: Vec<(Lang, Rational)>,
    /// How much signal the text contained; for the scorers of this
    /// crate it equals `max_raw_score`.
    pub trigram_count: u32,
}

/// The structural invariant of an `Outcome`: the two score lists are
/// parallel, sorted descending, and each normalized score is the
/// clamped raw score over `max(max_raw_score, 1)`, a value in `[0, 1]`.
pub open spec fn outcome_wf(o: Outcome) -> bool {
    let raw = o.raw_scores@;
    let norm = o.normalized_scores@;
    &&& raw.len() == norm.len()
    &&& forall|i: int| 0 <= i < raw.len() ==> (#[trigger] norm[i]).0 == raw[i].0
    &&& forall|i: int|
        0 <= i < raw.len() ==> (#[trigger] norm[i]).1.den == if o.max_raw_score == 0 {
            1u32
        } else {
            o.max_raw_score
        }
    &&& forall|i: int|
        0 <= i < raw.len() ==> (#[trigger] norm[i]).1.num as nat == cap32(
            clamp_nonneg(raw[i].1 as int),
        )
    &&& forall|i: int| 0 <= i < raw.len() ==> (#[trigger] norm[i]).1.num <= norm[i].1.den
    &&& forall|i: int, j: int|
        #![trigger raw[i], raw[j]]
        0 <= i < j < raw.len() ==> raw[i].1 >= raw[j].1
    &&& o.trigram_count == o.max_raw_score
}

/// The index of the first entry holding the maximum raw score of `s`.
pub open spec fn first_max_index(s: Seq<(Lang, i64)>) -> int
    decreases s.len(),
{
    if s.len() <= 1 {
        0
    } else {
        let m = first_max_index(s.drop_last());
        if s.last().1 > s[m].1 {
            s.len() - 1
        } else {
            m
        }
    }
}

/// The scores of `s` sorted descending by raw score, stably: among
/// equal raw scores the earlier entry comes first.  This is the unique
/// order every scorer of this crate emits.
pub open spec fn sort_desc_spec(s: Seq<(Lang, i64)>) -> Seq<(Lang, i64)>
    decreases s.len(),
{
    if s.len() == 0 {
        Seq::empty()
    } else {
        let m0 = first_max_index(s);
        let m = if 0 <= m0 < s.len() {
            m0
        } else {
            0
        };
        seq![s[m]] + sort_desc_spec(s.remove(m))
    }
}

/// The normalized score list derived from a raw score list: each raw
/// score clamped at zero and set over `max(max_raw, 1)`.
pub open spec fn normalized_of(raws: Seq<(Lang, i64)>, max_raw: u32) -> Seq<(Lang, Rational)> {
    raws.map_values(
        |p: (Lang, i64)|
            (
                p.0,
                Rational {
                    num: cap32(clamp_nonneg(p.1 as int)) as u32,
                    den: if max_raw == 0 {
                        1u32
                    } else {
                        max_raw
                    },
                },
            ),
    )
}

/// Scores sorted descending by raw score.
pub open spec fn sorted_desc(s: Seq<(Lang, i64)>) -> bool {
    forall|i: int, j: int| #![trigger s[i], s[j]] 0 <= i < j < s.len() ==> s[i].1 >= s[j].1
}

/// Packs sorted raw scores into an [`Outcome`], normalizing each
/// clamped raw score by `max(max_raw, 1)` and reusing `max_raw` as the
/// signal-strength count.
pub fn build_outcome(sorted: Vec<(Lang, i64)>, max_raw: u32) -> (o: Outcome)
    requires
        sorted_desc(sorted@),
        forall|k: int| 0 <= k < sorted@.len() ==> (#[trigger] sorted@[k]).1 <= max_raw as i64,
    ensures
        outcome_wf(o),
        o.raw_scores@ == sorted@,
        o.normalized_scores@ == normalized_of(sorted@, max_raw),
        o.max_raw_score == max_raw,
        o.trigram_count == max_raw,
{
    let den: u32 = if max_raw == 0 {
        1
    } else {
        max_raw
    };
    let mut norm: Vec<(Lang, Rational)> = Vec::new();
    let mut k: usize = 0;
    while k < sorted.len()
        invariant
            k <= sorted@.len(),
            forall|i: int| 0 <= i < sorted@.len() ==> (#[trigger] sorted@[i]).1 <= max_raw as i64,
            den == if max_raw == 0 {
                1u32
            } else {
                max_raw
            },
            norm@.len() == k,
            forall|i: int|
                0 <= i < k ==> {
                    let e = #[trigger] norm@[i];
                    &&& e.0 == sorted@[i].0
                    &&& e.1.den == den
                    &&& e.1.num as nat == cap32(clamp_nonneg(sorted@[i].1 as int))
                    &&& e.1.num <= e.1.den
                },
        decreases sorted@.len() - k,
    {
        let (l, rv) = sorted[k];
        let num: u32 = if rv < 0 {
            0
        } else {
            rv as u32
        };
        norm.push((l, Rational { num, den }));
        k += 1;
    }
    proof {
        assert(norm@ =~= normalized_of(sorted@, max_raw));
    }
    Outcome { max_raw_score: max_raw, raw_scores: sorted, normalized_scores: norm, trigram_count: max_raw }
}

fn index_of_max(v: &Vec<(Lang, i64)>) -> (m: usize)
    requires
        v@.len() >= 1,
    ensures
        m < v@.len(),
        m as int == first_max_index(v@),
        forall|k: int| 0 <= k < v@.len() ==> v@[m as int].1 >= (#[trigger] v@[k]).1,
        forall|k: int| 0 <= k < m ==> v@[m as int].1 > (#[trigger] v@[k]).1,
{
    let mut m: usize = 0;
    let mut i: usize = 1;
    while i < v.len()
        invariant
            m < i <= v@.len(),
            m as int == first_max_index(v@.take(i as int)),
            forall|k: int| 0 <= k < i ==> v@[m as int].1 >= (#[trigger] v@[k]).1,
            forall|k: int| 0 <= k < m ==> v@[m as int].1 > (#[trigger] v@[k]).1,
        decreases v@.len() - i,
    {
        proof {
            assert(v@.take(i + 1).drop_last() =~= v@.take(i as int));
            assert(v@.take(i + 1).last() == v@[i as int]);
            assert(v@.take(i + 1)[m as int] == v@[m as int]);
        }
        if v[i].1 > v[m].1 {
            m = i;
        }
        i += 1;
    }
    proof {
        assert(v@.take(v@.len() as int) =~= v@);
    }
    m
}

/// Sorts the scores descending by raw score.  Among equal raw scores
/// the earliest candidate is emitted first.
pub fn sort_scores_desc(v: Vec<(Lang, i64)>) -> (r: Vec<(Lang, i64)>)
    ensures
        r@ == sort_desc_spec(v@),
        r@.to_multiset() == v@.to_multiset(),
        r@.len() == v@.len(),
        sorted_desc(r@),
{
    broadcast use vstd::seq_lib::group_to_multiset_ensures;

    let ghost orig = v@;
    let mut src = v;
    let mut out: Vec<(Lang, i64)> = Vec::new();
    proof {
        assert(out@ + sort_desc_spec(src@) =~= sort_desc_spec(orig));
    }
    while src.len() > 0
        invariant
            out@ + sort_desc_spec(src@) == sort_desc_spec(orig),
            out@.to_multiset().add(src@.to_multiset()) == orig.to_multiset(),
            out@.len() + src@.len() == orig.len(),
            sorted_desc(out@),
            forall|i: int, k: int|
                #![trigger out@[i], src@[k]]
                0 <= i < out@.len() && 0 <= k < src@.len() ==> out@[i].1 >= src@[k].1,
        decreases src@.len(),
    {
        let ghost src0 = src@;
        let ghost out0 = out@;
        let m = index_of_max(&src);
        let x = src.remove(m);
        out.push(x);
        proof {
            broadcast use vstd::multiset::group_multiset_axioms;

            src0.to_multiset_ensures();
            out0.to_multiset_ensures();
            assert(src0.contains(x));
            assert(src0.to_multiset().count(x) > 0);
            assert(out@.to_multiset() =~= out0.to_multiset().insert(x));
            assert(src@.to_multiset() =~= src0.to_multiset().remove(x));
            assert(out@.to_multiset().add(src@.to_multiset()) =~= out0.to_multiset().add(
                src0.to_multiset(),
            ));
            assert(sort_desc_spec(src0) == seq![src0[m as int]] + sort_desc_spec(
                src0.remove(m as int),
            ));
            assert(out@ =~= out0 + seq![x]);
            assert(out@ + sort_desc_spec(src@) =~= out0 + sort_desc_spec(src0));
        }
    }
    proof {
        assert(out@ + sort_desc_spec(src@) =~= out@);
        assert(out@.to_multiset().add(src@.to_multiset()) =~= out@.to_multiset());
    }
    out
}

} // verus!
