use vstd::prelude::*;
use crate::confidence::{
    confidence_frac, estimate_confidence, lemma_confidence_determined, scores_wf, Confidence,
};
use crate::info::Info;
use crate::lang::Lang;
use crate::options::{allowed_langs, FilterList, Options};
use crate::outcome::{outcome_wf, rat_ge, Outcome};
use crate::scripts::{detect_script, spec_detect_script, spec_script_langs, Script};
use crate::trigrams::{
    calculate_scores_based_on_script, spec_signal, spec_trigram_scores, trigram_outcome_ok,
};

verus! {

/// A well-formed outcome hands the estimator valid, descending-sorted
/// normalized scores.
pub proof fn lemma_wf_scores_sorted(o: Outcome)
    requires
        outcome_wf(o),
    ensures
        scores_wf(o.normalized_scores@),
{
    let norm = o.normalized_scores@;
    let raw = o.raw_scores@;
    assert forall|i: int, j: int|
        #![trigger norm[i], norm[j]]
        0 <= i < j < norm.len() implies rat_ge(norm[i].1, norm[j].1) by {
        assert(raw[i].1 >= raw[j].1);
        assert(norm[i].1.num >= norm[j].1.num);
        assert(norm[i].1.num * norm[j].1.den >= norm[j].1.num * norm[i].1.den)
            by (nonlinear_arith)
            requires
                norm[i].1.num >= norm[j].1.num,
                norm[i].1.den == norm[j].1.den,
        ;
    }
}

/// The decision of the scoring-to-decision pipeline for a known script,
/// as a pure function of the text and the candidate filter: the trigram
/// scorer ranks the candidates of `script` that the filter admits, and
/// the confidence estimator turns the ranked scores into the winning
/// language with its confidence fraction, or into absence.
pub open spec fn spec_decision(text: Seq<char>, list: FilterList, script: Script) -> Option<
    (Lang, (nat, nat)),
> {
    confidence_frac(
        spec_trigram_scores(text, allowed_langs(spec_script_langs(script), list)),
        spec_signal(text),
    )
}

/// Relates an estimator result to its specified confidence fraction.
pub open spec fn matches_frac(
    r: Option<(Lang, Confidence)>,
    f: Option<(Lang, (nat, nat))>,
) -> bool {
    match (r, f) {
        (Option::None, Option::None) => true,
        (Option::Some((l, c)), Option::Some((sl, sp))) => {
            &&& l == sl
            &&& c.spec_num() == sp.0
            &&& c.spec_den() == sp.1
        },
        _ => false,
    }
}

fn detect_lang_based_on_script(text: &str, options: &Options, script: Script) -> (r: Option<
    (Lang, Confidence),
>)
    ensures
        matches_frac(r, spec_decision(text@, options.list, script)),
{
    let outcome = calculate_scores_based_on_script(text, options, script);
    proof {
        lemma_wf_scores_sorted(outcome);
        assert(outcome.normalized_scores@ == spec_trigram_scores(
            text@,
            allowed_langs(spec_script_langs(script), options.list),
        ));
        assert(outcome.trigram_count as nat == spec_signal(text@));
    }
    estimate_confidence(&outcome.normalized_scores, outcome.trigram_count)
}

/// The full detection contract: when no script is found the result is
/// absence; otherwise the result carries the detected script and the
/// exact decision of the pipeline on it.  The right-hand side is a pure
/// function of the text and the filter, so detection is deterministic.
pub open spec fn detection_ok(text: Seq<char>, list: FilterList, r: Option<Info>) -> bool {
    match spec_detect_script(text) {
        Option::None => r is None,
        Option::Some(script) => match (r, spec_decision(text, list, script)) {
            (Option::None, Option::None) => true,
            (Option::Some(info), Option::Some((l, (n, d)))) => {
                &&& info.lang == l
                &&& info.script == script
                &&& info.confidence.spec_num() == n
                &&& info.confidence.spec_den() == d
            },
            _ => false,
        },
    }
}

/// The language-only detection contract: the projection of
/// [`detection_ok`] to the winning language.
pub open spec fn detection_lang_ok(text: Seq<char>, list: FilterList, r: Option<Lang>) -> bool {
    match spec_detect_script(text) {
        Option::None => r is None,
        Option::Some(script) => match (r, spec_decision(text, list, script)) {
            (Option::None, Option::None) => true,
            (Option::Some(l), Option::Some(d)) => l == d.0,
            _ => false,
        },
    }
}

/// Detection is deterministic: any two results allowed by the contract
/// for the same text and filter are equal.
pub proof fn lemma_detection_deterministic(
    text: Seq<char>,
    list: FilterList,
    r1: Option<Info>,
    r2: Option<Info>,
)
    requires
        detection_ok(text, list, r1),
        detection_ok(text, list, r2),
    ensures
        r1 == r2,
{
    if spec_detect_script(text) is Some {
        let script = spec_detect_script(text)->Some_0;
        if spec_decision(text, list, script) is Some {
            let i1 = r1->Some_0;
            let i2 = r2->Some_0;
            lemma_confidence_determined(i1.confidence, i2.confidence);
        }
    }
}

/// Detects the language and the writing system of `text`, restricted to
/// the candidate languages that `options` admit.
pub fn detect_with_options(text: &str, options: &Options) -> (r: Option<Info>)
    ensures
        detection_ok(text@, options.list, r),
{
    match detect_script(text) {
        Some(script) => {
            match detect_lang_based_on_script(text, options, script) {
                Some((lang, confidence)) => Some(Info { lang, script, confidence }),
                None => None,
            }
        },
        None => None,
    }
}

/// Detects the language and the writing system of `text`.
pub fn detect(text: &str) -> (r: Option<Info>)
    ensures
        detection_ok(text@, FilterList::All, r),
{
    detect_with_options(text, &Options::new())
}

/// Detects only the language of `text`.
pub fn detect_lang(text: &str) -> (r: Option<Lang>)
    ensures
        detection_lang_ok(text@, FilterList::All, r),
{
    match detect(text) {
        Some(info) => Some(info.lang),
        None => None,
    }
}

/// Detects only the language of `text`, restricted to the candidate
/// languages that `options` admit.
pub fn detect_lang_with_options(text: &str, options: &Options) -> (r: Option<Lang>)
    ensures
        detection_lang_ok(text@, options.list, r),
{
    match detect_with_options(text, options) {
        Some(info) => Some(info.lang),
        None => None,
    }
}

} // verus!

