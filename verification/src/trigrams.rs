use vstd::prelude::*;
use crate::lang::Lang;
use crate::options::{allowed_langs, filter_candidates, Options};
use crate::outcome::{build_outcome, normalized_of, outcome_wf, sort_desc_spec, sort_scores_desc, Outcome, Rational};
use crate::profiles::{
    count_matches, count_profile_matches, lang_profile, lang_profile_vec,
    lemma_count_matches_le_len,
};
use crate::scripts::{script_langs, spec_script_langs, Script};
use crate::text::{cap32, cap32_of, normalize, spec_normalized, spec_windows, windows};

verus! {

/// The raw trigram score of `l` on `text`: how many trigrams of the
/// normalized text, counted with multiplicity, occur in the language's
/// reference profile.
pub open spec fn trigram_raw(text: Seq<char>, l: Lang) -> nat {
    count_matches(spec_windows(spec_normalized(text)), lang_profile(l))
}

/// The `(language, raw score)` pair a candidate contributes.
pub open spec fn trigram_pair(text: Seq<char>) -> spec_fn(Lang) -> (Lang, i64) {
    |l: Lang| (l, cap32(trigram_raw(text, l)) as i64)
}

/// What the trigram scorer returns for `text` and the candidate list
/// `langs`: a well-formed outcome whose raw scores are exactly the
/// per-candidate trigram scores, sorted, and whose signal strength is
/// the number of trigrams the text produced.
pub open spec fn trigram_outcome_ok(text: Seq<char>, langs: Seq<Lang>, o: Outcome) -> bool {
    let mapped = langs.map_values(trigram_pair(text));
    &&& outcome_wf(o)
    &&& o.max_raw_score as nat == cap32(spec_windows(spec_normalized(text)).len())
    &&& o.raw_scores@ == sort_desc_spec(mapped)
    &&& o.normalized_scores@ == normalized_of(o.raw_scores@, o.max_raw_score)
    &&& o.raw_scores@.to_multiset() == mapped.to_multiset()
    &&& o.raw_scores@.len() == langs.len()
}

/// The signal strength the trigram scorer reports for `text`: how many
/// trigrams the normalized text produced, saturated at `u32::MAX`.
pub open spec fn spec_signal(text: Seq<char>) -> nat {
    cap32(spec_windows(spec_normalized(text)).len())
}

/// The normalized, sorted score list the trigram scorer produces for
/// `text` and the candidate list `langs`: a pure function of both.
pub open spec fn spec_trigram_scores(text: Seq<char>, langs: Seq<Lang>) -> Seq<(Lang, Rational)> {
    normalized_of(sort_desc_spec(langs.map_values(trigram_pair(text))), spec_signal(text) as u32)
}

pub proof fn lemma_multiset_elem(s: Seq<(Lang, i64)>, t: Seq<(Lang, i64)>, k: int)
    requires
        s.to_multiset() == t.to_multiset(),
        0 <= k < s.len(),
    ensures
        exists|j: int| 0 <= j < t.len() && t[j] == s[k],
{
    broadcast use vstd::seq_lib::group_to_multiset_ensures;

    assert(s.contains(s[k]));
    assert(s.to_multiset().count(s[k]) > 0);
    assert(t.contains(s[k]));
}

/// Scores every candidate language by trigram presence and bundles the
/// result: raw scores sorted descending, normalized scores in parallel,
/// and the trigram count as signal strength.
pub fn trigram_calculate_scores(text: &str, langs: &Vec<Lang>) -> (o: Outcome)
    ensures
        trigram_outcome_ok(text@, langs@, o),
{
    let norm = normalize(text);
    let ws = windows(&norm);
    let w_cap = cap32_of(ws.len());
    let ghost pairf = trigram_pair(text@);
    let mut pairs: Vec<(Lang, i64)> = Vec::new();
    let mut i: usize = 0;
    while i < langs.len()
        invariant
            i <= langs@.len(),
            ws@ == spec_windows(spec_normalized(text@)),
            ws@.len() <= usize::MAX,
            pairf == trigram_pair(text@),
            pairs@ == langs@.take(i as int).map_values(pairf),
        decreases langs@.len() - i,
    {
        let l = langs[i];
        let p = lang_profile_vec(l);
        let m = count_profile_matches(&ws, &p);
        let mc = cap32_of(m);
        pairs.push((l, mc as i64));
        proof {
            assert(pairs@ =~= langs@.take(i + 1).map_values(pairf));
        }
        i += 1;
    }
    proof {
        assert(langs@.take(langs@.len() as int) =~= langs@);
    }
    let sorted = sort_scores_desc(pairs);
    proof {
        let mapped = langs@.map_values(pairf);
        assert forall|k: int| 0 <= k < sorted@.len() implies (#[trigger] sorted@[k]).1
            <= w_cap as i64 by {
            lemma_multiset_elem(sorted@, mapped, k);
            let j = choose|j: int| 0 <= j < mapped.len() && mapped[j] == sorted@[k];
            lemma_count_matches_le_len(
                spec_windows(spec_normalized(text@)),
                lang_profile(langs@[j]),
            );
        }
        broadcast use vstd::seq_lib::group_to_multiset_ensures;

    }
    build_outcome(sorted, w_cap)
}

/// Scores the candidates of `script` that the options admit, by
/// trigram presence on `text`.
pub fn calculate_scores_based_on_script(text: &str, options: &Options, script: Script) -> (o:
    Outcome)
    ensures
        trigram_outcome_ok(
            text@,
            allowed_langs(spec_script_langs(script), options.list),
            o,
        ),
{
    let cands = script_langs(script);
    let cands = filter_candidates(cands, options);
    trigram_calculate_scores(text, &cands)
}

} // verus!
