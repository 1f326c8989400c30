use vstd::prelude::*;
use vstd::string::StrSliceExecFns;
use crate::chars::{is_stop_char, spec_is_stop_char};
use crate::lang::Lang;
use crate::outcome::{build_outcome, normalized_of, outcome_wf, sort_desc_spec, sort_scores_desc, Outcome};
use crate::scripts::{script_langs, spec_script_langs, Script};
use crate::text::{cap32, cap32_of};
use crate::trigrams::lemma_multiset_elem;

verus! {

/// The closed set of languages the alphabet scorer knows: the six
/// Slavic languages written in Cyrillic.  Requesting any other language
/// is caller misuse.
pub open spec fn is_alphabet_lang(l: Lang) -> bool {
    match l {
        Lang::Rus | Lang::Ukr | Lang::Bul | Lang::Bel | Lang::Srp | Lang::Mkd => true,
        _ => false,
    }
}

/// The reference alphabet of `l` as a sequence, upper and lower case
/// interleaved.
pub open spec fn lang_alphabet(l: Lang) -> Seq<char> {
    match l {
        Lang::Rus => seq!['А', 'а', 'Б', 'б', 'В', 'в', 'Г', 'г', 'Д', 'д', 'Е', 'е', 'Ё', 'ё', 'Ж', 'ж', 'З', 'з', 'И', 'и', 'Й', 'й', 'К', 'к', 'Л', 'л', 'М', 'м', 'Н', 'н', 'О', 'о', 'П', 'п', 'Р', 'р', 'С', 'с', 'Т', 'т', 'У', 'у', 'Ф', 'ф', 'Х', 'х', 'Ц', 'ц', 'Ч', 'ч', 'Ш', 'ш', 'Щ', 'щ', 'Ъ', 'ъ', 'Ы', 'ы', 'Ь', 'ь', 'Э', 'э', 'Ю', 'ю', 'Я', 'я'],

        Lang::Ukr => seq!['А', 'а', 'Б', 'б', 'В', 'в', 'Г', 'г', 'Ґ', 'ґ', 'Д', 'д', 'Е', 'е', 'Є', 'є', 'Ж', 'ж', 'З', 'з', 'И', 'и', 'І', 'і', 'Ї', 'ї', 'Й', 'й', 'К', 'к', 'Л', 'л', 'М', 'м', 'Н', 'н', 'О', 'о', 'П', 'п', 'Р', 'р', 'С', 'с', 'Т', 'т', 'У', 'у', 'Ф', 'ф', 'Х', 'х', 'Ц', 'ц', 'Ч', 'ч', 'Ш', 'ш', 'Щ', 'щ', 'Ь', 'ь', 'Ю', 'ю', 'Я', 'я'],

        Lang::Bul => seq!['А', 'а', 'Б', 'б', 'В', 'в', 'Г', 'г', 'Д', 'д', 'Е', 'е', 'Ж', 'ж', 'З', 'з', 'И', 'и', 'Й', 'й', 'К', 'к', 'Л', 'л', 'М', 'м', 'Н', 'н', 'О', 'о', 'П', 'п', 'Р', 'р', 'С', 'с', 'Т', 'т', 'У', 'у', 'Ф', 'ф', 'Х', 'х', 'Ц', 'ц', 'Ч', 'ч', 'Ш', 'ш', 'Щ', 'щ', 'Ъ', 'ъ', 'Ь', 'ь', 'Ю', 'ю', 'Я', 'я'],

        Lang::Bel => seq!['А', 'а', 'Б', 'б', 'В', 'в', 'Г', 'г', 'Д', 'д', 'Е', 'е', 'Ё', 'ё', 'Ж', 'ж', 'З', 'з', 'І', 'і', 'Й', 'й', 'К', 'к', 'Л', 'л', 'М', 'м', 'Н', 'н', 'О', 'о', 'П', 'п', 'Р', 'р', 'С', 'с', 'Т', 'т', 'У', 'у', 'Ў', 'ў', 'Ф', 'ф', 'Х', 'х', 'Ц', 'ц', 'Ч', 'ч', 'Ш', 'ш', 'Ы', 'ы', 'Ь', 'ь', 'Э', 'э', 'Ю', 'ю', 'Я', 'я'],

        Lang::Srp => seq!['А', 'а', 'Б', 'б', 'В', 'в', 'Г', 'г', 'Д', 'д', 'Ђ', 'ђ', 'Е', 'е', 'Ж', 'ж', 'З', 'з', 'И', 'и', 'Ј', 'ј', 'К', 'к', 'Л', 'л', 'Љ', 'љ', 'М', 'м', 'Н', 'н', 'Њ', 'њ', 'О', 'о', 'П', 'п', 'Р', 'р', 'С', 'с', 'Т', 'т', 'Ћ', 'ћ', 'У', 'у', 'Ф', 'ф', 'Х', 'х', 'Ц', 'ц', 'Ч', 'ч', 'Џ', 'џ', 'Ш', 'ш'],

        Lang::Mkd => seq!['А', 'а', 'Б', 'б', 'В', 'в', 'Г', 'г', 'Д', 'д', 'Ѓ', 'ѓ', 'Е', 'е', 'Ж', 'ж', 'З', 'з', 'Ѕ', 'ѕ', 'И', 'и', 'Ј', 'ј', 'К', 'к', 'Л', 'л', 'Љ', 'љ', 'М', 'м', 'Н', 'н', 'Њ', 'њ', 'О', 'о', 'П', 'п', 'Р', 'р', 'С', 'с', 'Т', 'т', 'Ќ', 'ќ', 'У', 'у', 'Ф', 'ф', 'Х', 'х', 'Ц', 'ц', 'Ч', 'ч', 'Џ', 'џ', 'Ш', 'ш'],
        _ => Seq::empty(),
    }
}

fn rus_chars() -> (r: Vec<char>)
    ensures
        r@ == lang_alphabet(Lang::Rus),
{
    let mut v: Vec<char> = Vec::new();
    v.push('А');
    v.push('а');
    v.push('Б');
    v.push('б');
    v.push('В');
    v.push('в');
    v.push('Г');
    v.push('г');
    v.push('Д');
    v.push('д');
    v.push('Е');
    v.push('е');
    v.push('Ё');
    v.push('ё');
    v.push('Ж');
    v.push('ж');
    v.push('З');
    v.push('з');
    v.push('И');
    v.push('и');
    v.push('Й');
    v.push('й');
    v.push('К');
    v.push('к');
    v.push('Л');
    v.push('л');
    v.push('М');
    v.push('м');
    v.push('Н');
    v.push('н');
    v.push('О');
    v.push('о');
    v.push('П');
    v.push('п');
    v.push('Р');
    v.push('р');
    v.push('С');
    v.push('с');
    v.push('Т');
    v.push('т');
    v.push('У');
    v.push('у');
    v.push('Ф');
    v.push('ф');
    v.push('Х');
    v.push('х');
    v.push('Ц');
    v.push('ц');
    v.push('Ч');
    v.push('ч');
    v.push('Ш');
    v.push('ш');
    v.push('Щ');
    v.push('щ');
    v.push('Ъ');
    v.push('ъ');
    v.push('Ы');
    v.push('ы');
    v.push('Ь');
    v.push('ь');
    v.push('Э');
    v.push('э');
    v.push('Ю');
    v.push('ю');
    v.push('Я');
    v.push('я');
    proof {
        assert(v@ =~= lang_alphabet(Lang::Rus));
    }
    v
}

fn ukr_chars() -> (r: Vec<char>)
    ensures
        r@ == lang_alphabet(Lang::Ukr),
{
    let mut v: Vec<char> = Vec::new();
    v.push('А');
    v.push('а');
    v.push('Б');
    v.push('б');
    v.push('В');
    v.push('в');
    v.push('Г');
    v.push('г');
    v.push('Ґ');
    v.push('ґ');
    v.push('Д');
    v.push('д');
    v.push('Е');
    v.push('е');
    v.push('Є');
    v.push('є');
    v.push('Ж');
    v.push('ж');
    v.push('З');
    v.push('з');
    v.push('И');
    v.push('и');
    v.push('І');
    v.push('і');
    v.push('Ї');
    v.push('ї');
    v.push('Й');
    v.push('й');
    v.push('К');
    v.push('к');
    v.push('Л');
    v.push('л');
    v.push('М');
    v.push('м');
    v.push('Н');
    v.push('н');
    v.push('О');
    v.push('о');
    v.push('П');
    v.push('п');
    v.push('Р');
    v.push('р');
    v.push('С');
    v.push('с');
    v.push('Т');
    v.push('т');
    v.push('У');
    v.push('у');
    v.push('Ф');
    v.push('ф');
    v.push('Х');
    v.push('х');
    v.push('Ц');
    v.push('ц');
    v.push('Ч');
    v.push('ч');
    v.push('Ш');
    v.push('ш');
    v.push('Щ');
    v.push('щ');
    v.push('Ь');
    v.push('ь');
    v.push('Ю');
    v.push('ю');
    v.push('Я');
    v.push('я');
    proof {
        assert(v@ =~= lang_alphabet(Lang::Ukr));
    }
    v
}

fn bul_chars() -> (r: Vec<char>)
    ensures
        r@ == lang_alphabet(Lang::Bul),
{
    let mut v: Vec<char> = Vec::new();
    v.push('А');
    v.push('а');
    v.push('Б');
    v.push('б');
    v.push('В');
    v.push('в');
    v.push('Г');
    v.push('г');
    v.push('Д');
    v.push('д');
    v.push('Е');
    v.push('е');
    v.push('Ж');
    v.push('ж');
    v.push('З');
    v.push('з');
    v.push('И');
    v.push('и');
    v.push('Й');
    v.push('й');
    v.push('К');
    v.push('к');
    v.push('Л');
    v.push('л');
    v.push('М');
    v.push('м');
    v.push('Н');
    v.push('н');
    v.push('О');
    v.push('о');
    v.push('П');
    v.push('п');
    v.push('Р');
    v.push('р');
    v.push('С');
    v.push('с');
    v.push('Т');
    v.push('т');
    v.push('У');
    v.push('у');
    v.push('Ф');
    v.push('ф');
    v.push('Х');
    v.push('х');
    v.push('Ц');
    v.push('ц');
    v.push('Ч');
    v.push('ч');
    v.push('Ш');
    v.push('ш');
    v.push('Щ');
    v.push('щ');
    v.push('Ъ');
    v.push('ъ');
    v.push('Ь');
    v.push('ь');
    v.push('Ю');
    v.push('ю');
    v.push('Я');
    v.push('я');
    proof {
        assert(v@ =~= lang_alphabet(Lang::Bul));
    }
    v
}

fn bel_chars() -> (r: Vec<char>)
    ensures
        r@ == lang_alphabet(Lang::Bel),
{
    let mut v: Vec<char> = Vec::new();
    v.push('А');
    v.push('а');
    v.push('Б');
    v.push('б');
    v.push('В');
    v.push('в');
    v.push('Г');
    v.push('г');
    v.push('Д');
    v.push('д');
    v.push('Е');
    v.push('е');
    v.push('Ё');
    v.push('ё');
    v.push('Ж');
    v.push('ж');
    v.push('З');
    v.push('з');
    v.push('І');
    v.push('і');
    v.push('Й');
    v.push('й');
    v.push('К');
    v.push('к');
    v.push('Л');
    v.push('л');
    v.push('М');
    v.push('м');
    v.push('Н');
    v.push('н');
    v.push('О');
    v.push('о');
    v.push('П');
    v.push('п');
    v.push('Р');
    v.push('р');
    v.push('С');
    v.push('с');
    v.push('Т');
    v.push('т');
    v.push('У');
    v.push('у');
    v.push('Ў');
    v.push('ў');
    v.push('Ф');
    v.push('ф');
    v.push('Х');
    v.push('х');
    v.push('Ц');
    v.push('ц');
    v.push('Ч');
    v.push('ч');
    v.push('Ш');
    v.push('ш');
    v.push('Ы');
    v.push('ы');
    v.push('Ь');
    v.push('ь');
    v.push('Э');
    v.push('э');
    v.push('Ю');
    v.push('ю');
    v.push('Я');
    v.push('я');
    proof {
        assert(v@ =~= lang_alphabet(Lang::Bel));
    }
    v
}

fn srp_chars() -> (r: Vec<char>)
    ensures
        r@ == lang_alphabet(Lang::Srp),
{
    let mut v: Vec<char> = Vec::new();
    v.push('А');
    v.push('а');
    v.push('Б');
    v.push('б');
    v.push('В');
    v.push('в');
    v.push('Г');
    v.push('г');
    v.push('Д');
    v.push('д');
    v.push('Ђ');
    v.push('ђ');
    v.push('Е');
    v.push('е');
    v.push('Ж');
    v.push('ж');
    v.push('З');
    v.push('з');
    v.push('И');
    v.push('и');
    v.push('Ј');
    v.push('ј');
    v.push('К');
    v.push('к');
    v.push('Л');
    v.push('л');
    v.push('Љ');
    v.push('љ');
    v.push('М');
    v.push('м');
    v.push('Н');
    v.push('н');
    v.push('Њ');
    v.push('њ');
    v.push('О');
    v.push('о');
    v.push('П');
    v.push('п');
    v.push('Р');
    v.push('р');
    v.push('С');
    v.push('с');
    v.push('Т');
    v.push('т');
    v.push('Ћ');
    v.push('ћ');
    v.push('У');
    v.push('у');
    v.push('Ф');
    v.push('ф');
    v.push('Х');
    v.push('х');
    v.push('Ц');
    v.push('ц');
    v.push('Ч');
    v.push('ч');
    v.push('Џ');
    v.push('џ');
    v.push('Ш');
    v.push('ш');
    proof {
        assert(v@ =~= lang_alphabet(Lang::Srp));
    }
    v
}

fn mkd_chars() -> (r: Vec<char>)
    ensures
        r@ == lang_alphabet(Lang::Mkd),
{
    let mut v: Vec<char> = Vec::new();
    v.push('А');
    v.push('а');
    v.push('Б');
    v.push('б');
    v.push('В');
    v.push('в');
    v.push('Г');
    v.push('г');
    v.push('Д');
    v.push('д');
    v.push('Ѓ');
    v.push('ѓ');
    v.push('Е');
    v.push('е');
    v.push('Ж');
    v.push('ж');
    v.push('З');
    v.push('з');
    v.push('Ѕ');
    v.push('ѕ');
    v.push('И');
    v.push('и');
    v.push('Ј');
    v.push('ј');
    v.push('К');
    v.push('к');
    v.push('Л');
    v.push('л');
    v.push('Љ');
    v.push('љ');
    v.push('М');
    v.push('м');
    v.push('Н');
    v.push('н');
    v.push('Њ');
    v.push('њ');
    v.push('О');
    v.push('о');
    v.push('П');
    v.push('п');
    v.push('Р');
    v.push('р');
    v.push('С');
    v.push('с');
    v.push('Т');
    v.push('т');
    v.push('Ќ');
    v.push('ќ');
    v.push('У');
    v.push('у');
    v.push('Ф');
    v.push('ф');
    v.push('Х');
    v.push('х');
    v.push('Ц');
    v.push('ц');
    v.push('Ч');
    v.push('ч');
    v.push('Џ');
    v.push('џ');
    v.push('Ш');
    v.push('ш');
    proof {
        assert(v@ =~= lang_alphabet(Lang::Mkd));
    }
    v
}

/// The letters of the reference alphabet of `l`, upper and lower case.
/// Only the six Cyrillic languages have one here; asking for any other
/// language is caller misuse.
pub fn get_lang_chars(lang: Lang) -> (r: Vec<char>)
    requires
        is_alphabet_lang(lang),
    ensures
        r@ == lang_alphabet(lang),
{
    match lang {
        Lang::Rus => rus_chars(),
        Lang::Ukr => ukr_chars(),
        Lang::Bul => bul_chars(),
        Lang::Bel => bel_chars(),
        Lang::Srp => srp_chars(),
        _ => mkd_chars(),
    }
}

/// How many characters of `text` are non-stop letters of the alphabet
/// of `l`.
pub open spec fn alpha_in(text: Seq<char>, l: Lang) -> nat
    decreases text.len(),
{
    if text.len() == 0 {
        0
    } else {
        alpha_in(text.drop_last(), l) + if !spec_is_stop_char(text.last()) && lang_alphabet(l).contains(text.last()) {
            1nat
        } else {
            0nat
        }
    }
}

/// How many characters of `text` are non-stop characters outside the
/// alphabet of `l`.
pub open spec fn alpha_out(text: Seq<char>, l: Lang) -> nat
    decreases text.len(),
{
    if text.len() == 0 {
        0
    } else {
        alpha_out(text.drop_last(), l) + if !spec_is_stop_char(text.last()) && !lang_alphabet(l).contains(text.last()) {
            1nat
        } else {
            0nat
        }
    }
}

/// How many characters of `text` are not stop characters: the maximum
/// achievable raw score.
pub open spec fn nonstop_count(text: Seq<char>) -> nat
    decreases text.len(),
{
    if text.len() == 0 {
        0
    } else {
        nonstop_count(text.drop_last()) + if !spec_is_stop_char(text.last()) {
            1nat
        } else {
            0nat
        }
    }
}

/// The in- and out-counts of a language split the non-stop count.
pub proof fn lemma_alpha_split(text: Seq<char>, l: Lang)
    ensures
        alpha_in(text, l) + alpha_out(text, l) == nonstop_count(text),
        nonstop_count(text) <= text.len(),
    decreases text.len(),
{
    if text.len() > 0 {
        lemma_alpha_split(text.drop_last(), l);
    }
}

/// The signed raw score a candidate contributes: letters of its
/// alphabet count for it, every other non-stop character against it.
/// Counts saturate at `u32::MAX`.
pub open spec fn alpha_pair(text: Seq<char>) -> spec_fn(Lang) -> (Lang, i64) {
    |l: Lang| (l, (cap32(alpha_in(text, l)) - cap32(alpha_out(text, l))) as i64)
}

/// What the alphabet scorer returns for `text`: a well-formed outcome
/// over exactly the six Cyrillic languages, whose raw scores are the
/// per-language net alphabet-presence counts, sorted, and whose signal
/// strength is the non-stop character count.
pub open spec fn alpha_outcome_ok(text: Seq<char>, o: Outcome) -> bool {
    let mapped = spec_script_langs(Script::Cyrillic).map_values(alpha_pair(text));
    &&& outcome_wf(o)
    &&& o.max_raw_score as nat == cap32(nonstop_count(text))
    &&& o.raw_scores@ == sort_desc_spec(mapped)
    &&& o.normalized_scores@ == normalized_of(o.raw_scores@, o.max_raw_score)
    &&& o.raw_scores@.to_multiset() == mapped.to_multiset()
    &&& o.raw_scores@.len() == 6
}

/// The alphabet scorer is a pure function of the text: any two outcomes
/// it may return for equal text agree in every field.
pub proof fn lemma_alphabet_scores_deterministic(text: Seq<char>, o1: Outcome, o2: Outcome)
    requires
        alpha_outcome_ok(text, o1),
        alpha_outcome_ok(text, o2),
    ensures
        o1.raw_scores@ == o2.raw_scores@,
        o1.normalized_scores@ == o2.normalized_scores@,
        o1.max_raw_score == o2.max_raw_score,
        o1.trigram_count == o2.trigram_count,
{
}

fn alphabet_contains(alph: &Vec<char>, c: char) -> (r: bool)
    ensures
        r == alph@.contains(c),
{
    let mut i: usize = 0;
    while i < alph.len()
        invariant
            i <= alph@.len(),
            forall|k: int| 0 <= k < i ==> alph@[k] != c,
        decreases alph@.len() - i,
    {
        if alph[i] == c {
            return true;
        }
        i += 1;
    }
    false
}

fn alpha_counts(text: &str, l: Lang) -> (r: (usize, usize))
    requires
        is_alphabet_lang(l),
    ensures
        r.0 as nat == alpha_in(text@, l),
        r.1 as nat == alpha_out(text@, l),
{
    let alph = get_lang_chars(l);
    let n = text.unicode_len();
    let mut inc: usize = 0;
    let mut outc: usize = 0;
    let mut i: usize = 0;
    while i < n
        invariant
            i <= n,
            n == text@.len(),
            alph@ == lang_alphabet(l),
            inc <= i,
            outc <= i,
            inc as nat == alpha_in(text@.take(i as int), l),
            outc as nat == alpha_out(text@.take(i as int), l),
        decreases n - i,
    {
        let c = text.get_char(i);
        proof {
            assert(text@.take(i + 1).drop_last() =~= text@.take(i as int));
            assert(text@.take(i + 1).last() == text@[i as int]);
        }
        if !is_stop_char(c) {
            if alphabet_contains(&alph, c) {
                inc += 1;
            } else {
                outc += 1;
            }
        }
        i += 1;
    }
    proof {
        assert(text@.take(n as int) =~= text@);
    }
    (inc, outc)
}

fn count_nonstop(text: &str) -> (r: usize)
    ensures
        r as nat == nonstop_count(text@),
{
    let n = text.unicode_len();
    let mut c: usize = 0;
    let mut i: usize = 0;
    while i < n
        invariant
            i <= n,
            n == text@.len(),
            c <= i,
            c as nat == nonstop_count(text@.take(i as int)),
        decreases n - i,
    {
        let ch = text.get_char(i);
        proof {
            assert(text@.take(i + 1).drop_last() =~= text@.take(i as int));
            assert(text@.take(i + 1).last() == text@[i as int]);
        }
        if !is_stop_char(ch) {
            c += 1;
        }
        i += 1;
    }
    proof {
        assert(text@.take(n as int) =~= text@);
    }
    c
}

/// Scores the six Cyrillic languages by alphabet presence: every
/// non-stop character raises the raw score of each language whose
/// alphabet contains it and lowers the raw score of every other
/// candidate.  Raw scores are clamped at zero before normalization.
pub fn alphabet_calculate_scores(text: &str) -> (o: Outcome)
    ensures
        alpha_outcome_ok(text@, o),
{
    let langs = script_langs(Script::Cyrillic);
    let max_raw = cap32_of(count_nonstop(text));
    let ghost pairf = alpha_pair(text@);
    let mut pairs: Vec<(Lang, i64)> = Vec::new();
    let mut i: usize = 0;
    while i < langs.len()
        invariant
            i <= langs@.len(),
            langs@ == spec_script_langs(Script::Cyrillic),
            pairf == alpha_pair(text@),
            pairs@ == langs@.take(i as int).map_values(pairf),
        decreases langs@.len() - i,
    {
        let l = langs[i];
        proof {
            assert(is_alphabet_lang(langs@[i as int]));
        }
        let (inc, outc) = alpha_counts(text, l);
        let ic = cap32_of(inc);
        let oc = cap32_of(outc);
        let raw: i64 = (ic as i64) - (oc as i64);
        pairs.push((l, raw));
        proof {
            assert(pairs@ =~= langs@.take(i + 1).map_values(pairf));
        }
        i += 1;
    }
    proof {
        assert(langs@.take(langs@.len() as int) =~= langs@);
    }
    let sorted = sort_scores_desc(pairs);
    proof {
        let mapped = spec_script_langs(Script::Cyrillic).map_values(pairf);
        assert forall|k: int| 0 <= k < sorted@.len() implies (#[trigger] sorted@[k]).1
            <= max_raw as i64 by {
            lemma_multiset_elem(sorted@, mapped, k);
            let j = choose|j: int| 0 <= j < mapped.len() && mapped[j] == sorted@[k];
            lemma_alpha_split(text@, mapped[j].0);
        }
        broadcast use vstd::seq_lib::group_to_multiset_ensures;

    }
    build_outcome(sorted, max_raw)
}

proof fn lemma_alpha_in_full(text: Seq<char>, l: Lang)
    requires
        forall|i: int|
            0 <= i < text.len() ==> !spec_is_stop_char(#[trigger] text[i]) && lang_alphabet(l).contains(text[i]),
    ensures
        alpha_in(text, l) == text.len(),
        alpha_out(text, l) == 0,
        nonstop_count(text) == text.len(),
    decreases text.len(),
{
    if text.len() > 0 {
        lemma_alpha_in_full(text.drop_last(), l);
    }
}

proof fn lemma_alpha_in_empty(text: Seq<char>, m: Lang)
    requires
        forall|i: int| 0 <= i < text.len() ==> !lang_alphabet(m).contains(#[trigger] text[i]),
    ensures
        alpha_in(text, m) == 0,
    decreases text.len(),
{
    if text.len() > 0 {
        lemma_alpha_in_empty(text.drop_last(), m);
    }
}

proof fn lemma_cyrillic_langs_facts(l: Lang)
    requires
        is_alphabet_lang(l),
    ensures
        spec_script_langs(Script::Cyrillic).contains(l),
        forall|j: int|
            0 <= j < spec_script_langs(Script::Cyrillic).len() ==> is_alphabet_lang(
                #[trigger] spec_script_langs(Script::Cyrillic)[j],
            ),
{
    let cyr = spec_script_langs(Script::Cyrillic);
    match l {
        Lang::Rus => assert(cyr[0] == l),
        Lang::Ukr => assert(cyr[1] == l),
        Lang::Bul => assert(cyr[2] == l),
        Lang::Bel => assert(cyr[3] == l),
        Lang::Srp => assert(cyr[4] == l),
        _ => assert(cyr[5] == l),
    }
}

/// A text written entirely in non-stop letters that belong to the
/// alphabet of `l` and to no other candidate's alphabet gives `l` the
/// maximum achievable raw score, and every other candidate a normalized
/// score of zero.
pub proof fn lemma_exclusive_alphabet_dominates(text: Seq<char>, l: Lang, o: Outcome)
    requires
        alpha_outcome_ok(text, o),
        is_alphabet_lang(l),
        forall|i: int|
            0 <= i < text.len() ==> !spec_is_stop_char(#[trigger] text[i]) && lang_alphabet(l).contains(text[i]),
        forall|i: int, m: Lang|
            #![trigger lang_alphabet(m).contains(text[i])]
            0 <= i < text.len() && is_alphabet_lang(m) && m != l ==> !lang_alphabet(m).contains(text[i]),
    ensures
        exists|k: int|
            0 <= k < o.raw_scores@.len() && o.raw_scores@[k] == (l, o.max_raw_score as i64),
        forall|k: int|
            0 <= k < o.normalized_scores@.len() && (#[trigger] o.normalized_scores@[k]).0 != l
                ==> o.normalized_scores@[k].1.num == 0,
{
    broadcast use vstd::seq_lib::group_to_multiset_ensures;

    let cyr = spec_script_langs(Script::Cyrillic);
    let mapped = cyr.map_values(alpha_pair(text));
    let raw = o.raw_scores@;
    let norm = o.normalized_scores@;
    lemma_cyrillic_langs_facts(l);
    lemma_alpha_in_full(text, l);
    let j = choose|j: int| 0 <= j < cyr.len() && cyr[j] == l;
    assert(mapped[j] == (l, o.max_raw_score as i64));
    assert(mapped.contains(mapped[j]));
    assert(raw.to_multiset().count(mapped[j]) > 0);
    assert(raw.contains(mapped[j]));
    assert forall|k: int|
        0 <= k < norm.len() && (#[trigger] norm[k]).0 != l implies norm[k].1.num == 0 by {
        lemma_multiset_elem(raw, mapped, k);
        let jm = choose|jm: int| 0 <= jm < mapped.len() && mapped[jm] == raw[k];
        let m = cyr[jm];
        assert(is_alphabet_lang(m));
        assert(norm[k].0 == raw[k].0 && raw[k].0 == m);
        lemma_alpha_in_empty(text, m);
    }
}

/// For an empty or all-stop-character text the maximum achievable raw
/// score is zero and every normalized score is exactly zero, with the
/// denominator held at one: no division fault.
pub proof fn lemma_no_signal_all_zero(text: Seq<char>, o: Outcome)
    requires
        alpha_outcome_ok(text, o),
        nonstop_count(text) == 0,
    ensures
        o.max_raw_score == 0,
        forall|k: int|
            0 <= k < o.normalized_scores@.len() ==> (#[trigger] o.normalized_scores@[k]).1.num == 0
                && o.normalized_scores@[k].1.den == 1,
{
    broadcast use vstd::seq_lib::group_to_multiset_ensures;

    let cyr = spec_script_langs(Script::Cyrillic);
    let mapped = cyr.map_values(alpha_pair(text));
    let raw = o.raw_scores@;
    let norm = o.normalized_scores@;
    assert forall|k: int|
        0 <= k < norm.len() implies (#[trigger] norm[k]).1.num == 0 && norm[k].1.den == 1 by {
        lemma_multiset_elem(raw, mapped, k);
        let jm = choose|jm: int| 0 <= jm < mapped.len() && mapped[jm] == raw[k];
        lemma_alpha_split(text, cyr[jm]);
    }
}

} // verus!

