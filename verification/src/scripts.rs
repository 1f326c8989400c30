use vstd::prelude::*;
use vstd::string::StrSliceExecFns;
use crate::lang::Lang;

verus! {

/// A writing system that the detector can tell apart.
#[derive(Clone, Copy, PartialEq, Eq, Structural, Debug)]
pub enum Script {
    Latin,
    Cyrillic,
    Hebrew,
    Mandarin,
}

/// A letter of the Latin script: ASCII letters, Latin-1 letters and the
/// Latin Extended-A/B blocks, without the multiplication and division
/// signs.
pub open spec fn spec_is_latin(c: char) -> bool {
    let o = c as u32;
    (0x41 <= o && o <= 0x5A) || (0x61 <= o && o <= 0x7A) || (0xC0 <= o && o <= 0x24F && o != 0xD7
        && o != 0xF7)
}

/// A letter of the Cyrillic block.
pub open spec fn spec_is_cyrillic(c: char) -> bool {
    let o = c as u32;
    0x400 <= o && o <= 0x4FF
}

/// A letter of the Hebrew block.
pub open spec fn spec_is_hebrew(c: char) -> bool {
    let o = c as u32;
    0x590 <= o && o <= 0x5FF
}

/// A character of the unified CJK ideograph blocks.
pub open spec fn spec_is_mandarin(c: char) -> bool {
    let o = c as u32;
    (0x4E00 <= o && o <= 0x9FFF) || (0x3400 <= o && o <= 0x4DBF)
}

/// Whether `c` belongs to the script `sc`.
pub open spec fn spec_in_script(c: char, sc: Script) -> bool {
    match sc {
        Script::Latin => spec_is_latin(c),
        Script::Cyrillic => spec_is_cyrillic(c),
        Script::Hebrew => spec_is_hebrew(c),
        Script::Mandarin => spec_is_mandarin(c),
    }
}

fn in_script(c: char, sc: Script) -> (r: bool)
    ensures
        r == spec_in_script(c, sc),
{
    let o = c as u32;
    match sc {
        Script::Latin => (0x41 <= o && o <= 0x5A) || (0x61 <= o && o <= 0x7A) || (0xC0 <= o && o
            <= 0x24F && o != 0xD7 && o != 0xF7),
        Script::Cyrillic => 0x400 <= o && o <= 0x4FF,
        Script::Hebrew => 0x590 <= o && o <= 0x5FF,
        Script::Mandarin => (0x4E00 <= o && o <= 0x9FFF) || (0x3400 <= o && o <= 0x4DBF),
    }
}

/// How many characters of `s` belong to the script `sc`.
pub open spec fn script_count(s: Seq<char>, sc: Script) -> nat
    decreases s.len(),
{
    if s.len() == 0 {
        0
    } else {
        script_count(s.drop_last(), sc) + if spec_in_script(s.last(), sc) {
            1nat
        } else {
            0nat
        }
    }
}

proof fn lemma_script_count_le_len(s: Seq<char>, sc: Script)
    ensures
        script_count(s, sc) <= s.len(),
    decreases s.len(),
{
    if s.len() > 0 {
        lemma_script_count_le_len(s.drop_last(), sc);
    }
}

/// The dominant writing system of a text: the script with the most
/// member characters, or absence when no character belongs to any.
/// Ties go to the earlier script in declaration order.
pub open spec fn spec_detect_script(s: Seq<char>) -> Option<Script> {
    let l = script_count(s, Script::Latin);
    let c = script_count(s, Script::Cyrillic);
    let h = script_count(s, Script::Hebrew);
    let m = script_count(s, Script::Mandarin);
    if l > 0 && l >= c && l >= h && l >= m {
        Some(Script::Latin)
    } else if c > 0 && c >= h && c >= m {
        Some(Script::Cyrillic)
    } else if h > 0 && h >= m {
        Some(Script::Hebrew)
    } else if m > 0 {
        Some(Script::Mandarin)
    } else {
        None
    }
}

/// Finds the dominant writing system of `text`, or `None` when no
/// character of `text` belongs to a known script.
pub fn detect_script(text: &str) -> (r: Option<Script>)
    ensures
        r == spec_detect_script(text@),
{
    let n = text.unicode_len();
    let mut l: usize = 0;
    let mut c: usize = 0;
    let mut h: usize = 0;
    let mut m: usize = 0;
    let mut i: usize = 0;
    while i < n
        invariant
            i <= n,
            n == text@.len(),
            l as nat == script_count(text@.take(i as int), Script::Latin),
            c as nat == script_count(text@.take(i as int), Script::Cyrillic),
            h as nat == script_count(text@.take(i as int), Script::Hebrew),
            m as nat == script_count(text@.take(i as int), Script::Mandarin),
            l <= i && c <= i && h <= i && m <= i,
        decreases n - i,
    {
        let ch = text.get_char(i);
        proof {
            assert(text@.take(i + 1).drop_last() =~= text@.take(i as int));
            assert(text@.take(i + 1).last() == text@[i as int]);
            lemma_script_count_le_len(text@.take(i as int), Script::Latin);
            lemma_script_count_le_len(text@.take(i as int), Script::Cyrillic);
            lemma_script_count_le_len(text@.take(i as int), Script::Hebrew);
            lemma_script_count_le_len(text@.take(i as int), Script::Mandarin);
        }
        if in_script(ch, Script::Latin) {
            l += 1;
        }
        if in_script(ch, Script::Cyrillic) {
            c += 1;
        }
        if in_script(ch, Script::Hebrew) {
            h += 1;
        }
        if in_script(ch, Script::Mandarin) {
            m += 1;
        }
        i += 1;
    }
    proof {
        assert(text@.take(n as int) =~= text@);
    }
    if l > 0 && l >= c && l >= h && l >= m {
        Some(Script::Latin)
    } else if c > 0 && c >= h && c >= m {
        Some(Script::Cyrillic)
    } else if h > 0 && h >= m {
        Some(Script::Hebrew)
    } else if m > 0 {
        Some(Script::Mandarin)
    } else {
        None
    }
}

/// The candidate languages of a writing system, in the fixed order that
/// breaks scoring ties.
pub open spec fn spec_script_langs(sc: Script) -> Seq<Lang> {
    match sc {
        Script::Latin => seq![
            Lang::Eng,
            Lang::Spa,
            Lang::Epo,
            Lang::Tgl,
            Lang::Nld,
            Lang::Swe,
            Lang::Nob,
            Lang::Uzb,
            Lang::Jav,
            Lang::Ceb,
            Lang::Ilo,
        ],
        Script::Cyrillic => seq![Lang::Rus, Lang::Ukr, Lang::Bul, Lang::Bel, Lang::Srp, Lang::Mkd],
        Script::Hebrew => seq![Lang::Heb, Lang::Yid],
        Script::Mandarin => seq![Lang::Cmn, Lang::Jpn],
    }
}

/// Builds the candidate language list of the script `sc`.
pub fn script_langs(sc: Script) -> (r: Vec<Lang>)
    ensures
        r@ == spec_script_langs(sc),
{
    let mut v: Vec<Lang> = Vec::new();
    match sc {
        Script::Latin => {
            v.push(Lang::Eng);
            v.push(Lang::Spa);
            v.push(Lang::Epo);
            v.push(Lang::Tgl);
            v.push(Lang::Nld);
            v.push(Lang::Swe);
            v.push(Lang::Nob);
            v.push(Lang::Uzb);
            v.push(Lang::Jav);
            v.push(Lang::Ceb);
            v.push(Lang::Ilo);
        },
        Script::Cyrillic => {
            v.push(Lang::Rus);
            v.push(Lang::Ukr);
            v.push(Lang::Bul);
            v.push(Lang::Bel);
            v.push(Lang::Srp);
            v.push(Lang::Mkd);
        },
        Script::Hebrew => {
            v.push(Lang::Heb);
            v.push(Lang::Yid);
        },
        Script::Mandarin => {
            v.push(Lang::Cmn);
            v.push(Lang::Jpn);
        },
    }
    proof {
        assert(v@ =~= spec_script_langs(sc));
    }
    v
}

} // verus!
