use vstd::prelude::*;
use crate::lang::Lang;

verus! {

/// The reference trigram profile of a language: the most telling
/// trigrams of its orthography, hand-picked from common function words
/// and affixes.  A text is scored by how many of its trigrams occur in
/// a profile, so profiles of related languages deliberately share their
/// common trigrams.
pub open spec fn lang_profile(l: Lang) -> Seq<(char, char, char)> {
    match l {
        Lang::Eng => seq![
            ('t', 'h', 'e'),
            ('h', 'e', ' '),
            (' ', 't', 'h'),
            ('i', 'n', 'g'),
            ('n', 'g', ' '),
            ('a', 'n', 'd'),
            ('n', 'd', ' '),
            (' ', 'a', 'n'),
            ('e', 'r', ' '),
            ('e', 'd', ' '),
            ('e', 's', ' '),
            ('w', 'e', 'r'),
            (' ', 't', 'o'),
            ('t', 'o', ' '),
            ('i', 's', ' '),
            ('i', 'o', 'n')
        ],
        Lang::Spa => seq![
            (' ', 'd', 'e'),
            ('d', 'e', ' '),
            ('o', 's', ' '),
            ('l', 'a', ' '),
            (' ', 'l', 'a'),
            ('e', 'l', ' '),
            (' ', 'e', 'l'),
            ('e', 'n', ' '),
            (' ', 'e', 'n'),
            ('e', 'n', 't'),
            ('n', 't', 'e'),
            ('e', 's', ' '),
            ('a', 's', ' '),
            ('i', 'o', 'n'),
            ('c', 'i', 'o'),
            (' ', 'c', 'o'),
            ('c', 'o', 'n'),
            ('q', 'u', 'e'),
            (' ', 'q', 'u'),
            ('c', 'h', 'o'),
            ('a', 'd', 'o')
        ],
        Lang::Epo => seq![
            ('l', 'a', ' '),
            (' ', 'l', 'a'),
            ('o', 'j', ' '),
            ('a', 'j', ' '),
            ('o', 'n', ' '),
            ('a', 's', ' '),
            ('i', 's', ' '),
            (' ', 'k', 'a'),
            ('k', 'a', 'j'),
            (' ', 'e', 's'),
            ('e', 's', 't'),
            ('n', 'e', ' '),
            (' ', 'n', 'e'),
            ('m', 'i', ' '),
            (' ', 'm', 'i'),
            ('a', 'n', 't')
        ],
        Lang::Tgl => seq![
            ('n', 'g', ' '),
            ('a', 'n', 'g'),
            (' ', 'n', 'a'),
            ('n', 'a', ' '),
            ('a', 'n', ' '),
            (' ', 's', 'a'),
            ('s', 'a', ' '),
            (' ', 'p', 'a'),
            ('p', 'a', 'g'),
            ('g', 'i', 'n'),
            ('a', 'l', 'a'),
            (' ', 'm', 'a'),
            ('m', 'g', 'a'),
            (' ', 'm', 'g'),
            ('a', 'y', ' '),
            (' ', 'a', 'y')
        ],
        Lang::Nld => seq![
            ('e', 'n', ' '),
            ('d', 'e', ' '),
            (' ', 'd', 'e'),
            ('v', 'a', 'n'),
            (' ', 'v', 'a'),
            ('e', 'e', 'n'),
            (' ', 'e', 'e'),
            ('e', 't', ' '),
            (' ', 'h', 'e'),
            ('h', 'e', 't'),
            ('a', 'a', 'r'),
            ('i', 'j', ' '),
            (' ', 'g', 'e')
        ],
        Lang::Swe => seq![
            ('e', 'n', ' '),
            ('e', 't', ' '),
            ('a', 'r', ' '),
            ('f', 'o', 'r'),
            (' ', 'f', 'o'),
            ('o', 'c', 'h'),
            (' ', 'o', 'c'),
            ('a', 't', 't'),
            (' ', 'a', 't'),
            ('d', 'e', 't'),
            (' ', 'd', 'e'),
            ('s', 'o', 'm'),
            (' ', 's', 'o')
        ],
        Lang::Nob => seq![
            ('e', 'r', ' '),
            ('e', 'n', ' '),
            ('e', 't', ' '),
            ('d', 'e', 't'),
            (' ', 'd', 'e'),
            ('o', 'g', ' '),
            (' ', 'o', 'g'),
            ('t', 'i', 'l'),
            (' ', 't', 'i'),
            ('i', 'k', 'k'),
            ('k', 'k', 'e')
        ],
        Lang::Uzb => seq![
            ('l', 'a', 'r'),
            ('a', 'r', ' '),
            ('n', 'i', ' '),
            ('d', 'a', ' '),
            ('g', 'a', ' '),
            ('i', 's', 'h'),
            ('s', 'h', ' '),
            ('b', 'i', 'r'),
            (' ', 'b', 'i'),
            ('g', 'a', 'n')
        ],
        Lang::Jav => seq![
            ('a', 'n', 'g'),
            ('k', 'a', 'n'),
            ('a', 'k', 'e'),
            (' ', 'k', 'a'),
            ('n', 'e', ' '),
            ('p', 'u', 'n'),
            ('i', 'p', 'u'),
            ('a', 'r', 'a')
        ],
        Lang::Ceb => seq![
            ('a', 'n', 'g'),
            ('n', 'g', 'a'),
            ('s', 'a', ' '),
            (' ', 's', 'a'),
            ('o', 'g', ' '),
            (' ', 'o', 'g'),
            ('k', 'a', ' '),
            (' ', 'k', 'a'),
            ('m', 'g', 'a')
        ],
        Lang::Ilo => seq![
            ('i', 't', 'i'),
            (' ', 'i', 't'),
            ('t', 'i', ' '),
            ('n', 'g', 'a'),
            ('e', 'n', ' '),
            ('k', 'a', 'd'),
            (' ', 'k', 'a')
        ],
        Lang::Rus => seq![
            ('н', 'а', ' '),
            (' ', 'н', 'а'),
            ('н', 'е', ' '),
            (' ', 'н', 'е'),
            ('о', 'г', 'о'),
            ('г', 'о', ' '),
            ('т', 'о', ' '),
            (' ', 'т', 'о'),
            ('т', 'ь', ' '),
            ('е', 'г', 'о'),
            (' ', 'п', 'р'),
            ('п', 'р', 'и'),
            ('е', 'н', 'и'),
            ('о', 'с', 'т'),
            ('с', 'т', 'в')
        ],
        Lang::Ukr => seq![
            ('н', 'а', ' '),
            (' ', 'н', 'а'),
            ('н', 'е', ' '),
            (' ', 'н', 'е'),
            (' ', 'н', 'і'),
            ('н', 'і', 'ч'),
            ('о', 'г', 'о'),
            ('г', 'о', ' '),
            ('т', 'ь', ' '),
            ('н', 'я', ' '),
            ('и', 'й', ' '),
            (' ', 'я', 'к'),
            ('я', 'к', ' '),
            (' ', 'у', 'к'),
            ('у', 'к', 'р')
        ],
        Lang::Bul => seq![
            ('н', 'а', ' '),
            (' ', 'н', 'а'),
            ('н', 'е', ' '),
            (' ', 'н', 'е'),
            ('т', 'а', ' '),
            (' ', 'т', 'а'),
            ('т', 'о', ' '),
            (' ', 'т', 'о'),
            ('и', 'т', 'е'),
            ('т', 'е', ' '),
            ('а', 'т', 'а')
        ],
        Lang::Bel => seq![
            ('н', 'а', ' '),
            (' ', 'н', 'а'),
            ('н', 'е', ' '),
            (' ', 'н', 'е'),
            ('ц', 'ь', ' '),
            ('а', 'г', 'а'),
            ('ы', 'х', ' '),
            (' ', 'п', 'р'),
            ('а', 'й', ' '),
            ('д', 'з', 'е')
        ],
        Lang::Srp => seq![
            ('н', 'а', ' '),
            (' ', 'н', 'а'),
            ('н', 'е', ' '),
            (' ', 'н', 'е'),
            ('ј', 'е', ' '),
            (' ', 'ј', 'е'),
            ('д', 'а', ' '),
            (' ', 'д', 'а'),
            ('о', 'г', ' '),
            ('и', 'ј', 'е'),
            ('њ', 'а', ' ')
        ],
        Lang::Mkd => seq![
            ('н', 'а', ' '),
            (' ', 'н', 'а'),
            ('н', 'е', ' '),
            (' ', 'н', 'е'),
            ('т', 'а', ' '),
            (' ', 'т', 'а'),
            ('т', 'о', ' '),
            (' ', 'т', 'о'),
            ('ј', 'а', ' '),
            (' ', 'ј', 'а'),
            ('и', 'о', 'т'),
            ('о', 'т', ' ')
        ],
        Lang::Heb => seq![
            ('י', 'ם', ' '),
            (' ', 'ש', 'ל'),
            ('ש', 'ל', ' '),
            ('י', 'ת', ' '),
            (' ', 'ה', 'מ'),
            (' ', 'ו', 'ה')
        ],
        Lang::Yid => seq![
            ('ע', 'ן', ' '),
            (' ', 'פ', 'ֿ'),
            ('ד', 'י', ' '),
            (' ', 'ד', 'י'),
            ('ע', 'ר', ' ')
        ],
        Lang::Cmn => seq![
            (' ', '的', ' ')
        ],
        Lang::Jpn => seq![
            (' ', 'の', ' ')
        ],
    }
}

/// Builds the reference trigram profile of `l`.
pub fn lang_profile_vec(l: Lang) -> (r: Vec<(char, char, char)>)
    ensures
        r@ == lang_profile(l),
{
    match l {
        Lang::Eng => {
            let mut v: Vec<(char, char, char)> = Vec::new();
            v.push(('t', 'h', 'e'));
            v.push(('h', 'e', ' '));
            v.push((' ', 't', 'h'));
            v.push(('i', 'n', 'g'));
            v.push(('n', 'g', ' '));
            v.push(('a', 'n', 'd'));
            v.push(('n', 'd', ' '));
            v.push((' ', 'a', 'n'));
            v.push(('e', 'r', ' '));
            v.push(('e', 'd', ' '));
            v.push(('e', 's', ' '));
            v.push(('w', 'e', 'r'));
            v.push((' ', 't', 'o'));
            v.push(('t', 'o', ' '));
            v.push(('i', 's', ' '));
            v.push(('i', 'o', 'n'));
            proof {
                assert(v@ =~= lang_profile(l));
            }
            v
        },
        Lang::Spa => {
            let mut v: Vec<(char, char, char)> = Vec::new();
            v.push((' ', 'd', 'e'));
            v.push(('d', 'e', ' '));
            v.push(('o', 's', ' '));
            v.push(('l', 'a', ' '));
            v.push((' ', 'l', 'a'));
            v.push(('e', 'l', ' '));
            v.push((' ', 'e', 'l'));
            v.push(('e', 'n', ' '));
            v.push((' ', 'e', 'n'));
            v.push(('e', 'n', 't'));
            v.push(('n', 't', 'e'));
            v.push(('e', 's', ' '));
            v.push(('a', 's', ' '));
            v.push(('i', 'o', 'n'));
            v.push(('c', 'i', 'o'));
            v.push((' ', 'c', 'o'));
            v.push(('c', 'o', 'n'));
            v.push(('q', 'u', 'e'));
            v.push((' ', 'q', 'u'));
            v.push(('c', 'h', 'o'));
            v.push(('a', 'd', 'o'));
            proof {
                assert(v@ =~= lang_profile(l));
            }
            v
        },
        Lang::Epo => {
            let mut v: Vec<(char, char, char)> = Vec::new();
            v.push(('l', 'a', ' '));
            v.push((' ', 'l', 'a'));
            v.push(('o', 'j', ' '));
            v.push(('a', 'j', ' '));
            v.push(('o', 'n', ' '));
            v.push(('a', 's', ' '));
            v.push(('i', 's', ' '));
            v.push((' ', 'k', 'a'));
            v.push(('k', 'a', 'j'));
            v.push((' ', 'e', 's'));
            v.push(('e', 's', 't'));
            v.push(('n', 'e', ' '));
            v.push((' ', 'n', 'e'));
            v.push(('m', 'i', ' '));
            v.push((' ', 'm', 'i'));
            v.push(('a', 'n', 't'));
            proof {
                assert(v@ =~= lang_profile(l));
            }
            v
        },
        Lang::Tgl => {
            let mut v: Vec<(char, char, char)> = Vec::new();
            v.push(('n', 'g', ' '));
            v.push(('a', 'n', 'g'));
            v.push((' ', 'n', 'a'));
            v.push(('n', 'a', ' '));
            v.push(('a', 'n', ' '));
            v.push((' ', 's', 'a'));
            v.push(('s', 'a', ' '));
            v.push((' ', 'p', 'a'));
            v.push(('p', 'a', 'g'));
            v.push(('g', 'i', 'n'));
            v.push(('a', 'l', 'a'));
            v.push((' ', 'm', 'a'));
            v.push(('m', 'g', 'a'));
            v.push((' ', 'm', 'g'));
            v.push(('a', 'y', ' '));
            v.push((' ', 'a', 'y'));
            proof {
                assert(v@ =~= lang_profile(l));
            }
            v
        },
        Lang::Nld => {
            let mut v: Vec<(char, char, char)> = Vec::new();
            v.push(('e', 'n', ' '));
            v.push(('d', 'e', ' '));
            v.push((' ', 'd', 'e'));
            v.push(('v', 'a', 'n'));
            v.push((' ', 'v', 'a'));
            v.push(('e', 'e', 'n'));
            v.push((' ', 'e', 'e'));
            v.push(('e', 't', ' '));
            v.push((' ', 'h', 'e'));
            v.push(('h', 'e', 't'));
            v.push(('a', 'a', 'r'));
            v.push(('i', 'j', ' '));
            v.push((' ', 'g', 'e'));
            proof {
                assert(v@ =~= lang_profile(l));
            }
            v
        },
        Lang::Swe => {
            let mut v: Vec<(char, char, char)> = Vec::new();
            v.push(('e', 'n', ' '));
            v.push(('e', 't', ' '));
            v.push(('a', 'r', ' '));
            v.push(('f', 'o', 'r'));
            v.push((' ', 'f', 'o'));
            v.push(('o', 'c', 'h'));
            v.push((' ', 'o', 'c'));
            v.push(('a', 't', 't'));
            v.push((' ', 'a', 't'));
            v.push(('d', 'e', 't'));
            v.push((' ', 'd', 'e'));
            v.push(('s', 'o', 'm'));
            v.push((' ', 's', 'o'));
            proof {
                assert(v@ =~= lang_profile(l));
            }
            v
        },
        Lang::Nob => {
            let mut v: Vec<(char, char, char)> = Vec::new();
            v.push(('e', 'r', ' '));
            v.push(('e', 'n', ' '));
            v.push(('e', 't', ' '));
            v.push(('d', 'e', 't'));
            v.push((' ', 'd', 'e'));
            v.push(('o', 'g', ' '));
            v.push((' ', 'o', 'g'));
            v.push(('t', 'i', 'l'));
            v.push((' ', 't', 'i'));
            v.push(('i', 'k', 'k'));
            v.push(('k', 'k', 'e'));
            proof {
                assert(v@ =~= lang_profile(l));
            }
            v
        },
        Lang::Uzb => {
            let mut v: Vec<(char, char, char)> = Vec::new();
            v.push(('l', 'a', 'r'));
            v.push(('a', 'r', ' '));
            v.push(('n', 'i', ' '));
            v.push(('d', 'a', ' '));
            v.push(('g', 'a', ' '));
            v.push(('i', 's', 'h'));
            v.push(('s', 'h', ' '));
            v.push(('b', 'i', 'r'));
            v.push((' ', 'b', 'i'));
            v.push(('g', 'a', 'n'));
            proof {
                assert(v@ =~= lang_profile(l));
            }
            v
        },
        Lang::Jav => {
            let mut v: Vec<(char, char, char)> = Vec::new();
            v.push(('a', 'n', 'g'));
            v.push(('k', 'a', 'n'));
            v.push(('a', 'k', 'e'));
            v.push((' ', 'k', 'a'));
            v.push(('n', 'e', ' '));
            v.push(('p', 'u', 'n'));
            v.push(('i', 'p', 'u'));
            v.push(('a', 'r', 'a'));
            proof {
                assert(v@ =~= lang_profile(l));
            }
            v
        },
        Lang::Ceb => {
            let mut v: Vec<(char, char, char)> = Vec::new();
            v.push(('a', 'n', 'g'));
            v.push(('n', 'g', 'a'));
            v.push(('s', 'a', ' '));
            v.push((' ', 's', 'a'));
            v.push(('o', 'g', ' '));
            v.push((' ', 'o', 'g'));
            v.push(('k', 'a', ' '));
            v.push((' ', 'k', 'a'));
            v.push(('m', 'g', 'a'));
            proof {
                assert(v@ =~= lang_profile(l));
            }
            v
        },
        Lang::Ilo => {
            let mut v: Vec<(char, char, char)> = Vec::new();
            v.push(('i', 't', 'i'));
            v.push((' ', 'i', 't'));
            v.push(('t', 'i', ' '));
            v.push(('n', 'g', 'a'));
            v.push(('e', 'n', ' '));
            v.push(('k', 'a', 'd'));
            v.push((' ', 'k', 'a'));
            proof {
                assert(v@ =~= lang_profile(l));
            }
            v
        },
        Lang::Rus => {
            let mut v: Vec<(char, char, char)> = Vec::new();
            v.push(('н', 'а', ' '));
            v.push((' ', 'н', 'а'));
            v.push(('н', 'е', ' '));
            v.push((' ', 'н', 'е'));
            v.push(('о', 'г', 'о'));
            v.push(('г', 'о', ' '));
            v.push(('т', 'о', ' '));
            v.push((' ', 'т', 'о'));
            v.push(('т', 'ь', ' '));
            v.push(('е', 'г', 'о'));
            v.push((' ', 'п', 'р'));
            v.push(('п', 'р', 'и'));
            v.push(('е', 'н', 'и'));
            v.push(('о', 'с', 'т'));
            v.push(('с', 'т', 'в'));
            proof {
                assert(v@ =~= lang_profile(l));
            }
            v
        },
        Lang::Ukr => {
            let mut v: Vec<(char, char, char)> = Vec::new();
            v.push(('н', 'а', ' '));
            v.push((' ', 'н', 'а'));
            v.push(('н', 'е', ' '));
            v.push((' ', 'н', 'е'));
            v.push((' ', 'н', 'і'));
            v.push(('н', 'і', 'ч'));
            v.push(('о', 'г', 'о'));
            v.push(('г', 'о', ' '));
            v.push(('т', 'ь', ' '));
            v.push(('н', 'я', ' '));
            v.push(('и', 'й', ' '));
            v.push((' ', 'я', 'к'));
            v.push(('я', 'к', ' '));
            v.push((' ', 'у', 'к'));
            v.push(('у', 'к', 'р'));
            proof {
                assert(v@ =~= lang_profile(l));
            }
            v
        },
        Lang::Bul => {
            let mut v: Vec<(char, char, char)> = Vec::new();
            v.push(('н', 'а', ' '));
            v.push((' ', 'н', 'а'));
            v.push(('н', 'е', ' '));
            v.push((' ', 'н', 'е'));
            v.push(('т', 'а', ' '));
            v.push((' ', 'т', 'а'));
            v.push(('т', 'о', ' '));
            v.push((' ', 'т', 'о'));
            v.push(('и', 'т', 'е'));
            v.push(('т', 'е', ' '));
            v.push(('а', 'т', 'а'));
            proof {
                assert(v@ =~= lang_profile(l));
            }
            v
        },
        Lang::Bel => {
            let mut v: Vec<(char, char, char)> = Vec::new();
            v.push(('н', 'а', ' '));
            v.push((' ', 'н', 'а'));
            v.push(('н', 'е', ' '));
            v.push((' ', 'н', 'е'));
            v.push(('ц', 'ь', ' '));
            v.push(('а', 'г', 'а'));
            v.push(('ы', 'х', ' '));
            v.push((' ', 'п', 'р'));
            v.push(('а', 'й', ' '));
            v.push(('д', 'з', 'е'));
            proof {
                assert(v@ =~= lang_profile(l));
            }
            v
        },
        Lang::Srp => {
            let mut v: Vec<(char, char, char)> = Vec::new();
            v.push(('н', 'а', ' '));
            v.push((' ', 'н', 'а'));
            v.push(('н', 'е', ' '));
            v.push((' ', 'н', 'е'));
            v.push(('ј', 'е', ' '));
            v.push((' ', 'ј', 'е'));
            v.push(('д', 'а', ' '));
            v.push((' ', 'д', 'а'));
            v.push(('о', 'г', ' '));
            v.push(('и', 'ј', 'е'));
            v.push(('њ', 'а', ' '));
            proof {
                assert(v@ =~= lang_profile(l));
            }
            v
        },
        Lang::Mkd => {
            let mut v: Vec<(char, char, char)> = Vec::new();
            v.push(('н', 'а', ' '));
            v.push((' ', 'н', 'а'));
            v.push(('н', 'е', ' '));
            v.push((' ', 'н', 'е'));
            v.push(('т', 'а', ' '));
            v.push((' ', 'т', 'а'));
            v.push(('т', 'о', ' '));
            v.push((' ', 'т', 'о'));
            v.push(('ј', 'а', ' '));
            v.push((' ', 'ј', 'а'));
            v.push(('и', 'о', 'т'));
            v.push(('о', 'т', ' '));
            proof {
                assert(v@ =~= lang_profile(l));
            }
            v
        },
        Lang::Heb => {
            let mut v: Vec<(char, char, char)> = Vec::new();
            v.push(('י', 'ם', ' '));
            v.push((' ', 'ש', 'ל'));
            v.push(('ש', 'ל', ' '));
            v.push(('י', 'ת', ' '));
            v.push((' ', 'ה', 'מ'));
            v.push((' ', 'ו', 'ה'));
            proof {
                assert(v@ =~= lang_profile(l));
            }
            v
        },
        Lang::Yid => {
            let mut v: Vec<(char, char, char)> = Vec::new();
            v.push(('ע', 'ן', ' '));
            v.push((' ', 'פ', 'ֿ'));
            v.push(('ד', 'י', ' '));
            v.push((' ', 'ד', 'י'));
            v.push(('ע', 'ר', ' '));
            proof {
                assert(v@ =~= lang_profile(l));
            }
            v
        },
        Lang::Cmn => {
            let mut v: Vec<(char, char, char)> = Vec::new();
            v.push((' ', '的', ' '));
            proof {
                assert(v@ =~= lang_profile(l));
            }
            v
        },
        Lang::Jpn => {
            let mut v: Vec<(char, char, char)> = Vec::new();
            v.push((' ', 'の', ' '));
            proof {
                assert(v@ =~= lang_profile(l));
            }
            v
        },
    }
}

/// How many trigrams of `ws`, counted with multiplicity, occur in the
/// profile `p`.
pub open spec fn count_matches(ws: Seq<(char, char, char)>, p: Seq<(char, char, char)>) -> nat
    decreases ws.len(),
{
    if ws.len() == 0 {
        0
    } else {
        count_matches(ws.drop_last(), p) + if p.contains(ws.last()) {
            1nat
        } else {
            0nat
        }
    }
}

pub proof fn lemma_count_matches_le_len(ws: Seq<(char, char, char)>, p: Seq<(char, char, char)>)
    ensures
        count_matches(ws, p) <= ws.len(),
    decreases ws.len(),
{
    if ws.len() > 0 {
        lemma_count_matches_le_len(ws.drop_last(), p);
    }
}

fn profile_contains(p: &Vec<(char, char, char)>, t: (char, char, char)) -> (r: bool)
    ensures
        r == p@.contains(t),
{
    let mut i: usize = 0;
    while i < p.len()
        invariant
            i <= p@.len(),
            forall|k: int| 0 <= k < i ==> p@[k] != t,
        decreases p@.len() - i,
    {
        let e = p[i];
        if e.0 == t.0 && e.1 == t.1 && e.2 == t.2 {
            assert(p@[i as int] == t);
            return true;
        }
        i += 1;
    }
    false
}

/// Counts how many trigrams of `ws` occur in the profile `p`.
pub fn count_profile_matches(ws: &Vec<(char, char, char)>, p: &Vec<(char, char, char)>) -> (r:
    usize)
    ensures
        r as nat == count_matches(ws@, p@),
{
    let mut i: usize = 0;
    let mut c: usize = 0;
    while i < ws.len()
        invariant
            i <= ws@.len(),
            c <= i,
            c as nat == count_matches(ws@.take(i as int), p@),
        decreases ws@.len() - i,
    {
        let hit = profile_contains(p, ws[i]);
        proof {
            assert(ws@.take(i + 1).drop_last() =~= ws@.take(i as int));
            assert(ws@.take(i + 1).last() == ws@[i as int]);
        }
        if hit {
            c += 1;
        }
        i += 1;
    }
    proof {
        assert(ws@.take(ws@.len() as int) =~= ws@);
    }
    c
}

} // verus!
