use vstd::prelude::*;
use vstd::string::StrSliceExecFns;
use crate::chars::{is_stop_char, spec_is_stop_char, spec_to_lower, to_lower};

verus! {

/// How one character of the input looks after normalization: stop
/// characters become a single space, letters are lower-cased.
pub open spec fn spec_mapped(c: char) -> char {
    if spec_is_stop_char(c) {
        ' '
    } else {
        spec_to_lower(c)
    }
}

/// The normalized form of the first `n` characters of `s`: a leading
/// space, then the mapped characters with runs of spaces collapsed.
pub open spec fn norm_prefix(s: Seq<char>, n: int) -> Seq<char>
    decreases n,
{
    if n <= 0 {
        seq![' ']
    } else {
        let p = norm_prefix(s, n - 1);
        let m = spec_mapped(s[n - 1]);
        if m == ' ' && p.last() == ' ' {
            p
        } else {
            p.push(m)
        }
    }
}

/// The fully normalized text: mapped characters between a leading and a
/// trailing space, with runs of spaces collapsed.
pub open spec fn spec_normalized(s: Seq<char>) -> Seq<char> {
    let p = norm_prefix(s, s.len() as int);
    if p.last() == ' ' {
        p
    } else {
        p.push(' ')
    }
}

pub proof fn lemma_norm_prefix_nonempty(s: Seq<char>, n: int)
    ensures
        norm_prefix(s, n).len() >= 1,
        norm_prefix(s, n).first() == ' ',
    decreases n,
{
    if n > 0 {
        lemma_norm_prefix_nonempty(s, n - 1);
    }
}

/// Normalizes a text for trigram extraction: every stop character
/// becomes a space, letters are lower-cased, runs of spaces collapse to
/// one, and a single space pads each end.
pub fn normalize(text: &str) -> (r: Vec<char>)
    ensures
        r@ == spec_normalized(text@),
{
    let n = text.unicode_len();
    let mut out: Vec<char> = Vec::new();
    out.push(' ');
    let mut i: usize = 0;
    while i < n
        invariant
            i <= n,
            n == text@.len(),
            out@ == norm_prefix(text@, i as int),
        decreases n - i,
    {
        let c = text.get_char(i);
        let m = if is_stop_char(c) {
            ' '
        } else {
            to_lower(c)
        };
        proof {
            lemma_norm_prefix_nonempty(text@, i as int);
        }
        let last = out[out.len() - 1];
        if !(m == ' ' && last == ' ') {
            out.push(m);
        }
        i += 1;
    }
    proof {
        lemma_norm_prefix_nonempty(text@, n as int);
    }
    let last = out[out.len() - 1];
    if last != ' ' {
        out.push(' ');
    }
    out
}

/// A trigram: three consecutive characters of a normalized text.
pub open spec fn spec_windows(s: Seq<char>) -> Seq<(char, char, char)> {
    if s.len() < 3 {
        Seq::empty()
    } else {
        Seq::new((s.len() - 2) as nat, |i: int| (s[i], s[i + 1], s[i + 2]))
    }
}

/// Every trigram of the normalized character sequence, in text order.
pub fn windows(s: &Vec<char>) -> (r: Vec<(char, char, char)>)
    ensures
        r@ == spec_windows(s@),
{
    let mut r: Vec<(char, char, char)> = Vec::new();
    if s.len() < 3 {
        assert(r@ =~= spec_windows(s@));
        return r;
    }
    let count = s.len() - 2;
    let mut i: usize = 0;
    while i < count
        invariant
            i <= count,
            count == s@.len() - 2,
            s@.len() >= 3,
            s@.len() <= usize::MAX,
            r@.len() == i,
            forall|k: int| 0 <= k < i ==> r@[k] == (s@[k], s@[k + 1], s@[k + 2]),
        decreases count - i,
    {
        r.push((s[i], s[i + 1], s[i + 2]));
        i += 1;
    }
    assert(r@ =~= spec_windows(s@));
    r
}

/// A count saturated at `u32::MAX`, the widest signal measure that the
/// confidence arithmetic evaluates exactly in 128 bits.
pub open spec fn cap32(n: nat) -> nat {
    if n > 0xFFFF_FFFF {
        0xFFFF_FFFF as nat
    } else {
        n
    }
}

/// Converts a count to `u32`, saturating at `u32::MAX`.
pub fn cap32_of(n: usize) -> (r: u32)
    ensures
        r as nat == cap32(n as nat),
{
    if n > 0xFFFF_FFFF {
        0xFFFF_FFFF
    } else {
        n as u32
    }
}

} // verus!
