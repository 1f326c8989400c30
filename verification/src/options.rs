use vstd::prelude::*;
use crate::lang::Lang;

verus! {

/// Which candidate languages a detection call may consider.
#[derive(Clone, Debug)]
pub enum FilterList {
    /// Every candidate of the script is considered.
    All,
    /// Only the listed languages are considered.
    Only(Vec<Lang>),
    /// The listed languages are excluded.
    Except(Vec<Lang>),
}

/// Detection options: an allow-list or deny-list applied to the
/// candidate languages of the detected script before scoring.
#[derive(Clone, Debug)]
pub struct Options {
    pub list: FilterList,
}

/// Whether the options admit the language `l`.
pub open spec fn spec_allowed(list: FilterList, l: Lang) -> bool {
    match list {
        FilterList::All => true,
        FilterList::Only(w) => w@.contains(l),
        FilterList::Except(b) => !b@.contains(l),
    }
}

fn list_contains(v: &Vec<Lang>, l: Lang) -> (r: bool)
    ensures
        r == v@.contains(l),
{
    let mut i: usize = 0;
    while i < v.len()
        invariant
            i <= v@.len(),
            forall|k: int| 0 <= k < i ==> v@[k] != l,
        decreases v@.len() - i,
    {
        if v[i] == l {
            return true;
        }
        i += 1;
    }
    false
}

impl Options {
    /// Options that admit every candidate.
    pub fn new() -> (r: Options)
        ensures
            r.list == FilterList::All,
    {
        Options { list: FilterList::All }
    }

    /// Replaces the filter with an allow-list: only the listed
    /// languages are considered.
    pub fn set_whitelist(self, whitelist: Vec<Lang>) -> (r: Options)
        ensures
            r.list == FilterList::Only(whitelist),
    {
        Options { list: FilterList::Only(whitelist) }
    }

    /// Replaces the filter with a deny-list: the listed languages are
    /// excluded.
    pub fn set_blacklist(self, blacklist: Vec<Lang>) -> (r: Options)
        ensures
            r.list == FilterList::Except(blacklist),
    {
        Options { list: FilterList::Except(blacklist) }
    }

    /// Whether these options admit the language `l`.
    pub fn is_allowed(&self, l: Lang) -> (r: bool)
        ensures
            r == spec_allowed(self.list, l),
    {
        match &self.list {
            FilterList::All => true,
            FilterList::Only(w) => list_contains(w, l),
            FilterList::Except(b) => !list_contains(b, l),
        }
    }
}

impl Default for Options {
    /// Options that admit every candidate.
    fn default() -> (r: Options)
        ensures
            r.list == FilterList::All,
    {
        Options { list: FilterList::All }
    }
}

/// The candidates that the options admit, in order.
pub open spec fn allowed_langs(langs: Seq<Lang>, list: FilterList) -> Seq<Lang> {
    langs.filter(|l: Lang| spec_allowed(list, l))
}

/// Keeps the candidates that the options admit, in order.
pub fn filter_candidates(cands: Vec<Lang>, options: &Options) -> (r: Vec<Lang>)
    ensures
        r@ == allowed_langs(cands@, options.list),
{
    let ghost pred = |l: Lang| spec_allowed(options.list, l);
    let mut r: Vec<Lang> = Vec::new();
    let mut i: usize = 0;
    while i < cands.len()
        invariant
            i <= cands@.len(),
            r@ == cands@.take(i as int).filter(pred),
            pred == (|l: Lang| spec_allowed(options.list, l)),
        decreases cands@.len() - i,
    {
        let l = cands[i];
        proof {
            assert(cands@.take(i + 1).drop_last() =~= cands@.take(i as int));
            assert(cands@.take(i + 1).last() == cands@[i as int]);
            reveal(Seq::filter);
        }
        if options.is_allowed(l) {
            r.push(l);
        }
        i += 1;
    }
    proof {
        assert(cands@.take(cands@.len() as int) =~= cands@);
    }
    r
}

} // verus!
