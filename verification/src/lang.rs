use vstd::prelude::*;

verus! {

/// A natural language that the detector can name.
///
/// Each language belongs to exactly one of the writing systems in
/// [`crate::scripts::Script`]; the per-script candidate lists live in
/// [`crate::scripts`].
#[derive(Clone, Copy, PartialEq, Eq, Structural, Debug)]
pub enum Lang {
    /// English
    Eng,
    /// Spanish
    Spa,
    /// Esperanto
    Epo,
    /// Tagalog
    Tgl,
    /// Dutch
    Nld,
    /// Swedish
    Swe,
    /// Norwegian Bokmal
    Nob,
    /// Uzbek
    Uzb,
    /// Javanese
    Jav,
    /// Cebuano
    Ceb,
    /// Ilocano
    Ilo,
    /// Russian
    Rus,
    /// Ukrainian
    Ukr,
    /// Bulgarian
    Bul,
    /// Belarusian
    Bel,
    /// Serbian
    Srp,
    /// Macedonian
    Mkd,
    /// Hebrew
    Heb,
    /// Yiddish
    Yid,
    /// Mandarin Chinese
    Cmn,
    /// Japanese
    Jpn,
}

} // verus!
