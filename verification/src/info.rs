use vstd::prelude::*;
use crate::confidence::Confidence;
use crate::lang::Lang;
use crate::scripts::Script;

verus! {

/// The result of one detection call: the winning language, the writing
/// system it was found in, and the confidence of the decision.
#[derive(Clone, Copy, PartialEq, Eq, Structural, Debug)]
pub struct Info {
    pub lang: Lang,
    pub script: Script,
    pub confidence: Confidence,
}

impl Info {
    /// The detected language.
    pub fn lang(&self) -> (r: Lang)
        ensures
            r == self.lang,
    {
        self.lang
    }

    /// The detected writing system.
    pub fn script(&self) -> (r: Script)
        ensures
            r == self.script,
    {
        self.script
    }

    /// The confidence of the decision.
    pub fn confidence(&self) -> (r: Confidence)
        ensures
            r == self.confidence,
    {
        self.confidence
    }

    /// Whether the decision is reliable: its confidence exceeds the
    /// `4/5` reliability threshold.
    pub fn is_reliable(&self) -> (r: bool)
        ensures
            r == (5 * self.confidence.spec_num() > 4 * self.confidence.spec_den()),
    {
        self.confidence.exceeds_reliability_threshold()
    }
}

} // verus!
