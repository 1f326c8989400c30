//! Language identification for short text fragments.
//!
//! The crate decides which natural language a text is most likely written
//! in and attaches an exact, rational confidence value in `[0, 1]` to the
//! decision.  A writing-system classifier first narrows the candidate set;
//! a trigram-presence scorer ranks the candidates; the confidence
//! estimator turns the ranked scores into a single winner, or into
//! absence when the text carries no usable signal.  A separate
//! alphabet-presence scorer handles the closely related Cyrillic
//! languages, whose trigram statistics are often too similar.

pub mod alphabet;
pub mod chars;
pub mod confidence;
pub mod detect;
pub mod info;
pub mod lang;
pub mod options;
pub mod outcome;
pub mod profiles;
pub mod scripts;
pub mod text;
pub mod trigrams;

pub use alphabet::alphabet_calculate_scores;
pub use alphabet::get_lang_chars;
pub use confidence::estimate_confidence;
pub use confidence::Confidence;
pub use detect::detect;
pub use detect::detect_lang;
pub use detect::detect_lang_with_options;
pub use detect::detect_with_options;
pub use info::Info;
pub use lang::Lang;
pub use options::Options;
pub use scripts::Script;
pub use scripts::detect_script;
pub use outcome::Outcome;
pub use outcome::Rational;
