//! Tagged, self-describing values for the structure of a regular expression
//! and for the capture groups of its matches.
pub mod captures;
pub mod decode;
pub mod encode;
pub mod escape;
pub mod hir;
pub mod rregex;
pub mod rregexset;
pub mod tagged;

pub use captures::{Captures, Match, NamedMatch};
pub use escape::escape;
pub use hir::{
    Capture, Class, ClassBytes, ClassBytesRange, ClassUnicode, ClassUnicodeRange, Hir, HirKind,
    Literal, Look, Repetition,
};
pub use rregex::{Error, RRegex};
pub use rregexset::RRegexSet;
pub use tagged::{Field, TaggedValue};
