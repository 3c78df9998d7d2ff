//! Memorable, human-readable identifiers made of words: some adjectives, a
//! noun, a verb and perhaps an adverb, drawn at random from fixed lists and
//! joined by a separator, as in `Quick-Fox-Jumps`.

pub mod identifier;
pub mod lexicon;
pub mod options;
pub mod segments;
pub mod select;
pub mod split;
pub mod text;

pub use identifier::{draw, human_id, HumanId};
pub use lexicon::{ADJECTIVES, ADVERBS, NOUNS, VERBS};
pub use options::{Options, OptionsBuilder};
pub use select::{longest, random, shortest, Selector};
pub use text::{capitalize, compose, with_initial};
