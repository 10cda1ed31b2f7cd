//! A rule-based stemmer for Bengali nouns.
//!
//! [`noun_stemmer`] strips case markers, plural markers, classifiers and
//! possessive endings from an inflected noun in one ordered pass, guarded by
//! script-aware checks on what remains of the word.
pub mod classify;
pub mod stemmer;

pub use classify::{is_kar, is_vowel, stem_len};
pub use stemmer::noun_stemmer;
