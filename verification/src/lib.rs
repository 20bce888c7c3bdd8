//! Conjugation engine for Japanese verbs and adjectives.
//!
//! A dictionary form together with its morphological class tag
//! ([`word_entity::WordType`]) determines every inflected surface form:
//! plain and polite, affirmative and negative, present and past, and
//! potential. The engine extracts a per-class stem from the dictionary
//! form and appends per-form suffixes, with a handful of irregular
//! exceptions; some forms are derived from already-composed forms by
//! trimming a fixed trailing character and appending another suffix.
//!
//! All rules operate on counts of Unicode scalar values, never bytes.
//! The mathematical model lives in [`conjugate`] as spec functions over
//! `Seq<char>`; the executable accessors in [`word_entity`] are proved
//! to return exactly the modelled forms. [`laws`] states and proves the
//! structural properties the suffix tables rely on.

pub mod affix;
pub mod conjugate;
pub mod laws;
pub mod searcher;
pub mod word_entity;
