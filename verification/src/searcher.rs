//! The dictionary lookup collaborator.

use vstd::prelude::*;

use crate::word_entity::WordEntity;

verus! {

/// Outcome of a dictionary lookup: no entry found, exactly one, or
/// several candidates.
pub enum SearchResult {
    NoMatch,
    Single(WordEntity),
    Many(Vec<WordEntity>),
}

/// Looks a query up in the word dictionary. No dictionary is wired in,
/// so every query — romaji, kana, or kanji — yields no match.
pub fn search_word(word: &str) -> (r: SearchResult)
    ensures
        r is NoMatch,
{
    SearchResult::NoMatch
}

} // verus!
