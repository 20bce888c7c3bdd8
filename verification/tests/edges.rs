//! Error outcomes: words too short for their class's stem rule, the
//! not-implemented grammatical forms, and the stub dictionary lookup.

use katsuyou::searcher::search_word;
use katsuyou::searcher::SearchResult;
use katsuyou::word_entity::ConjugationError;
use katsuyou::word_entity::WordEntity;
use katsuyou::word_entity::WordType;

fn entity(form: &str, class: WordType) -> WordEntity {
    WordEntity {
        dictionary_form: String::from(form),
        translation: String::new(),
        word_type: class,
    }
}

#[test]
fn suru_too_short_is_invalid() {
    let e = entity("す", WordType::VerbSuru);
    assert_eq!(
        e.imperfective_negative_form(),
        Err(ConjugationError::InvalidWordForm)
    );
    assert_eq!(e.perfective_form(), Err(ConjugationError::InvalidWordForm));
    assert_eq!(
        e.perfective_negative_form(),
        Err(ConjugationError::InvalidWordForm)
    );
    assert_eq!(
        e.formal_imperfective_form(),
        Err(ConjugationError::InvalidWordForm)
    );
    assert_eq!(
        e.formal_perfective_negative_form(),
        Err(ConjugationError::InvalidWordForm)
    );
    assert_eq!(
        e.informal_potential_form(),
        Err(ConjugationError::InvalidWordForm)
    );
    assert_eq!(
        e.formal_perfective_potential_negative_form(),
        Err(ConjugationError::InvalidWordForm)
    );
}

#[test]
fn suru_too_short_still_appends_imperfective() {
    // The imperfective accessor never strips する, so even a one-character
    // word succeeds: する is appended because it is absent.
    let e = entity("す", WordType::VerbSuru);
    assert_eq!(e.imperfective_form().unwrap(), "すする");
}

#[test]
fn kuru_too_short_is_invalid() {
    let e = entity("く", WordType::VerbKuru);
    assert_eq!(e.imperfective_form(), Err(ConjugationError::InvalidWordForm));
    assert_eq!(
        e.imperfective_negative_form(),
        Err(ConjugationError::InvalidWordForm)
    );
}

#[test]
fn empty_godan_is_invalid() {
    let e = entity("", WordType::VerbGodanB);
    assert_eq!(
        e.imperfective_negative_form(),
        Err(ConjugationError::InvalidWordForm)
    );
    assert_eq!(e.perfective_form(), Err(ConjugationError::InvalidWordForm));
    assert_eq!(
        e.formal_potential_form(),
        Err(ConjugationError::InvalidWordForm)
    );
}

#[test]
fn aru_irregular_too_short_is_invalid() {
    let e = entity("あ", WordType::VerbGodanRI);
    assert_eq!(e.imperfective_form(), Err(ConjugationError::InvalidWordForm));
    assert_eq!(e.perfective_form(), Err(ConjugationError::InvalidWordForm));
}

#[test]
fn empty_adjective_is_invalid_but_keeps_sentinel() {
    // The stem rule fails on an empty i-adjective, yet the polite and
    // potential accessors never touch the stem: they keep the sentinel.
    let e = entity("", WordType::AdjectiveI);
    assert_eq!(
        e.imperfective_negative_form(),
        Err(ConjugationError::InvalidWordForm)
    );
    assert_eq!(e.formal_imperfective_form().unwrap(), "-");
    assert_eq!(e.informal_potential_form().unwrap(), "-");
}

#[test]
fn imperative_and_volitional_are_not_implemented() {
    let e = entity("食べる", WordType::VerbIchidan);
    assert_eq!(
        e.informal_imperative_form(),
        Err(ConjugationError::NotImplemented)
    );
    assert_eq!(
        e.informal_imperative_negative_form(),
        Err(ConjugationError::NotImplemented)
    );
    assert_eq!(
        e.formal_imperative_form(),
        Err(ConjugationError::NotImplemented)
    );
    assert_eq!(
        e.formal_imperative_negative_form(),
        Err(ConjugationError::NotImplemented)
    );
    assert_eq!(e.volitional_form(), Err(ConjugationError::NotImplemented));
    assert_eq!(
        e.volitional_negative_form(),
        Err(ConjugationError::NotImplemented)
    );
}

#[test]
fn search_finds_nothing() {
    assert!(matches!(search_word("たべる"), SearchResult::NoMatch));
    assert!(matches!(search_word("taberu"), SearchResult::NoMatch));
    assert!(matches!(search_word(""), SearchResult::NoMatch));
}
