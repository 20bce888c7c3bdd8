//! The word entity and its conjugation accessors.
//!
//! Each accessor dispatches on the class tag, extracts the class's stem
//! and appends the form's suffix, exactly as modelled in
//! [`crate::conjugate`]. An accessor returns `InvalidWordForm` when the
//! dictionary form is shorter than the ending its class strips, and
//! `NotImplemented` for the grammatical forms the engine does not
//! derive (imperative and volitional).

use vstd::prelude::*;
use vstd::string::StrSliceExecFns;
use vstd::string::StringExecFns;

use crate::affix::ends_with_chars;
use crate::affix::starts_with_chars;
use crate::affix::trim_last;
use crate::affix::trim_last_chars;
use crate::affix::trim_then_append;
use crate::conjugate::formal_imperfective;
use crate::conjugate::formal_imperfective_negative;
use crate::conjugate::formal_perfective;
use crate::conjugate::formal_perfective_negative;
use crate::conjugate::formal_perfective_potential;
use crate::conjugate::formal_perfective_potential_negative;
use crate::conjugate::formal_potential;
use crate::conjugate::formal_potential_negative;
use crate::conjugate::imperfective;
use crate::conjugate::imperfective_defined;
use crate::conjugate::imperfective_negative;
use crate::conjugate::informal_perfective_potential;
use crate::conjugate::informal_perfective_potential_negative;
use crate::conjugate::informal_potential;
use crate::conjugate::informal_potential_negative;
use crate::conjugate::perfective;
use crate::conjugate::perfective_negative;
use crate::conjugate::stem_defined;
use crate::conjugate::verb_stem_defined;
use crate::laws::lemma_formal_ends_in_su;
use crate::laws::lemma_formal_potential_ends_in_su;
use crate::laws::lemma_imperfective_negative_ends_in_i;
use crate::laws::lemma_potential_ends_in_ru;
use crate::laws::lemma_potential_negative_ends_in_i;

verus! {

/// Morphological class of a word, one tag per EDICT-style conjugation
/// pattern. The tag is supplied by the lookup layer; the engine trusts
/// it and never infers a class from the surface text.
#[derive(Clone, Copy, Debug)]
pub enum WordType {
    VerbSuru,
    VerbKuru,
    VerbGodanARU,
    VerbGodanB,
    VerbGodanG,
    VerbGodanK,
    VerbGodanKS,
    VerbGodanM,
    VerbGodanN,
    VerbGodanR,
    VerbGodanRI,
    VerbGodanS,
    VerbGodanT,
    VerbGodanU,
    VerbGodanUS,
    VerbIchidan,
    AdjectiveI,
    AdjectiveNa,
}

/// Why an accessor could not produce a surface form.
#[derive(Clone, Copy, Debug, PartialEq, Eq, Structural)]
pub enum ConjugationError {
    /// The dictionary form is shorter than the ending its class strips.
    InvalidWordForm,
    /// The engine does not derive this grammatical form.
    NotImplemented,
}

/// An immutable word: its dictionary (lemma) form, a gloss for display,
/// and its morphological class. The engine reads `dictionary_form` and
/// `word_type` only; `translation` is collaborator metadata.
#[derive(Debug)]
pub struct WordEntity {
    pub dictionary_form: String,
    pub translation: String,
    pub word_type: WordType,
}

impl WordEntity {
    /// Imperfective (dictionary) form: the word as given, except that
    /// する is re-appended only when absent, くる and the irregular ある
    /// are rebuilt in the spelling family of the input, and a
    /// na-adjective sheds its optional trailing な.
    pub fn imperfective_form(&self) -> (r: Result<String, ConjugationError>)
        ensures
            r is Ok <==> imperfective_defined(self.word_type, self.dictionary_form@),
            r matches Ok(s) ==> s@ == imperfective(self.word_type, self.dictionary_form@),
            r matches Err(e) ==> e == ConjugationError::InvalidWordForm,
    {
        let w = self.dictionary_form.as_str();
        let n = w.unicode_len();
        match self.word_type {
            WordType::VerbSuru => {
                if ends_with_chars(w, "する") {
                    Ok(self.dictionary_form.clone())
                } else {
                    Ok(self.dictionary_form.clone().concat("する"))
                }
            },
            WordType::VerbKuru => {
                if n < 2 {
                    Err(ConjugationError::InvalidWordForm)
                } else {
                    Ok(trim_then_append(w, 2, "くる"))
                }
            },
            WordType::VerbGodanRI => {
                if n < 2 {
                    Err(ConjugationError::InvalidWordForm)
                } else if starts_with_chars(w, "有る") {
                    Ok(trim_then_append(w, 2, "有る"))
                } else {
                    Ok(trim_then_append(w, 2, "ある"))
                }
            },
            WordType::AdjectiveNa => {
                if ends_with_chars(w, "な") {
                    proof {
                        reveal_strlit("な");
                    }
                    Ok(trim_last_chars(w, 1))
                } else {
                    proof {
                        assert(trim_last(w@, 0) =~= w@);
                    }
                    Ok(self.dictionary_form.clone())
                }
            },
            _ => Ok(self.dictionary_form.clone()),
        }
    }

    /// Imperfective negative (ない) form: the stem plus the class's
    /// negative suffix.
    pub fn imperfective_negative_form(&self) -> (r: Result<String, ConjugationError>)
        ensures
            r is Ok <==> stem_defined(self.word_type, self.dictionary_form@),
            r matches Ok(s) ==> s@ == imperfective_negative(
                self.word_type,
                self.dictionary_form@,
            ),
            r matches Err(e) ==> e == ConjugationError::InvalidWordForm,
    {
        let w = self.dictionary_form.as_str();
        let n = w.unicode_len();
        match self.word_type {
            WordType::VerbSuru => {
                if n < 2 {
                    Err(ConjugationError::InvalidWordForm)
                } else {
                    Ok(trim_then_append(w, 2, "しない"))
                }
            },
            WordType::VerbKuru => {
                if n < 2 {
                    Err(ConjugationError::InvalidWordForm)
                } else {
                    Ok(trim_then_append(w, 2, "こない"))
                }
            },
            WordType::VerbGodanARU => {
                if ends_with_chars(w, "しゃる") {
                    proof {
                        reveal_strlit("しゃる");
                    }
                    Ok(trim_then_append(w, 3, "しゃらない"))
                } else if ends_with_chars(w, "さる") {
                    proof {
                        reveal_strlit("さる");
                    }
                    Ok(trim_then_append(w, 2, "さらない"))
                } else if n < 1 {
                    Err(ConjugationError::InvalidWordForm)
                } else {
                    Ok(trim_then_append(w, 1, "さらない"))
                }
            },
            WordType::VerbGodanB => {
                if n < 1 {
                    Err(ConjugationError::InvalidWordForm)
                } else {
                    Ok(trim_then_append(w, 1, "ばない"))
                }
            },
            WordType::VerbGodanG => {
                if n < 1 {
                    Err(ConjugationError::InvalidWordForm)
                } else {
                    Ok(trim_then_append(w, 1, "がない"))
                }
            },
            WordType::VerbGodanK | WordType::VerbGodanKS => {
                if n < 1 {
                    Err(ConjugationError::InvalidWordForm)
                } else {
                    Ok(trim_then_append(w, 1, "かない"))
                }
            },
            WordType::VerbGodanM => {
                if n < 1 {
                    Err(ConjugationError::InvalidWordForm)
                } else {
                    Ok(trim_then_append(w, 1, "まない"))
                }
            },
            WordType::VerbGodanN => {
                if n < 1 {
                    Err(ConjugationError::InvalidWordForm)
                } else {
                    Ok(trim_then_append(w, 1, "なない"))
                }
            },
            WordType::VerbGodanR => {
                if n < 1 {
                    Err(ConjugationError::InvalidWordForm)
                } else {
                    Ok(trim_then_append(w, 1, "らない"))
                }
            },
            WordType::VerbGodanRI => {
                if n < 2 {
                    Err(ConjugationError::InvalidWordForm)
                } else {
                    Ok(trim_then_append(w, 2, "ない"))
                }
            },
            WordType::VerbGodanS => {
                if n < 1 {
                    Err(ConjugationError::InvalidWordForm)
                } else {
                    Ok(trim_then_append(w, 1, "さない"))
                }
            },
            WordType::VerbGodanT => {
                if n < 1 {
                    Err(ConjugationError::InvalidWordForm)
                } else {
                    Ok(trim_then_append(w, 1, "たない"))
                }
            },
            WordType::VerbGodanU | WordType::VerbGodanUS => {
                if n < 1 {
                    Err(ConjugationError::InvalidWordForm)
                } else {
                    Ok(trim_then_append(w, 1, "わない"))
                }
            },
            WordType::VerbIchidan => {
                if n < 1 {
                    Err(ConjugationError::InvalidWordForm)
                } else {
                    Ok(trim_then_append(w, 1, "ない"))
                }
            },
            WordType::AdjectiveI => {
                if n < 1 {
                    Err(ConjugationError::InvalidWordForm)
                } else {
                    let st = trim_last_chars(w, 1);
                    if st == String::from_str("い") {
                        Ok(String::from_str("よ").concat("くない"))
                    } else {
                        Ok(st.concat("くない"))
                    }
                }
            },
            WordType::AdjectiveNa => {
                if ends_with_chars(w, "な") {
                    proof {
                        reveal_strlit("な");
                    }
                    Ok(trim_then_append(w, 1, "じゃない"))
                } else {
                    proof {
                        assert(trim_last(w@, 0) =~= w@);
                    }
                    Ok(self.dictionary_form.clone().concat("じゃない"))
                }
            },
        }
    }

    /// Perfective (past) form: the stem plus the class's past suffix,
    /// with the Godan sound changes; the irregular ある whose stem trims
    /// to nothing returns the fixed literal of its spelling family.
    pub fn perfective_form(&self) -> (r: Result<String, ConjugationError>)
        ensures
            r is Ok <==> stem_defined(self.word_type, self.dictionary_form@),
            r matches Ok(s) ==> s@ == perfective(self.word_type, self.dictionary_form@),
            r matches Err(e) ==> e == ConjugationError::InvalidWordForm,
    {
        let w = self.dictionary_form.as_str();
        let n = w.unicode_len();
        match self.word_type {
            WordType::VerbSuru => {
                if n < 2 {
                    Err(ConjugationError::InvalidWordForm)
                } else {
                    Ok(trim_then_append(w, 2, "した"))
                }
            },
            WordType::VerbKuru => {
                if n < 2 {
                    Err(ConjugationError::InvalidWordForm)
                } else {
                    Ok(trim_then_append(w, 2, "きた"))
                }
            },
            WordType::VerbGodanARU => {
                if ends_with_chars(w, "しゃる") {
                    proof {
                        reveal_strlit("しゃる");
                    }
                    Ok(trim_then_append(w, 3, "しゃった"))
                } else if ends_with_chars(w, "さる") {
                    proof {
                        reveal_strlit("さる");
                    }
                    Ok(trim_then_append(w, 2, "さった"))
                } else if n < 1 {
                    Err(ConjugationError::InvalidWordForm)
                } else {
                    Ok(trim_then_append(w, 1, "った"))
                }
            },
            WordType::VerbGodanB | WordType::VerbGodanM | WordType::VerbGodanN => {
                if n < 1 {
                    Err(ConjugationError::InvalidWordForm)
                } else {
                    Ok(trim_then_append(w, 1, "んだ"))
                }
            },
            WordType::VerbGodanG => {
                if n < 1 {
                    Err(ConjugationError::InvalidWordForm)
                } else {
                    Ok(trim_then_append(w, 1, "いだ"))
                }
            },
            WordType::VerbGodanK => {
                if n < 1 {
                    Err(ConjugationError::InvalidWordForm)
                } else {
                    Ok(trim_then_append(w, 1, "いた"))
                }
            },
            WordType::VerbGodanKS => {
                if n < 1 {
                    Err(ConjugationError::InvalidWordForm)
                } else {
                    Ok(trim_then_append(w, 1, "った"))
                }
            },
            WordType::VerbGodanR | WordType::VerbGodanT | WordType::VerbGodanU => {
                if n < 1 {
                    Err(ConjugationError::InvalidWordForm)
                } else {
                    Ok(trim_then_append(w, 1, "った"))
                }
            },
            WordType::VerbGodanRI => {
                if n < 2 {
                    Err(ConjugationError::InvalidWordForm)
                } else if n == 2 {
                    if starts_with_chars(w, "有る") {
                        Ok(String::from_str("有った"))
                    } else {
                        Ok(String::from_str("あった"))
                    }
                } else {
                    Ok(trim_then_append(w, 2, "った"))
                }
            },
            WordType::VerbGodanS => {
                if n < 1 {
                    Err(ConjugationError::InvalidWordForm)
                } else {
                    Ok(trim_then_append(w, 1, "した"))
                }
            },
            WordType::VerbGodanUS => {
                if n < 1 {
                    Err(ConjugationError::InvalidWordForm)
                } else {
                    Ok(trim_then_append(w, 1, "うた"))
                }
            },
            WordType::VerbIchidan => {
                if n < 1 {
                    Err(ConjugationError::InvalidWordForm)
                } else {
                    Ok(trim_then_append(w, 1, "た"))
                }
            },
            WordType::AdjectiveI => {
                if n < 1 {
                    Err(ConjugationError::InvalidWordForm)
                } else {
                    let st = trim_last_chars(w, 1);
                    if st == String::from_str("い") {
                        Ok(String::from_str("よ").concat("かった"))
                    } else {
                        Ok(st.concat("かった"))
                    }
                }
            },
            WordType::AdjectiveNa => {
                if ends_with_chars(w, "な") {
                    proof {
                        reveal_strlit("な");
                    }
                    Ok(trim_then_append(w, 1, "だった"))
                } else {
                    proof {
                        assert(trim_last(w@, 0) =~= w@);
                    }
                    Ok(self.dictionary_form.clone().concat("だった"))
                }
            },
        }
    }

    /// Perfective negative form, derived: the imperfective negative
    /// with its trailing い replaced by かった.
    pub fn perfective_negative_form(&self) -> (r: Result<String, ConjugationError>)
        ensures
            r is Ok <==> stem_defined(self.word_type, self.dictionary_form@),
            r matches Ok(s) ==> s@ == perfective_negative(self.word_type, self.dictionary_form@),
            r matches Err(e) ==> e == ConjugationError::InvalidWordForm,
    {
        match self.imperfective_negative_form() {
            Err(e) => Err(e),
            Ok(neg) => {
                proof {
                    lemma_imperfective_negative_ends_in_i(self.word_type, self.dictionary_form@);
                }
                Ok(trim_then_append(neg.as_str(), 1, "かった"))
            },
        }
    }

    /// Formal (polite) imperfective form: the stem plus the class's
    /// ます-suffix; the irregular ある whose stem trims to nothing is
    /// rebuilt from its bare stem character; adjectives answer with the
    /// `-` sentinel.
    pub fn formal_imperfective_form(&self) -> (r: Result<String, ConjugationError>)
        ensures
            r is Ok <==> verb_stem_defined(self.word_type, self.dictionary_form@),
            r matches Ok(s) ==> s@ == formal_imperfective(self.word_type, self.dictionary_form@),
            r matches Err(e) ==> e == ConjugationError::InvalidWordForm,
    {
        let w = self.dictionary_form.as_str();
        let n = w.unicode_len();
        match self.word_type {
            WordType::VerbSuru => {
                if n < 2 {
                    Err(ConjugationError::InvalidWordForm)
                } else {
                    Ok(trim_then_append(w, 2, "します"))
                }
            },
            WordType::VerbKuru => {
                if n < 2 {
                    Err(ConjugationError::InvalidWordForm)
                } else {
                    Ok(trim_then_append(w, 2, "きます"))
                }
            },
            WordType::VerbGodanARU => {
                if ends_with_chars(w, "しゃる") {
                    proof {
                        reveal_strlit("しゃる");
                    }
                    Ok(trim_then_append(w, 3, "しゃいます"))
                } else if ends_with_chars(w, "さる") {
                    proof {
                        reveal_strlit("さる");
                    }
                    Ok(trim_then_append(w, 2, "さいます"))
                } else if n < 1 {
                    Err(ConjugationError::InvalidWordForm)
                } else {
                    Ok(trim_then_append(w, 1, "さいます"))
                }
            },
            WordType::VerbGodanB => {
                if n < 1 {
                    Err(ConjugationError::InvalidWordForm)
                } else {
                    Ok(trim_then_append(w, 1, "びます"))
                }
            },
            WordType::VerbGodanG => {
                if n < 1 {
                    Err(ConjugationError::InvalidWordForm)
                } else {
                    Ok(trim_then_append(w, 1, "ぎます"))
                }
            },
            WordType::VerbGodanK | WordType::VerbGodanKS => {
                if n < 1 {
                    Err(ConjugationError::InvalidWordForm)
                } else {
                    Ok(trim_then_append(w, 1, "きます"))
                }
            },
            WordType::VerbGodanM => {
                if n < 1 {
                    Err(ConjugationError::InvalidWordForm)
                } else {
                    Ok(trim_then_append(w, 1, "みます"))
                }
            },
            WordType::VerbGodanN => {
                if n < 1 {
                    Err(ConjugationError::InvalidWordForm)
                } else {
                    Ok(trim_then_append(w, 1, "にます"))
                }
            },
            WordType::VerbGodanR => {
                if n < 1 {
                    Err(ConjugationError::InvalidWordForm)
                } else {
                    Ok(trim_then_append(w, 1, "ります"))
                }
            },
            WordType::VerbGodanRI => {
                if n < 2 {
                    Err(ConjugationError::InvalidWordForm)
                } else if n == 2 {
                    if starts_with_chars(w, "有る") {
                        Ok(String::from_str("有").concat("ります"))
                    } else {
                        Ok(String::from_str("あ").concat("ります"))
                    }
                } else {
                    Ok(trim_then_append(w, 2, "ります"))
                }
            },
            WordType::VerbGodanS => {
                if n < 1 {
                    Err(ConjugationError::InvalidWordForm)
                } else {
                    Ok(trim_then_append(w, 1, "します"))
                }
            },
            WordType::VerbGodanT => {
                if n < 1 {
                    Err(ConjugationError::InvalidWordForm)
                } else {
                    Ok(trim_then_append(w, 1, "ちます"))
                }
            },
            WordType::VerbGodanU | WordType::VerbGodanUS => {
                if n < 1 {
                    Err(ConjugationError::InvalidWordForm)
                } else {
                    Ok(trim_then_append(w, 1, "います"))
                }
            },
            WordType::VerbIchidan => {
                if n < 1 {
                    Err(ConjugationError::InvalidWordForm)
                } else {
                    Ok(trim_then_append(w, 1, "ます"))
                }
            },
            WordType::AdjectiveI | WordType::AdjectiveNa => Ok(String::from_str("-")),
        }
    }

    /// Formal imperfective negative form, derived: the formal
    /// imperfective with its trailing す replaced by せん; the `-`
    /// sentinel for adjectives.
    pub fn formal_imperfective_negative_form(&self) -> (r: Result<String, ConjugationError>)
        ensures
            r is Ok <==> verb_stem_defined(self.word_type, self.dictionary_form@),
            r matches Ok(s) ==> s@ == formal_imperfective_negative(
                self.word_type,
                self.dictionary_form@,
            ),
            r matches Err(e) ==> e == ConjugationError::InvalidWordForm,
    {
        match self.word_type {
            WordType::AdjectiveI | WordType::AdjectiveNa => Ok(String::from_str("-")),
            _ => match self.formal_imperfective_form() {
                Err(e) => Err(e),
                Ok(f) => {
                    proof {
                        lemma_formal_ends_in_su(self.word_type, self.dictionary_form@);
                    }
                    Ok(trim_then_append(f.as_str(), 1, "せん"))
                },
            },
        }
    }

    /// Formal perfective form, derived: the formal imperfective with
    /// its trailing す replaced by した; the `-` sentinel for
    /// adjectives.
    pub fn formal_perfective_form(&self) -> (r: Result<String, ConjugationError>)
        ensures
            r is Ok <==> verb_stem_defined(self.word_type, self.dictionary_form@),
            r matches Ok(s) ==> s@ == formal_perfective(self.word_type, self.dictionary_form@),
            r matches Err(e) ==> e == ConjugationError::InvalidWordForm,
    {
        match self.word_type {
            WordType::AdjectiveI | WordType::AdjectiveNa => Ok(String::from_str("-")),
            _ => match self.formal_imperfective_form() {
                Err(e) => Err(e),
                Ok(f) => {
                    proof {
                        lemma_formal_ends_in_su(self.word_type, self.dictionary_form@);
                    }
                    Ok(trim_then_append(f.as_str(), 1, "した"))
                },
            },
        }
    }

    /// Formal perfective negative form, derived: the formal
    /// imperfective with its trailing す replaced by せんでした; the `-`
    /// sentinel for adjectives.
    pub fn formal_perfective_negative_form(&self) -> (r: Result<String, ConjugationError>)
        ensures
            r is Ok <==> verb_stem_defined(self.word_type, self.dictionary_form@),
            r matches Ok(s) ==> s@ == formal_perfective_negative(
                self.word_type,
                self.dictionary_form@,
            ),
            r matches Err(e) ==> e == ConjugationError::InvalidWordForm,
    {
        match self.word_type {
            WordType::AdjectiveI | WordType::AdjectiveNa => Ok(String::from_str("-")),
            _ => match self.formal_imperfective_form() {
                Err(e) => Err(e),
                Ok(f) => {
                    proof {
                        lemma_formal_ends_in_su(self.word_type, self.dictionary_form@);
                    }
                    Ok(trim_then_append(f.as_str(), 1, "せん").concat("でした"))
                },
            },
        }
    }

    /// Informal potential form: the stem plus the class's potential
    /// suffix; する turns into できる; the irregular ある whose stem
    /// trims to nothing is rebuilt from its bare stem character;
    /// adjectives answer with the `-` sentinel.
    pub fn informal_potential_form(&self) -> (r: Result<String, ConjugationError>)
        ensures
            r is Ok <==> verb_stem_defined(self.word_type, self.dictionary_form@),
            r matches Ok(s) ==> s@ == informal_potential(self.word_type, self.dictionary_form@),
            r matches Err(e) ==> e == ConjugationError::InvalidWordForm,
    {
        let w = self.dictionary_form.as_str();
        let n = w.unicode_len();
        match self.word_type {
            WordType::VerbSuru => {
                if n < 2 {
                    Err(ConjugationError::InvalidWordForm)
                } else {
                    Ok(trim_then_append(w, 2, "できる"))
                }
            },
            WordType::VerbKuru => {
                if n < 2 {
                    Err(ConjugationError::InvalidWordForm)
                } else {
                    Ok(trim_then_append(w, 2, "こられる"))
                }
            },
            WordType::VerbGodanARU => {
                if ends_with_chars(w, "しゃる") {
                    proof {
                        reveal_strlit("しゃる");
                    }
                    Ok(trim_then_append(w, 3, "しゃれる"))
                } else if ends_with_chars(w, "さる") {
                    proof {
                        reveal_strlit("さる");
                    }
                    Ok(trim_then_append(w, 2, "される"))
                } else if n < 1 {
                    Err(ConjugationError::InvalidWordForm)
                } else {
                    Ok(trim_then_append(w, 1, "される"))
                }
            },
            WordType::VerbGodanB => {
                if n < 1 {
                    Err(ConjugationError::InvalidWordForm)
                } else {
                    Ok(trim_then_append(w, 1, "べる"))
                }
            },
            WordType::VerbGodanG => {
                if n < 1 {
                    Err(ConjugationError::InvalidWordForm)
                } else {
                    Ok(trim_then_append(w, 1, "げる"))
                }
            },
            WordType::VerbGodanK | WordType::VerbGodanKS => {
                if n < 1 {
                    Err(ConjugationError::InvalidWordForm)
                } else {
                    Ok(trim_then_append(w, 1, "ける"))
                }
            },
            WordType::VerbGodanM => {
                if n < 1 {
                    Err(ConjugationError::InvalidWordForm)
                } else {
                    Ok(trim_then_append(w, 1, "める"))
                }
            },
            WordType::VerbGodanN => {
                if n < 1 {
                    Err(ConjugationError::InvalidWordForm)
                } else {
                    Ok(trim_then_append(w, 1, "ねる"))
                }
            },
            WordType::VerbGodanR => {
                if n < 1 {
                    Err(ConjugationError::InvalidWordForm)
                } else {
                    Ok(trim_then_append(w, 1, "れる"))
                }
            },
            WordType::VerbGodanRI => {
                if n < 2 {
                    Err(ConjugationError::InvalidWordForm)
                } else if n == 2 {
                    if starts_with_chars(w, "有る") {
                        Ok(String::from_str("有").concat("れる"))
                    } else {
                        Ok(String::from_str("あ").concat("れる"))
                    }
                } else {
                    Ok(trim_then_append(w, 2, "れる"))
                }
            },
            WordType::VerbGodanS => {
                if n < 1 {
                    Err(ConjugationError::InvalidWordForm)
                } else {
                    Ok(trim_then_append(w, 1, "せる"))
                }
            },
            WordType::VerbGodanT => {
                if n < 1 {
                    Err(ConjugationError::InvalidWordForm)
                } else {
                    Ok(trim_then_append(w, 1, "てる"))
                }
            },
            WordType::VerbGodanU | WordType::VerbGodanUS => {
                if n < 1 {
                    Err(ConjugationError::InvalidWordForm)
                } else {
                    Ok(trim_then_append(w, 1, "える"))
                }
            },
            WordType::VerbIchidan => {
                if n < 1 {
                    Err(ConjugationError::InvalidWordForm)
                } else {
                    Ok(trim_then_append(w, 1, "られる"))
                }
            },
            WordType::AdjectiveI | WordType::AdjectiveNa => Ok(String::from_str("-")),
        }
    }

    /// Informal potential negative form, derived: the potential with
    /// its trailing る replaced by ない; the `-` sentinel for
    /// adjectives.
    pub fn informal_potential_negative_form(&self) -> (r: Result<String, ConjugationError>)
        ensures
            r is Ok <==> verb_stem_defined(self.word_type, self.dictionary_form@),
            r matches Ok(s) ==> s@ == informal_potential_negative(
                self.word_type,
                self.dictionary_form@,
            ),
            r matches Err(e) ==> e == ConjugationError::InvalidWordForm,
    {
        match self.word_type {
            WordType::AdjectiveI | WordType::AdjectiveNa => Ok(String::from_str("-")),
            _ => match self.informal_potential_form() {
                Err(e) => Err(e),
                Ok(p) => {
                    proof {
                        lemma_potential_ends_in_ru(self.word_type, self.dictionary_form@);
                    }
                    Ok(trim_then_append(p.as_str(), 1, "ない"))
                },
            },
        }
    }

    /// Informal perfective potential form, derived: the potential with
    /// its trailing る replaced by た; the `-` sentinel for adjectives.
    pub fn informal_perfective_potential_form(&self) -> (r: Result<String, ConjugationError>)
        ensures
            r is Ok <==> verb_stem_defined(self.word_type, self.dictionary_form@),
            r matches Ok(s) ==> s@ == informal_perfective_potential(
                self.word_type,
                self.dictionary_form@,
            ),
            r matches Err(e) ==> e == ConjugationError::InvalidWordForm,
    {
        match self.word_type {
            WordType::AdjectiveI | WordType::AdjectiveNa => Ok(String::from_str("-")),
            _ => match self.informal_potential_form() {
                Err(e) => Err(e),
                Ok(p) => {
                    proof {
                        lemma_potential_ends_in_ru(self.word_type, self.dictionary_form@);
                    }
                    Ok(trim_then_append(p.as_str(), 1, "た"))
                },
            },
        }
    }

    /// Informal perfective potential negative form, derived: the
    /// potential negative with its trailing い replaced by かった; the
    /// `-` sentinel for adjectives.
    pub fn informal_perfective_potential_negative_form(&self) -> (r: Result<
        String,
        ConjugationError,
    >)
        ensures
            r is Ok <==> verb_stem_defined(self.word_type, self.dictionary_form@),
            r matches Ok(s) ==> s@ == informal_perfective_potential_negative(
                self.word_type,
                self.dictionary_form@,
            ),
            r matches Err(e) ==> e == ConjugationError::InvalidWordForm,
    {
        match self.word_type {
            WordType::AdjectiveI | WordType::AdjectiveNa => Ok(String::from_str("-")),
            _ => match self.informal_potential_negative_form() {
                Err(e) => Err(e),
                Ok(p) => {
                    proof {
                        lemma_potential_negative_ends_in_i(self.word_type, self.dictionary_form@);
                    }
                    Ok(trim_then_append(p.as_str(), 1, "かった"))
                },
            },
        }
    }

    /// Formal potential form, derived: the potential with its trailing
    /// る replaced by ます; the `-` sentinel for adjectives.
    pub fn formal_potential_form(&self) -> (r: Result<String, ConjugationError>)
        ensures
            r is Ok <==> verb_stem_defined(self.word_type, self.dictionary_form@),
            r matches Ok(s) ==> s@ == formal_potential(self.word_type, self.dictionary_form@),
            r matches Err(e) ==> e == ConjugationError::InvalidWordForm,
    {
        match self.word_type {
            WordType::AdjectiveI | WordType::AdjectiveNa => Ok(String::from_str("-")),
            _ => match self.informal_potential_form() {
                Err(e) => Err(e),
                Ok(p) => {
                    proof {
                        lemma_potential_ends_in_ru(self.word_type, self.dictionary_form@);
                    }
                    Ok(trim_then_append(p.as_str(), 1, "ます"))
                },
            },
        }
    }

    /// Formal potential negative form, derived: the formal potential
    /// with its trailing す replaced by せん; the `-` sentinel for
    /// adjectives.
    pub fn formal_potential_negative_form(&self) -> (r: Result<String, ConjugationError>)
        ensures
            r is Ok <==> verb_stem_defined(self.word_type, self.dictionary_form@),
            r matches Ok(s) ==> s@ == formal_potential_negative(
                self.word_type,
                self.dictionary_form@,
            ),
            r matches Err(e) ==> e == ConjugationError::InvalidWordForm,
    {
        match self.word_type {
            WordType::AdjectiveI | WordType::AdjectiveNa => Ok(String::from_str("-")),
            _ => match self.formal_potential_form() {
                Err(e) => Err(e),
                Ok(p) => {
                    proof {
                        lemma_formal_potential_ends_in_su(self.word_type, self.dictionary_form@);
                    }
                    Ok(trim_then_append(p.as_str(), 1, "せん"))
                },
            },
        }
    }

    /// Formal perfective potential form, derived: the formal potential
    /// with its trailing す replaced by した; the `-` sentinel for
    /// adjectives.
    pub fn formal_perfective_potential_form(&self) -> (r: Result<String, ConjugationError>)
        ensures
            r is Ok <==> verb_stem_defined(self.word_type, self.dictionary_form@),
            r matches Ok(s) ==> s@ == formal_perfective_potential(
                self.word_type,
                self.dictionary_form@,
            ),
            r matches Err(e) ==> e == ConjugationError::InvalidWordForm,
    {
        match self.word_type {
            WordType::AdjectiveI | WordType::AdjectiveNa => Ok(String::from_str("-")),
            _ => match self.formal_potential_form() {
                Err(e) => Err(e),
                Ok(p) => {
                    proof {
                        lemma_formal_potential_ends_in_su(self.word_type, self.dictionary_form@);
                    }
                    Ok(trim_then_append(p.as_str(), 1, "した"))
                },
            },
        }
    }

    /// Formal perfective potential negative form, derived: the formal
    /// potential with its trailing す replaced by せんでした; the `-`
    /// sentinel for adjectives.
    pub fn formal_perfective_potential_negative_form(&self) -> (r: Result<
        String,
        ConjugationError,
    >)
        ensures
            r is Ok <==> verb_stem_defined(self.word_type, self.dictionary_form@),
            r matches Ok(s) ==> s@ == formal_perfective_potential_negative(
                self.word_type,
                self.dictionary_form@,
            ),
            r matches Err(e) ==> e == ConjugationError::InvalidWordForm,
    {
        match self.word_type {
            WordType::AdjectiveI | WordType::AdjectiveNa => Ok(String::from_str("-")),
            _ => match self.formal_potential_form() {
                Err(e) => Err(e),
                Ok(p) => {
                    proof {
                        lemma_formal_potential_ends_in_su(self.word_type, self.dictionary_form@);
                    }
                    Ok(trim_then_append(p.as_str(), 1, "せん").concat("でした"))
                },
            },
        }
    }

    /// Informal imperative form: the engine does not derive imperative
    /// forms.
    pub fn informal_imperative_form(&self) -> (r: Result<String, ConjugationError>)
        ensures
            r == Err::<String, ConjugationError>(ConjugationError::NotImplemented),
    {
        Err(ConjugationError::NotImplemented)
    }

    /// Informal imperative negative form: the engine does not derive
    /// imperative forms.
    pub fn informal_imperative_negative_form(&self) -> (r: Result<String, ConjugationError>)
        ensures
            r == Err::<String, ConjugationError>(ConjugationError::NotImplemented),
    {
        Err(ConjugationError::NotImplemented)
    }

    /// Formal imperative form: the engine does not derive imperative
    /// forms.
    pub fn formal_imperative_form(&self) -> (r: Result<String, ConjugationError>)
        ensures
            r == Err::<String, ConjugationError>(ConjugationError::NotImplemented),
    {
        Err(ConjugationError::NotImplemented)
    }

    /// Formal imperative negative form: the engine does not derive
    /// imperative forms.
    pub fn formal_imperative_negative_form(&self) -> (r: Result<String, ConjugationError>)
        ensures
            r == Err::<String, ConjugationError>(ConjugationError::NotImplemented),
    {
        Err(ConjugationError::NotImplemented)
    }

    /// Volitional form: the engine does not derive volitional forms.
    pub fn volitional_form(&self) -> (r: Result<String, ConjugationError>)
        ensures
            r == Err::<String, ConjugationError>(ConjugationError::NotImplemented),
    {
        Err(ConjugationError::NotImplemented)
    }

    /// Volitional negative form: the engine does not derive volitional
    /// forms.
    pub fn volitional_negative_form(&self) -> (r: Result<String, ConjugationError>)
        ensures
            r == Err::<String, ConjugationError>(ConjugationError::NotImplemented),
    {
        Err(ConjugationError::NotImplemented)
    }
}

} // verus!
