//! The mathematical model of the conjugation rules.
//!
//! Every grammatical form is specified here as a function over the
//! class tag and the dictionary form's characters. A primary form is a
//! per-class stem plus a per-class literal suffix; a derived form trims
//! a fixed trailing character off an already-composed form and appends
//! a further suffix. The executable accessors in [`crate::word_entity`]
//! are proved to return exactly these sequences.

use vstd::prelude::*;

use crate::affix::ends_with;
use crate::affix::starts_with;
use crate::affix::trim_last;
use crate::word_entity::WordType;

verus! {

/// Adjective classes lack polite and potential categories entirely;
/// those accessors answer with the `-` sentinel instead of a form.
pub open spec fn is_adjective(c: WordType) -> bool {
    match c {
        WordType::AdjectiveI | WordType::AdjectiveNa => true,
        _ => false,
    }
}

/// How many trailing characters the class's stem rule strips from the
/// dictionary form. Where a class accepts several candidate endings,
/// they are tried longest first and the first match decides.
pub open spec fn stem_trim_len(c: WordType, w: Seq<char>) -> int {
    match c {
        WordType::VerbSuru => 2,
        WordType::VerbKuru => 2,
        WordType::VerbGodanARU => if ends_with(w, "しゃる"@) {
            3
        } else if ends_with(w, "さる"@) {
            2
        } else {
            1
        },
        WordType::VerbGodanRI => 2,
        WordType::AdjectiveNa => if ends_with(w, "な"@) {
            1
        } else {
            0
        },
        _ => 1,
    }
}

/// The stem rule is defined only when the word carries at least as many
/// characters as its class strips; on shorter words every accessor that
/// needs the stem reports `InvalidWordForm`.
pub open spec fn stem_defined(c: WordType, w: Seq<char>) -> bool {
    stem_trim_len(c, w) <= w.len()
}

/// The stem: the dictionary form with its class-characteristic ending
/// removed. The good-adjective irregularity substitutes the historical
/// stem よ when trimming い leaves exactly い (the word was いい).
pub open spec fn stem_of(c: WordType, w: Seq<char>) -> Seq<char> {
    match c {
        WordType::AdjectiveI => if trim_last(w, 1) == "い"@ {
            "よ"@
        } else {
            trim_last(w, 1)
        },
        _ => trim_last(w, stem_trim_len(c, w)),
    }
}

/// Whether the irregular existence verb ある was supplied in its kanji
/// spelling; forms that echo the spelling family depend on it.
pub open spec fn kanji_spelled_aru(w: Seq<char>) -> bool {
    starts_with(w, "有る"@)
}

/// The imperfective accessor extracts a stem only for the classes that
/// rebuild the dictionary form; the others return the word as given.
pub open spec fn imperfective_defined(c: WordType, w: Seq<char>) -> bool {
    match c {
        WordType::VerbKuru | WordType::VerbGodanRI => 2 <= w.len(),
        _ => true,
    }
}

/// Polite and potential accessors succeed on every adjective (with the
/// sentinel) and on every verb whose stem rule is defined.
pub open spec fn verb_stem_defined(c: WordType, w: Seq<char>) -> bool {
    is_adjective(c) || stem_defined(c, w)
}

/// Imperfective (dictionary) form: identity for most classes; する is
/// re-appended only if absent; くる and the irregular ある rebuild from
/// the stem; a na-adjective sheds its optional trailing な.
pub open spec fn imperfective(c: WordType, w: Seq<char>) -> Seq<char> {
    match c {
        WordType::VerbSuru => if ends_with(w, "する"@) {
            w
        } else {
            w + "する"@
        },
        WordType::VerbKuru => stem_of(c, w) + "くる"@,
        WordType::VerbGodanRI => stem_of(c, w) + if kanji_spelled_aru(w) {
            "有る"@
        } else {
            "ある"@
        },
        WordType::AdjectiveNa => stem_of(c, w),
        _ => w,
    }
}

/// The per-class suffix of the imperfective negative form. Every entry
/// ends in い, which the derivation of the perfective negative relies
/// on; see [`crate::laws::lemma_imperfective_negative_ends_in_i`].
pub open spec fn negative_suffix(c: WordType, w: Seq<char>) -> Seq<char> {
    match c {
        WordType::VerbSuru => "しない"@,
        WordType::VerbKuru => "こない"@,
        WordType::VerbGodanARU => if ends_with(w, "しゃる"@) {
            "しゃらない"@
        } else {
            "さらない"@
        },
        WordType::VerbGodanB => "ばない"@,
        WordType::VerbGodanG => "がない"@,
        WordType::VerbGodanK | WordType::VerbGodanKS => "かない"@,
        WordType::VerbGodanM => "まない"@,
        WordType::VerbGodanN => "なない"@,
        WordType::VerbGodanR => "らない"@,
        WordType::VerbGodanRI => "ない"@,
        WordType::VerbGodanS => "さない"@,
        WordType::VerbGodanT => "たない"@,
        WordType::VerbGodanU | WordType::VerbGodanUS => "わない"@,
        WordType::VerbIchidan => "ない"@,
        WordType::AdjectiveI => "くない"@,
        WordType::AdjectiveNa => "じゃない"@,
    }
}

/// Imperfective negative form: stem plus the class's negative suffix.
pub open spec fn imperfective_negative(c: WordType, w: Seq<char>) -> Seq<char> {
    stem_of(c, w) + negative_suffix(c, w)
}

/// Perfective (past) form: stem plus suffix, with the Godan sound
/// changes; the irregular ある with an empty stem yields the fixed
/// literal of its spelling family instead of suffixing nothing.
pub open spec fn perfective(c: WordType, w: Seq<char>) -> Seq<char> {
    match c {
        WordType::VerbSuru => stem_of(c, w) + "した"@,
        WordType::VerbKuru => stem_of(c, w) + "きた"@,
        WordType::VerbGodanARU => stem_of(c, w) + if ends_with(w, "しゃる"@) {
            "しゃった"@
        } else if ends_with(w, "さる"@) {
            "さった"@
        } else {
            "った"@
        },
        WordType::VerbGodanB | WordType::VerbGodanM | WordType::VerbGodanN => stem_of(c, w)
            + "んだ"@,
        WordType::VerbGodanG => stem_of(c, w) + "いだ"@,
        WordType::VerbGodanK => stem_of(c, w) + "いた"@,
        WordType::VerbGodanKS => stem_of(c, w) + "った"@,
        WordType::VerbGodanR | WordType::VerbGodanT | WordType::VerbGodanU => stem_of(c, w)
            + "った"@,
        WordType::VerbGodanRI => if stem_of(c, w).len() == 0 {
            if kanji_spelled_aru(w) {
                "有った"@
            } else {
                "あった"@
            }
        } else {
            stem_of(c, w) + "った"@
        },
        WordType::VerbGodanS => stem_of(c, w) + "した"@,
        WordType::VerbGodanUS => stem_of(c, w) + "うた"@,
        WordType::VerbIchidan => stem_of(c, w) + "た"@,
        WordType::AdjectiveI => stem_of(c, w) + "かった"@,
        WordType::AdjectiveNa => stem_of(c, w) + "だった"@,
    }
}

/// Perfective negative form, derived: the imperfective negative with
/// its trailing い replaced by かった.
pub open spec fn perfective_negative(c: WordType, w: Seq<char>) -> Seq<char> {
    trim_last(imperfective_negative(c, w), 1) + "かった"@
}

/// Formal (polite) imperfective form: stem plus a suffix ending in ます.
/// The irregular ある with an empty stem rebuilds from its bare stem
/// character; adjectives answer with the sentinel.
pub open spec fn formal_imperfective(c: WordType, w: Seq<char>) -> Seq<char> {
    match c {
        WordType::VerbSuru => stem_of(c, w) + "します"@,
        WordType::VerbKuru => stem_of(c, w) + "きます"@,
        WordType::VerbGodanARU => stem_of(c, w) + if ends_with(w, "しゃる"@) {
            "しゃいます"@
        } else {
            "さいます"@
        },
        WordType::VerbGodanB => stem_of(c, w) + "びます"@,
        WordType::VerbGodanG => stem_of(c, w) + "ぎます"@,
        WordType::VerbGodanK | WordType::VerbGodanKS => stem_of(c, w) + "きます"@,
        WordType::VerbGodanM => stem_of(c, w) + "みます"@,
        WordType::VerbGodanN => stem_of(c, w) + "にます"@,
        WordType::VerbGodanR => stem_of(c, w) + "ります"@,
        WordType::VerbGodanRI => if stem_of(c, w).len() == 0 {
            (if kanji_spelled_aru(w) {
                "有"@
            } else {
                "あ"@
            }) + "ります"@
        } else {
            stem_of(c, w) + "ります"@
        },
        WordType::VerbGodanS => stem_of(c, w) + "します"@,
        WordType::VerbGodanT => stem_of(c, w) + "ちます"@,
        WordType::VerbGodanU | WordType::VerbGodanUS => stem_of(c, w) + "います"@,
        WordType::VerbIchidan => stem_of(c, w) + "ます"@,
        WordType::AdjectiveI | WordType::AdjectiveNa => "-"@,
    }
}

/// Formal imperfective negative form, derived: the formal imperfective
/// with its trailing す replaced by せん.
pub open spec fn formal_imperfective_negative(c: WordType, w: Seq<char>) -> Seq<char> {
    if is_adjective(c) {
        "-"@
    } else {
        trim_last(formal_imperfective(c, w), 1) + "せん"@
    }
}

/// Formal perfective form, derived: the formal imperfective with its
/// trailing す replaced by した.
pub open spec fn formal_perfective(c: WordType, w: Seq<char>) -> Seq<char> {
    if is_adjective(c) {
        "-"@
    } else {
        trim_last(formal_imperfective(c, w), 1) + "した"@
    }
}

/// Formal perfective negative form, derived: the formal imperfective
/// with its trailing す replaced by せんでした.
pub open spec fn formal_perfective_negative(c: WordType, w: Seq<char>) -> Seq<char> {
    if is_adjective(c) {
        "-"@
    } else {
        trim_last(formal_imperfective(c, w), 1) + "せん"@ + "でした"@
    }
}

/// Informal potential form: stem plus a suffix ending in る; する turns
/// into できる, and the irregular ある with an empty stem rebuilds from
/// its bare stem character.
pub open spec fn informal_potential(c: WordType, w: Seq<char>) -> Seq<char> {
    match c {
        WordType::VerbSuru => stem_of(c, w) + "できる"@,
        WordType::VerbKuru => stem_of(c, w) + "こられる"@,
        WordType::VerbGodanARU => stem_of(c, w) + if ends_with(w, "しゃる"@) {
            "しゃれる"@
        } else {
            "される"@
        },
        WordType::VerbGodanB => stem_of(c, w) + "べる"@,
        WordType::VerbGodanG => stem_of(c, w) + "げる"@,
        WordType::VerbGodanK | WordType::VerbGodanKS => stem_of(c, w) + "ける"@,
        WordType::VerbGodanM => stem_of(c, w) + "める"@,
        WordType::VerbGodanN => stem_of(c, w) + "ねる"@,
        WordType::VerbGodanR => stem_of(c, w) + "れる"@,
        WordType::VerbGodanRI => if stem_of(c, w).len() == 0 {
            (if kanji_spelled_aru(w) {
                "有"@
            } else {
                "あ"@
            }) + "れる"@
        } else {
            stem_of(c, w) + "れる"@
        },
        WordType::VerbGodanS => stem_of(c, w) + "せる"@,
        WordType::VerbGodanT => stem_of(c, w) + "てる"@,
        WordType::VerbGodanU | WordType::VerbGodanUS => stem_of(c, w) + "える"@,
        WordType::VerbIchidan => trim_last(w, 1) + "られる"@,
        WordType::AdjectiveI | WordType::AdjectiveNa => "-"@,
    }
}

/// Informal potential negative form, derived: the potential with its
/// trailing る replaced by ない.
pub open spec fn informal_potential_negative(c: WordType, w: Seq<char>) -> Seq<char> {
    if is_adjective(c) {
        "-"@
    } else {
        trim_last(informal_potential(c, w), 1) + "ない"@
    }
}

/// Informal perfective potential form, derived: the potential with its
/// trailing る replaced by た.
pub open spec fn informal_perfective_potential(c: WordType, w: Seq<char>) -> Seq<char> {
    if is_adjective(c) {
        "-"@
    } else {
        trim_last(informal_potential(c, w), 1) + "た"@
    }
}

/// Informal perfective potential negative form, derived: the potential
/// negative with its trailing い replaced by かった.
pub open spec fn informal_perfective_potential_negative(c: WordType, w: Seq<char>) -> Seq<char> {
    if is_adjective(c) {
        "-"@
    } else {
        trim_last(informal_potential_negative(c, w), 1) + "かった"@
    }
}

/// Formal potential form, derived: the potential with its trailing る
/// replaced by ます.
pub open spec fn formal_potential(c: WordType, w: Seq<char>) -> Seq<char> {
    if is_adjective(c) {
        "-"@
    } else {
        trim_last(informal_potential(c, w), 1) + "ます"@
    }
}

/// Formal potential negative form, derived: the formal potential with
/// its trailing す replaced by せん.
pub open spec fn formal_potential_negative(c: WordType, w: Seq<char>) -> Seq<char> {
    if is_adjective(c) {
        "-"@
    } else {
        trim_last(formal_potential(c, w), 1) + "せん"@
    }
}

/// Formal perfective potential form, derived: the formal potential with
/// its trailing す replaced by した.
pub open spec fn formal_perfective_potential(c: WordType, w: Seq<char>) -> Seq<char> {
    if is_adjective(c) {
        "-"@
    } else {
        trim_last(formal_potential(c, w), 1) + "した"@
    }
}

/// Formal perfective potential negative form, derived: the formal
/// potential with its trailing す replaced by せんでした.
pub open spec fn formal_perfective_potential_negative(c: WordType, w: Seq<char>) -> Seq<char> {
    if is_adjective(c) {
        "-"@
    } else {
        trim_last(formal_potential(c, w), 1) + "せん"@ + "でした"@
    }
}

} // verus!
