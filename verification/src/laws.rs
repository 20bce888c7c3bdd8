//! Structural properties of the conjugation tables.
//!
//! The derived forms trim a fixed trailing character off an
//! already-composed form; each derivation rests on an invariant of the
//! suffix tables (every plain negative ends in い, every polite form in
//! す, every potential in る). Those invariants are proved here, along
//! with the behavioural laws of the engine: idempotence of the
//! imperfective form, spelling-family agreement of kana and kanji
//! lemmas, the perfective-negative round trip, the empty-stem boundary
//! of the irregular ある, and the adjective sentinel.

use vstd::prelude::*;

use crate::affix::ends_with;
use crate::affix::starts_with;
use crate::affix::trim_last;
use crate::conjugate::formal_imperfective;
use crate::conjugate::formal_imperfective_negative;
use crate::conjugate::formal_perfective;
use crate::conjugate::formal_perfective_negative;
use crate::conjugate::formal_perfective_potential;
use crate::conjugate::formal_perfective_potential_negative;
use crate::conjugate::formal_potential;
use crate::conjugate::formal_potential_negative;
use crate::conjugate::imperfective;
use crate::conjugate::imperfective_defined;
use crate::conjugate::imperfective_negative;
use crate::conjugate::informal_perfective_potential;
use crate::conjugate::informal_perfective_potential_negative;
use crate::conjugate::informal_potential;
use crate::conjugate::informal_potential_negative;
use crate::conjugate::perfective;
use crate::conjugate::is_adjective;
use crate::conjugate::kanji_spelled_aru;
use crate::conjugate::negative_suffix;
use crate::conjugate::perfective_negative;
use crate::conjugate::stem_defined;
use crate::conjugate::stem_of;
use crate::word_entity::WordType;

verus! {

/// A suffix of the right-hand part survives concatenation on the left.
pub proof fn lemma_ends_with_append(a: Seq<char>, b: Seq<char>, p: Seq<char>)
    requires
        ends_with(b, p),
    ensures
        ends_with(a + b, p),
{
    assert((a + b).skip((a + b).len() - p.len()) =~= b.skip(b.len() - p.len()));
}

/// Trimming a concatenation by the length of its right-hand part
/// returns the left-hand part.
pub proof fn lemma_trim_append(a: Seq<char>, b: Seq<char>)
    ensures
        trim_last(a + b, b.len() as int) == a,
{
    assert(trim_last(a + b, b.len() as int) =~= a);
}

/// Every imperfective-negative form ends in い, whatever the class and
/// dictionary form: the invariant that deriving the perfective negative
/// by trimming い rests on.
pub proof fn lemma_imperfective_negative_ends_in_i(c: WordType, w: Seq<char>)
    ensures
        ends_with(imperfective_negative(c, w), "い"@),
        imperfective_negative(c, w).len() >= 1,
{
    reveal_strlit("い");
    reveal_strlit("しない");
    reveal_strlit("こない");
    reveal_strlit("しゃらない");
    reveal_strlit("さらない");
    reveal_strlit("ばない");
    reveal_strlit("がない");
    reveal_strlit("かない");
    reveal_strlit("まない");
    reveal_strlit("なない");
    reveal_strlit("らない");
    reveal_strlit("ない");
    reveal_strlit("さない");
    reveal_strlit("たない");
    reveal_strlit("わない");
    reveal_strlit("くない");
    reveal_strlit("じゃない");
    assert(ends_with("しない"@, "い"@)) by {
        assert("しない"@.skip(2) =~= "い"@);
    }
    assert(ends_with("こない"@, "い"@)) by {
        assert("こない"@.skip(2) =~= "い"@);
    }
    assert(ends_with("しゃらない"@, "い"@)) by {
        assert("しゃらない"@.skip(4) =~= "い"@);
    }
    assert(ends_with("さらない"@, "い"@)) by {
        assert("さらない"@.skip(3) =~= "い"@);
    }
    assert(ends_with("ばない"@, "い"@)) by {
        assert("ばない"@.skip(2) =~= "い"@);
    }
    assert(ends_with("がない"@, "い"@)) by {
        assert("がない"@.skip(2) =~= "い"@);
    }
    assert(ends_with("かない"@, "い"@)) by {
        assert("かない"@.skip(2) =~= "い"@);
    }
    assert(ends_with("まない"@, "い"@)) by {
        assert("まない"@.skip(2) =~= "い"@);
    }
    assert(ends_with("なない"@, "い"@)) by {
        assert("なない"@.skip(2) =~= "い"@);
    }
    assert(ends_with("らない"@, "い"@)) by {
        assert("らない"@.skip(2) =~= "い"@);
    }
    assert(ends_with("ない"@, "い"@)) by {
        assert("ない"@.skip(1) =~= "い"@);
    }
    assert(ends_with("さない"@, "い"@)) by {
        assert("さない"@.skip(2) =~= "い"@);
    }
    assert(ends_with("たない"@, "い"@)) by {
        assert("たない"@.skip(2) =~= "い"@);
    }
    assert(ends_with("わない"@, "い"@)) by {
        assert("わない"@.skip(2) =~= "い"@);
    }
    assert(ends_with("くない"@, "い"@)) by {
        assert("くない"@.skip(2) =~= "い"@);
    }
    assert(ends_with("じゃない"@, "い"@)) by {
        assert("じゃない"@.skip(3) =~= "い"@);
    }
    lemma_ends_with_append(stem_of(c, w), negative_suffix(c, w), "い"@);
}

/// Every polite (formal imperfective) verb form ends in す: the
/// invariant that deriving the three other formal forms rests on.
pub proof fn lemma_formal_ends_in_su(c: WordType, w: Seq<char>)
    requires
        !is_adjective(c),
    ensures
        ends_with(formal_imperfective(c, w), "す"@),
        formal_imperfective(c, w).len() >= 1,
{
    reveal_strlit("す");
    reveal_strlit("します");
    reveal_strlit("きます");
    reveal_strlit("しゃいます");
    reveal_strlit("さいます");
    reveal_strlit("びます");
    reveal_strlit("ぎます");
    reveal_strlit("みます");
    reveal_strlit("にます");
    reveal_strlit("ります");
    reveal_strlit("ちます");
    reveal_strlit("います");
    reveal_strlit("ます");
    assert(ends_with("します"@, "す"@)) by {
        assert("します"@.skip(2) =~= "す"@);
    }
    assert(ends_with("きます"@, "す"@)) by {
        assert("きます"@.skip(2) =~= "す"@);
    }
    assert(ends_with("しゃいます"@, "す"@)) by {
        assert("しゃいます"@.skip(4) =~= "す"@);
    }
    assert(ends_with("さいます"@, "す"@)) by {
        assert("さいます"@.skip(3) =~= "す"@);
    }
    assert(ends_with("びます"@, "す"@)) by {
        assert("びます"@.skip(2) =~= "す"@);
    }
    assert(ends_with("ぎます"@, "す"@)) by {
        assert("ぎます"@.skip(2) =~= "す"@);
    }
    assert(ends_with("みます"@, "す"@)) by {
        assert("みます"@.skip(2) =~= "す"@);
    }
    assert(ends_with("にます"@, "す"@)) by {
        assert("にます"@.skip(2) =~= "す"@);
    }
    assert(ends_with("ります"@, "す"@)) by {
        assert("ります"@.skip(2) =~= "す"@);
    }
    assert(ends_with("ちます"@, "す"@)) by {
        assert("ちます"@.skip(2) =~= "す"@);
    }
    assert(ends_with("います"@, "す"@)) by {
        assert("います"@.skip(2) =~= "す"@);
    }
    assert(ends_with("ます"@, "す"@)) by {
        assert("ます"@.skip(1) =~= "す"@);
    }
    match c {
        WordType::VerbSuru => lemma_ends_with_append(stem_of(c, w), "します"@, "す"@),
        WordType::VerbKuru => lemma_ends_with_append(stem_of(c, w), "きます"@, "す"@),
        WordType::VerbGodanARU => {
            if ends_with(w, "しゃる"@) {
                lemma_ends_with_append(stem_of(c, w), "しゃいます"@, "す"@);
            } else {
                lemma_ends_with_append(stem_of(c, w), "さいます"@, "す"@);
            }
        },
        WordType::VerbGodanB => lemma_ends_with_append(stem_of(c, w), "びます"@, "す"@),
        WordType::VerbGodanG => lemma_ends_with_append(stem_of(c, w), "ぎます"@, "す"@),
        WordType::VerbGodanK | WordType::VerbGodanKS => lemma_ends_with_append(
            stem_of(c, w),
            "きます"@,
            "す"@,
        ),
        WordType::VerbGodanM => lemma_ends_with_append(stem_of(c, w), "みます"@, "す"@),
        WordType::VerbGodanN => lemma_ends_with_append(stem_of(c, w), "にます"@, "す"@),
        WordType::VerbGodanR => lemma_ends_with_append(stem_of(c, w), "ります"@, "す"@),
        WordType::VerbGodanRI => {
            if stem_of(c, w).len() == 0 {
                if kanji_spelled_aru(w) {
                    lemma_ends_with_append("有"@, "ります"@, "す"@);
                } else {
                    lemma_ends_with_append("あ"@, "ります"@, "す"@);
                }
            } else {
                lemma_ends_with_append(stem_of(c, w), "ります"@, "す"@);
            }
        },
        WordType::VerbGodanS => lemma_ends_with_append(stem_of(c, w), "します"@, "す"@),
        WordType::VerbGodanT => lemma_ends_with_append(stem_of(c, w), "ちます"@, "す"@),
        WordType::VerbGodanU | WordType::VerbGodanUS => lemma_ends_with_append(
            stem_of(c, w),
            "います"@,
            "す"@,
        ),
        WordType::VerbIchidan => lemma_ends_with_append(stem_of(c, w), "ます"@, "す"@),
        WordType::AdjectiveI | WordType::AdjectiveNa => {},
    }
}

/// Every informal potential verb form ends in る: the invariant that
/// deriving the seven other potential forms rests on.
pub proof fn lemma_potential_ends_in_ru(c: WordType, w: Seq<char>)
    requires
        !is_adjective(c),
    ensures
        ends_with(informal_potential(c, w), "る"@),
        informal_potential(c, w).len() >= 1,
{
    reveal_strlit("る");
    reveal_strlit("できる");
    reveal_strlit("こられる");
    reveal_strlit("しゃれる");
    reveal_strlit("される");
    reveal_strlit("べる");
    reveal_strlit("げる");
    reveal_strlit("ける");
    reveal_strlit("める");
    reveal_strlit("ねる");
    reveal_strlit("れる");
    reveal_strlit("せる");
    reveal_strlit("てる");
    reveal_strlit("える");
    reveal_strlit("られる");
    assert(ends_with("できる"@, "る"@)) by {
        assert("できる"@.skip(2) =~= "る"@);
    }
    assert(ends_with("こられる"@, "る"@)) by {
        assert("こられる"@.skip(3) =~= "る"@);
    }
    assert(ends_with("しゃれる"@, "る"@)) by {
        assert("しゃれる"@.skip(3) =~= "る"@);
    }
    assert(ends_with("される"@, "る"@)) by {
        assert("される"@.skip(2) =~= "る"@);
    }
    assert(ends_with("べる"@, "る"@)) by {
        assert("べる"@.skip(1) =~= "る"@);
    }
    assert(ends_with("げる"@, "る"@)) by {
        assert("げる"@.skip(1) =~= "る"@);
    }
    assert(ends_with("ける"@, "る"@)) by {
        assert("ける"@.skip(1) =~= "る"@);
    }
    assert(ends_with("める"@, "る"@)) by {
        assert("める"@.skip(1) =~= "る"@);
    }
    assert(ends_with("ねる"@, "る"@)) by {
        assert("ねる"@.skip(1) =~= "る"@);
    }
    assert(ends_with("れる"@, "る"@)) by {
        assert("れる"@.skip(1) =~= "る"@);
    }
    assert(ends_with("せる"@, "る"@)) by {
        assert("せる"@.skip(1) =~= "る"@);
    }
    assert(ends_with("てる"@, "る"@)) by {
        assert("てる"@.skip(1) =~= "る"@);
    }
    assert(ends_with("える"@, "る"@)) by {
        assert("える"@.skip(1) =~= "る"@);
    }
    assert(ends_with("られる"@, "る"@)) by {
        assert("られる"@.skip(2) =~= "る"@);
    }
    match c {
        WordType::VerbSuru => lemma_ends_with_append(stem_of(c, w), "できる"@, "る"@),
        WordType::VerbKuru => lemma_ends_with_append(stem_of(c, w), "こられる"@, "る"@),
        WordType::VerbGodanARU => {
            if ends_with(w, "しゃる"@) {
                lemma_ends_with_append(stem_of(c, w), "しゃれる"@, "る"@);
            } else {
                lemma_ends_with_append(stem_of(c, w), "される"@, "る"@);
            }
        },
        WordType::VerbGodanB => lemma_ends_with_append(stem_of(c, w), "べる"@, "る"@),
        WordType::VerbGodanG => lemma_ends_with_append(stem_of(c, w), "げる"@, "る"@),
        WordType::VerbGodanK | WordType::VerbGodanKS => lemma_ends_with_append(
            stem_of(c, w),
            "ける"@,
            "る"@,
        ),
        WordType::VerbGodanM => lemma_ends_with_append(stem_of(c, w), "める"@, "る"@),
        WordType::VerbGodanN => lemma_ends_with_append(stem_of(c, w), "ねる"@, "る"@),
        WordType::VerbGodanR => lemma_ends_with_append(stem_of(c, w), "れる"@, "る"@),
        WordType::VerbGodanRI => {
            if stem_of(c, w).len() == 0 {
                if kanji_spelled_aru(w) {
                    lemma_ends_with_append("有"@, "れる"@, "る"@);
                } else {
                    lemma_ends_with_append("あ"@, "れる"@, "る"@);
                }
            } else {
                lemma_ends_with_append(stem_of(c, w), "れる"@, "る"@);
            }
        },
        WordType::VerbGodanS => lemma_ends_with_append(stem_of(c, w), "せる"@, "る"@),
        WordType::VerbGodanT => lemma_ends_with_append(stem_of(c, w), "てる"@, "る"@),
        WordType::VerbGodanU | WordType::VerbGodanUS => lemma_ends_with_append(
            stem_of(c, w),
            "える"@,
            "る"@,
        ),
        WordType::VerbIchidan => lemma_ends_with_append(trim_last(w, 1), "られる"@, "る"@),
        WordType::AdjectiveI | WordType::AdjectiveNa => {},
    }
}

/// Every informal potential negative verb form ends in い; its own
/// perfective derivation trims that い.
pub proof fn lemma_potential_negative_ends_in_i(c: WordType, w: Seq<char>)
    requires
        !is_adjective(c),
    ensures
        ends_with(informal_potential_negative(c, w), "い"@),
        informal_potential_negative(c, w).len() >= 1,
{
    reveal_strlit("い");
    reveal_strlit("ない");
    assert(ends_with("ない"@, "い"@)) by {
        assert("ない"@.skip(1) =~= "い"@);
    }
    lemma_ends_with_append(trim_last(informal_potential(c, w), 1), "ない"@, "い"@);
}

/// Applying the imperfective accessor to its own output changes
/// nothing, for every class and dictionary form that carries the
/// class's canonical ending: the irregular ある must end in ある or
/// 有る, and a na-adjective's stem must not itself end in な.
pub proof fn lemma_imperfective_idempotent(c: WordType, w: Seq<char>)
    requires
        imperfective_defined(c, w),
        c is VerbGodanRI ==> ends_with(w, "ある"@) || ends_with(w, "有る"@),
        c is AdjectiveNa ==> !ends_with(stem_of(c, w), "な"@),
    ensures
        imperfective_defined(c, imperfective(c, w)),
        imperfective(c, imperfective(c, w)) == imperfective(c, w),
{
    match c {
        WordType::VerbSuru => {
            if !ends_with(w, "する"@) {
                assert(ends_with("する"@, "する"@)) by {
                    assert("する"@.skip(0) =~= "する"@);
                }
                lemma_ends_with_append(w, "する"@, "する"@);
            }
        },
        WordType::VerbKuru => {
            reveal_strlit("くる");
            lemma_trim_append(trim_last(w, 2), "くる"@);
        },
        WordType::VerbGodanRI => {
            reveal_strlit("ある");
            reveal_strlit("有る");
            let a = trim_last(w, 2);
            let sp = if kanji_spelled_aru(w) {
                "有る"@
            } else {
                "ある"@
            };
            let m = a + sp;
            lemma_trim_append(a, sp);
            if a.len() == 0 {
                assert(m =~= sp);
                if kanji_spelled_aru(w) {
                    assert(kanji_spelled_aru(m)) by {
                        assert(m.take(2) =~= "有る"@);
                    }
                } else {
                    assert(!kanji_spelled_aru(m)) by {
                        if starts_with(m, "有る"@) {
                            assert(m.take(2)[0] == "有る"@[0]);
                        }
                    }
                }
            } else if a.len() == 1 {
                assert(!kanji_spelled_aru(m)) by {
                    if starts_with(m, "有る"@) {
                        assert(m.take(2)[1] == "有る"@[1]);
                        assert(m[1] == sp[0]);
                    }
                }
                assert(!kanji_spelled_aru(w)) by {
                    if starts_with(w, "有る"@) {
                        assert(w.take(2)[1] == "有る"@[1]);
                        if ends_with(w, "ある"@) {
                            assert(w.skip(w.len() - 2)[0] == "ある"@[0]);
                        } else {
                            assert(w.skip(w.len() - 2)[0] == "有る"@[0]);
                        }
                    }
                }
            } else {
                assert(w.take(2) =~= m.take(2)) by {
                    assert(forall|i: int|
                        0 <= i < 2 ==> w.take(2)[i] == a[i] && m.take(2)[i] == a[i]);
                }
                assert(kanji_spelled_aru(m) == kanji_spelled_aru(w));
            }
        },
        WordType::AdjectiveNa => {
            let s = stem_of(c, w);
            assert(trim_last(s, 0) =~= s);
        },
        _ => {},
    }
}

/// Kana and kanji spellings of a kuru-class lemma yield identical
/// strings for every accessor: the stem rule drops the two-character
/// ending whichever spelling carried it, and every form is rebuilt from
/// that shared stem.
pub proof fn lemma_kuru_spelling_agreement(p: Seq<char>)
    ensures
        imperfective(WordType::VerbKuru, p + "来る"@) == imperfective(
            WordType::VerbKuru,
            p + "くる"@,
        ),
        imperfective_negative(WordType::VerbKuru, p + "来る"@) == imperfective_negative(
            WordType::VerbKuru,
            p + "くる"@,
        ),
        perfective(WordType::VerbKuru, p + "来る"@) == perfective(WordType::VerbKuru, p + "くる"@),
        perfective_negative(WordType::VerbKuru, p + "来る"@) == perfective_negative(
            WordType::VerbKuru,
            p + "くる"@,
        ),
        formal_imperfective(WordType::VerbKuru, p + "来る"@) == formal_imperfective(
            WordType::VerbKuru,
            p + "くる"@,
        ),
        formal_imperfective_negative(WordType::VerbKuru, p + "来る"@)
            == formal_imperfective_negative(WordType::VerbKuru, p + "くる"@),
        formal_perfective(WordType::VerbKuru, p + "来る"@) == formal_perfective(
            WordType::VerbKuru,
            p + "くる"@,
        ),
        formal_perfective_negative(WordType::VerbKuru, p + "来る"@) == formal_perfective_negative(
            WordType::VerbKuru,
            p + "くる"@,
        ),
        informal_potential(WordType::VerbKuru, p + "来る"@) == informal_potential(
            WordType::VerbKuru,
            p + "くる"@,
        ),
        informal_potential_negative(WordType::VerbKuru, p + "来る"@)
            == informal_potential_negative(WordType::VerbKuru, p + "くる"@),
        informal_perfective_potential(WordType::VerbKuru, p + "来る"@)
            == informal_perfective_potential(WordType::VerbKuru, p + "くる"@),
        informal_perfective_potential_negative(WordType::VerbKuru, p + "来る"@)
            == informal_perfective_potential_negative(WordType::VerbKuru, p + "くる"@),
        formal_potential(WordType::VerbKuru, p + "来る"@) == formal_potential(
            WordType::VerbKuru,
            p + "くる"@,
        ),
        formal_potential_negative(WordType::VerbKuru, p + "来る"@) == formal_potential_negative(
            WordType::VerbKuru,
            p + "くる"@,
        ),
        formal_perfective_potential(WordType::VerbKuru, p + "来る"@)
            == formal_perfective_potential(WordType::VerbKuru, p + "くる"@),
        formal_perfective_potential_negative(WordType::VerbKuru, p + "来る"@)
            == formal_perfective_potential_negative(WordType::VerbKuru, p + "くる"@),
{
    reveal_strlit("来る");
    reveal_strlit("くる");
    lemma_trim_append(p, "来る"@);
    lemma_trim_append(p, "くる"@);
}

/// Kana and kanji spellings of the irregular ある agree wherever the
/// output does not deliberately echo the spelling family: the plain
/// negative and its past agree for every prefix, and with a non-empty
/// prefix before the ending every accessor agrees.
pub proof fn lemma_aru_spelling_agreement(p: Seq<char>)
    ensures
        imperfective_negative(WordType::VerbGodanRI, p + "有る"@) == imperfective_negative(
            WordType::VerbGodanRI,
            p + "ある"@,
        ),
        perfective_negative(WordType::VerbGodanRI, p + "有る"@) == perfective_negative(
            WordType::VerbGodanRI,
            p + "ある"@,
        ),
        p.len() > 0 ==> imperfective(WordType::VerbGodanRI, p + "有る"@) == imperfective(
            WordType::VerbGodanRI,
            p + "ある"@,
        ),
        p.len() > 0 ==> perfective(WordType::VerbGodanRI, p + "有る"@) == perfective(
            WordType::VerbGodanRI,
            p + "ある"@,
        ),
        p.len() > 0 ==> formal_imperfective(WordType::VerbGodanRI, p + "有る"@)
            == formal_imperfective(WordType::VerbGodanRI, p + "ある"@),
        p.len() > 0 ==> formal_imperfective_negative(WordType::VerbGodanRI, p + "有る"@)
            == formal_imperfective_negative(WordType::VerbGodanRI, p + "ある"@),
        p.len() > 0 ==> formal_perfective(WordType::VerbGodanRI, p + "有る"@) == formal_perfective(
            WordType::VerbGodanRI,
            p + "ある"@,
        ),
        p.len() > 0 ==> formal_perfective_negative(WordType::VerbGodanRI, p + "有る"@)
            == formal_perfective_negative(WordType::VerbGodanRI, p + "ある"@),
        p.len() > 0 ==> informal_potential(WordType::VerbGodanRI, p + "有る"@)
            == informal_potential(WordType::VerbGodanRI, p + "ある"@),
        p.len() > 0 ==> informal_potential_negative(WordType::VerbGodanRI, p + "有る"@)
            == informal_potential_negative(WordType::VerbGodanRI, p + "ある"@),
        p.len() > 0 ==> informal_perfective_potential(WordType::VerbGodanRI, p + "有る"@)
            == informal_perfective_potential(WordType::VerbGodanRI, p + "ある"@),
        p.len() > 0 ==> informal_perfective_potential_negative(WordType::VerbGodanRI, p + "有る"@)
            == informal_perfective_potential_negative(WordType::VerbGodanRI, p + "ある"@),
        p.len() > 0 ==> formal_potential(WordType::VerbGodanRI, p + "有る"@) == formal_potential(
            WordType::VerbGodanRI,
            p + "ある"@,
        ),
        p.len() > 0 ==> formal_potential_negative(WordType::VerbGodanRI, p + "有る"@)
            == formal_potential_negative(WordType::VerbGodanRI, p + "ある"@),
        p.len() > 0 ==> formal_perfective_potential(WordType::VerbGodanRI, p + "有る"@)
            == formal_perfective_potential(WordType::VerbGodanRI, p + "ある"@),
        p.len() > 0 ==> formal_perfective_potential_negative(WordType::VerbGodanRI, p + "有る"@)
            == formal_perfective_potential_negative(WordType::VerbGodanRI, p + "ある"@),
{
    reveal_strlit("有る");
    reveal_strlit("ある");
    lemma_trim_append(p, "有る"@);
    lemma_trim_append(p, "ある"@);
    let w1 = p + "有る"@;
    let w2 = p + "ある"@;
    if p.len() == 1 {
        assert(!kanji_spelled_aru(w1)) by {
            if starts_with(w1, "有る"@) {
                assert(w1.take(2)[1] == "有る"@[1]);
                assert(w1[1] == "有る"@[0]);
            }
        }
        assert(!kanji_spelled_aru(w2)) by {
            if starts_with(w2, "有る"@) {
                assert(w2.take(2)[1] == "有る"@[1]);
                assert(w2[1] == "ある"@[0]);
            }
        }
    } else if p.len() >= 2 {
        assert(w1.take(2) =~= w2.take(2)) by {
            assert(forall|i: int| 0 <= i < 2 ==> w1.take(2)[i] == p[i] && w2.take(2)[i] == p[i]);
        }
        assert(kanji_spelled_aru(w1) == kanji_spelled_aru(w2));
    }
}

/// The perfective negative round-trips through the imperfective
/// negative: for every class and dictionary form, the imperfective
/// negative ends in い, and stripping that い and appending かった is
/// exactly the perfective negative.
pub proof fn lemma_perfective_negative_round_trip(c: WordType, w: Seq<char>)
    ensures
        ends_with(imperfective_negative(c, w), "い"@),
        perfective_negative(c, w) == trim_last(imperfective_negative(c, w), 1) + "かった"@,
{
    lemma_imperfective_negative_ends_in_i(c, w);
}

/// The irregular ある, whose stem trims to the empty string, never
/// suffixes an empty stem: its perfective and formal imperfective are
/// the fixed irregular literals of the spelling family the lemma was
/// supplied in.
pub proof fn lemma_aru_empty_stem_boundary()
    ensures
        stem_of(WordType::VerbGodanRI, "ある"@).len() == 0,
        stem_of(WordType::VerbGodanRI, "有る"@).len() == 0,
        perfective(WordType::VerbGodanRI, "ある"@) == "あった"@,
        perfective(WordType::VerbGodanRI, "有る"@) == "有った"@,
        formal_imperfective(WordType::VerbGodanRI, "ある"@) == "あります"@,
        formal_imperfective(WordType::VerbGodanRI, "有る"@) == "有ります"@,
{
    reveal_strlit("ある");
    reveal_strlit("有る");
    reveal_strlit("あ");
    reveal_strlit("有");
    reveal_strlit("あった");
    reveal_strlit("有った");
    reveal_strlit("ります");
    reveal_strlit("あります");
    reveal_strlit("有ります");
    assert(kanji_spelled_aru("有る"@)) by {
        assert("有る"@.take(2) =~= "有る"@);
    }
    assert(!kanji_spelled_aru("ある"@)) by {
        if starts_with("ある"@, "有る"@) {
            assert("ある"@.take(2)[0] == "有る"@[0]);
        }
    }
    assert("あ"@ + "ります"@ =~= "あります"@);
    assert("有"@ + "ります"@ =~= "有ります"@);
}

/// Adjective classes answer every formal and potential accessor with
/// the `-` sentinel, never a string derived by suffix surgery.
pub proof fn lemma_adjective_sentinel(c: WordType, w: Seq<char>)
    requires
        is_adjective(c),
    ensures
        formal_imperfective(c, w) == "-"@,
        formal_imperfective_negative(c, w) == "-"@,
        formal_perfective(c, w) == "-"@,
        formal_perfective_negative(c, w) == "-"@,
        informal_potential(c, w) == "-"@,
        informal_potential_negative(c, w) == "-"@,
        informal_perfective_potential(c, w) == "-"@,
        informal_perfective_potential_negative(c, w) == "-"@,
        formal_potential(c, w) == "-"@,
        formal_potential_negative(c, w) == "-"@,
        formal_perfective_potential(c, w) == "-"@,
        formal_perfective_potential_negative(c, w) == "-"@,
{
}

/// Every formal potential verb form ends in す; its three derivations
/// trim that す.
pub proof fn lemma_formal_potential_ends_in_su(c: WordType, w: Seq<char>)
    requires
        !is_adjective(c),
    ensures
        ends_with(formal_potential(c, w), "す"@),
        formal_potential(c, w).len() >= 1,
{
    reveal_strlit("す");
    reveal_strlit("ます");
    assert(ends_with("ます"@, "す"@)) by {
        assert("ます"@.skip(1) =~= "す"@);
    }
    lemma_ends_with_append(trim_last(informal_potential(c, w), 1), "ます"@, "す"@);
}

} // verus!
