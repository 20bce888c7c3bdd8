//! Every accessor against a fixture table of words covering all
//! classes, both spelling families of the irregular lemmas, and the
//! adjective sentinel.

use katsuyou::word_entity::WordEntity;
use katsuyou::word_entity::WordType;

fn entity(form: &str, gloss: &str, class: WordType) -> WordEntity {
    WordEntity {
        dictionary_form: String::from(form),
        translation: String::from(gloss),
        word_type: class,
    }
}

fn check_forms(e: &WordEntity, expected: [&str; 16]) {
    assert_eq!(e.imperfective_form().unwrap(), expected[0]);
    assert_eq!(e.imperfective_negative_form().unwrap(), expected[1]);
    assert_eq!(e.perfective_form().unwrap(), expected[2]);
    assert_eq!(e.perfective_negative_form().unwrap(), expected[3]);
    assert_eq!(e.formal_imperfective_form().unwrap(), expected[4]);
    assert_eq!(e.formal_imperfective_negative_form().unwrap(), expected[5]);
    assert_eq!(e.formal_perfective_form().unwrap(), expected[6]);
    assert_eq!(e.formal_perfective_negative_form().unwrap(), expected[7]);
    assert_eq!(e.informal_potential_form().unwrap(), expected[8]);
    assert_eq!(e.informal_potential_negative_form().unwrap(), expected[9]);
    assert_eq!(e.informal_perfective_potential_form().unwrap(), expected[10]);
    assert_eq!(
        e.informal_perfective_potential_negative_form().unwrap(),
        expected[11]
    );
    assert_eq!(e.formal_potential_form().unwrap(), expected[12]);
    assert_eq!(e.formal_potential_negative_form().unwrap(), expected[13]);
    assert_eq!(e.formal_perfective_potential_form().unwrap(), expected[14]);
    assert_eq!(
        e.formal_perfective_potential_negative_form().unwrap(),
        expected[15]
    );
}

#[test]
fn suru_forms() {
    check_forms(
        &entity("する", "to do", WordType::VerbSuru),
        [
            "する",
            "しない",
            "した",
            "しなかった",
            "します",
            "しません",
            "しました",
            "しませんでした",
            "できる",
            "できない",
            "できた",
            "できなかった",
            "できます",
            "できません",
            "できました",
            "できませんでした",
        ],
    );
}

#[test]
fn suru_compound_forms() {
    check_forms(
        &entity("準備する", "to prepare", WordType::VerbSuru),
        [
            "準備する",
            "準備しない",
            "準備した",
            "準備しなかった",
            "準備します",
            "準備しません",
            "準備しました",
            "準備しませんでした",
            "準備できる",
            "準備できない",
            "準備できた",
            "準備できなかった",
            "準備できます",
            "準備できません",
            "準備できました",
            "準備できませんでした",
        ],
    );
}

#[test]
fn kuru_kanji_forms() {
    check_forms(
        &entity("来る", "to come", WordType::VerbKuru),
        [
            "くる",
            "こない",
            "きた",
            "こなかった",
            "きます",
            "きません",
            "きました",
            "きませんでした",
            "こられる",
            "こられない",
            "こられた",
            "こられなかった",
            "こられます",
            "こられません",
            "こられました",
            "こられませんでした",
        ],
    );
}

#[test]
fn kuru_kana_forms() {
    check_forms(
        &entity("くる", "to come", WordType::VerbKuru),
        [
            "くる",
            "こない",
            "きた",
            "こなかった",
            "きます",
            "きません",
            "きました",
            "きませんでした",
            "こられる",
            "こられない",
            "こられた",
            "こられなかった",
            "こられます",
            "こられません",
            "こられました",
            "こられませんでした",
        ],
    );
}

#[test]
fn godan_aru_kudasaru_forms() {
    check_forms(
        &entity("下さる", "to give", WordType::VerbGodanARU),
        [
            "下さる",
            "下さらない",
            "下さった",
            "下さらなかった",
            "下さいます",
            "下さいません",
            "下さいました",
            "下さいませんでした",
            "下される",
            "下されない",
            "下された",
            "下されなかった",
            "下されます",
            "下されません",
            "下されました",
            "下されませんでした",
        ],
    );
}

#[test]
fn godan_aru_irassharu_forms() {
    // The negative of the honorific -sha- branch is branch-aware:
    // いらっしゃらない, not a uniform さらない ending.
    check_forms(
        &entity("いらっしゃる", "to go", WordType::VerbGodanARU),
        [
            "いらっしゃる",
            "いらっしゃらない",
            "いらっしゃった",
            "いらっしゃらなかった",
            "いらっしゃいます",
            "いらっしゃいません",
            "いらっしゃいました",
            "いらっしゃいませんでした",
            "いらっしゃれる",
            "いらっしゃれない",
            "いらっしゃれた",
            "いらっしゃれなかった",
            "いらっしゃれます",
            "いらっしゃれません",
            "いらっしゃれました",
            "いらっしゃれませんでした",
        ],
    );
}

#[test]
fn godan_b_forms() {
    check_forms(
        &entity("呼ぶ", "to call", WordType::VerbGodanB),
        [
            "呼ぶ",
            "呼ばない",
            "呼んだ",
            "呼ばなかった",
            "呼びます",
            "呼びません",
            "呼びました",
            "呼びませんでした",
            "呼べる",
            "呼べない",
            "呼べた",
            "呼べなかった",
            "呼べます",
            "呼べません",
            "呼べました",
            "呼べませんでした",
        ],
    );
}

#[test]
fn godan_g_forms() {
    check_forms(
        &entity("泳ぐ", "to swim", WordType::VerbGodanG),
        [
            "泳ぐ",
            "泳がない",
            "泳いだ",
            "泳がなかった",
            "泳ぎます",
            "泳ぎません",
            "泳ぎました",
            "泳ぎませんでした",
            "泳げる",
            "泳げない",
            "泳げた",
            "泳げなかった",
            "泳げます",
            "泳げません",
            "泳げました",
            "泳げませんでした",
        ],
    );
}

#[test]
fn godan_k_forms() {
    check_forms(
        &entity("焼く", "to grill", WordType::VerbGodanK),
        [
            "焼く",
            "焼かない",
            "焼いた",
            "焼かなかった",
            "焼きます",
            "焼きません",
            "焼きました",
            "焼きませんでした",
            "焼ける",
            "焼けない",
            "焼けた",
            "焼けなかった",
            "焼けます",
            "焼けません",
            "焼けました",
            "焼けませんでした",
        ],
    );
}

#[test]
fn godan_k_special_forms() {
    check_forms(
        &entity("行く", "to go", WordType::VerbGodanKS),
        [
            "行く",
            "行かない",
            "行った",
            "行かなかった",
            "行きます",
            "行きません",
            "行きました",
            "行きませんでした",
            "行ける",
            "行けない",
            "行けた",
            "行けなかった",
            "行けます",
            "行けません",
            "行けました",
            "行けませんでした",
        ],
    );
}

#[test]
fn godan_m_forms() {
    check_forms(
        &entity("読む", "to read", WordType::VerbGodanM),
        [
            "読む",
            "読まない",
            "読んだ",
            "読まなかった",
            "読みます",
            "読みません",
            "読みました",
            "読みませんでした",
            "読める",
            "読めない",
            "読めた",
            "読めなかった",
            "読めます",
            "読めません",
            "読めました",
            "読めませんでした",
        ],
    );
}

#[test]
fn godan_n_forms() {
    check_forms(
        &entity("死ぬ", "to die", WordType::VerbGodanN),
        [
            "死ぬ",
            "死なない",
            "死んだ",
            "死ななかった",
            "死にます",
            "死にません",
            "死にました",
            "死にませんでした",
            "死ねる",
            "死ねない",
            "死ねた",
            "死ねなかった",
            "死ねます",
            "死ねません",
            "死ねました",
            "死ねませんでした",
        ],
    );
}

#[test]
fn godan_r_forms() {
    check_forms(
        &entity("走る", "to run", WordType::VerbGodanR),
        [
            "走る",
            "走らない",
            "走った",
            "走らなかった",
            "走ります",
            "走りません",
            "走りました",
            "走りませんでした",
            "走れる",
            "走れない",
            "走れた",
            "走れなかった",
            "走れます",
            "走れません",
            "走れました",
            "走れませんでした",
        ],
    );
}

#[test]
fn godan_r_irregular_kanji_forms() {
    check_forms(
        &entity("有る", "to exist", WordType::VerbGodanRI),
        [
            "有る",
            "ない",
            "有った",
            "なかった",
            "有ります",
            "有りません",
            "有りました",
            "有りませんでした",
            "有れる",
            "有れない",
            "有れた",
            "有れなかった",
            "有れます",
            "有れません",
            "有れました",
            "有れませんでした",
        ],
    );
}

#[test]
fn godan_r_irregular_kana_forms() {
    check_forms(
        &entity("ある", "to exist", WordType::VerbGodanRI),
        [
            "ある",
            "ない",
            "あった",
            "なかった",
            "あります",
            "ありません",
            "ありました",
            "ありませんでした",
            "あれる",
            "あれない",
            "あれた",
            "あれなかった",
            "あれます",
            "あれません",
            "あれました",
            "あれませんでした",
        ],
    );
}

#[test]
fn godan_s_forms() {
    check_forms(
        &entity("示す", "to show", WordType::VerbGodanS),
        [
            "示す",
            "示さない",
            "示した",
            "示さなかった",
            "示します",
            "示しません",
            "示しました",
            "示しませんでした",
            "示せる",
            "示せない",
            "示せた",
            "示せなかった",
            "示せます",
            "示せません",
            "示せました",
            "示せませんでした",
        ],
    );
}

#[test]
fn godan_t_forms() {
    check_forms(
        &entity("待つ", "to wait", WordType::VerbGodanT),
        [
            "待つ",
            "待たない",
            "待った",
            "待たなかった",
            "待ちます",
            "待ちません",
            "待ちました",
            "待ちませんでした",
            "待てる",
            "待てない",
            "待てた",
            "待てなかった",
            "待てます",
            "待てません",
            "待てました",
            "待てませんでした",
        ],
    );
}

#[test]
fn godan_u_forms() {
    check_forms(
        &entity("使う", "to use", WordType::VerbGodanU),
        [
            "使う",
            "使わない",
            "使った",
            "使わなかった",
            "使います",
            "使いません",
            "使いました",
            "使いませんでした",
            "使える",
            "使えない",
            "使えた",
            "使えなかった",
            "使えます",
            "使えません",
            "使えました",
            "使えませんでした",
        ],
    );
}

#[test]
fn godan_u_special_forms() {
    check_forms(
        &entity("問う", "to ask", WordType::VerbGodanUS),
        [
            "問う",
            "問わない",
            "問うた",
            "問わなかった",
            "問います",
            "問いません",
            "問いました",
            "問いませんでした",
            "問える",
            "問えない",
            "問えた",
            "問えなかった",
            "問えます",
            "問えません",
            "問えました",
            "問えませんでした",
        ],
    );
}

#[test]
fn ichidan_forms() {
    check_forms(
        &entity("食べる", "to eat", WordType::VerbIchidan),
        [
            "食べる",
            "食べない",
            "食べた",
            "食べなかった",
            "食べます",
            "食べません",
            "食べました",
            "食べませんでした",
            "食べられる",
            "食べられない",
            "食べられた",
            "食べられなかった",
            "食べられます",
            "食べられません",
            "食べられました",
            "食べられませんでした",
        ],
    );
}

#[test]
fn adjective_i_forms() {
    check_forms(
        &entity("痛い", "painful", WordType::AdjectiveI),
        [
            "痛い",
            "痛くない",
            "痛かった",
            "痛くなかった",
            "-",
            "-",
            "-",
            "-",
            "-",
            "-",
            "-",
            "-",
            "-",
            "-",
            "-",
            "-",
        ],
    );
}

#[test]
fn adjective_i_ii_forms() {
    check_forms(
        &entity("いい", "good", WordType::AdjectiveI),
        [
            "いい",
            "よくない",
            "よかった",
            "よくなかった",
            "-",
            "-",
            "-",
            "-",
            "-",
            "-",
            "-",
            "-",
            "-",
            "-",
            "-",
            "-",
        ],
    );
}

#[test]
fn adjective_i_yoi_forms() {
    check_forms(
        &entity("よい", "good", WordType::AdjectiveI),
        [
            "よい",
            "よくない",
            "よかった",
            "よくなかった",
            "-",
            "-",
            "-",
            "-",
            "-",
            "-",
            "-",
            "-",
            "-",
            "-",
            "-",
            "-",
        ],
    );
}

#[test]
fn adjective_i_yoi_kanji_forms() {
    check_forms(
        &entity("良い", "good", WordType::AdjectiveI),
        [
            "良い",
            "良くない",
            "良かった",
            "良くなかった",
            "-",
            "-",
            "-",
            "-",
            "-",
            "-",
            "-",
            "-",
            "-",
            "-",
            "-",
            "-",
        ],
    );
}

#[test]
fn adjective_na_forms() {
    check_forms(
        &entity("簡単", "simple", WordType::AdjectiveNa),
        [
            "簡単",
            "簡単じゃない",
            "簡単だった",
            "簡単じゃなかった",
            "-",
            "-",
            "-",
            "-",
            "-",
            "-",
            "-",
            "-",
            "-",
            "-",
            "-",
            "-",
        ],
    );
}

#[test]
fn adjective_na_trailing_na_forms() {
    check_forms(
        &entity("簡単な", "simple", WordType::AdjectiveNa),
        [
            "簡単",
            "簡単じゃない",
            "簡単だった",
            "簡単じゃなかった",
            "-",
            "-",
            "-",
            "-",
            "-",
            "-",
            "-",
            "-",
            "-",
            "-",
            "-",
            "-",
        ],
    );
}
