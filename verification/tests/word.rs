use voicevox_core::part_of_speech::priority2cost;
use voicevox_core::word::{InvalidWordError, UserDictWord, UserDictWordType};

#[test]
fn to_zenkaku_works() {
    assert_eq!(UserDictWord::to_zenkaku("abcdefg"), "ａｂｃｄｅｆｇ");
    assert_eq!(UserDictWord::to_zenkaku("あいうえお"), "あいうえお");
    assert_eq!(UserDictWord::to_zenkaku("a_b_c_d_e_f_g"), "ａ＿ｂ＿ｃ＿ｄ＿ｅ＿ｆ＿ｇ");
}

#[test]
fn new_builds_a_valid_word() {
    let w = UserDictWord::new(
        "hoge".to_string(),
        "アイウエオ".to_string(),
        3,
        UserDictWordType::CommonNoun,
        5,
    )
    .unwrap();
    assert_eq!(w.surface, "ｈｏｇｅ");
    assert_eq!(w.pronunciation, "アイウエオ");
    assert_eq!(w.accent_type, 3);
    assert_eq!(w.priority, 5);
    assert_eq!(w.mora_count, 5);
}

#[test]
fn new_rejects_priority_out_of_range() {
    let e = UserDictWord::new(
        "a".to_string(),
        "ア".to_string(),
        0,
        UserDictWordType::CommonNoun,
        11,
    )
    .unwrap_err();
    assert_eq!(e, InvalidWordError::PriorityOutOfRange);
}

#[test]
fn new_rejects_non_katakana_pronunciation() {
    for pron in ["", "きゃっと", "abc", "アイa"] {
        let e = UserDictWord::new(
            "x".to_string(),
            pron.to_string(),
            0,
            UserDictWordType::CommonNoun,
            5,
        )
        .unwrap_err();
        assert_eq!(e, InvalidWordError::PronunciationNotKatakana, "{pron}");
    }
}

#[test]
fn new_rejects_small_kana_sequences() {
    for pron in ["ァィ", "ッァ", "ッッ"] {
        let e = UserDictWord::new(
            "x".to_string(),
            pron.to_string(),
            0,
            UserDictWordType::CommonNoun,
            5,
        )
        .unwrap_err();
        assert_eq!(e, InvalidWordError::SmallKanaSequence, "{pron}");
    }
}

#[test]
fn small_tsu_then_small_vowel_is_caught_as_sequence() {
    // A sokuon may be followed by a full kana, never by another small one.
    let e = UserDictWord::validate_pronunciation("キャッョ").unwrap_err();
    assert_eq!(e, InvalidWordError::SmallKanaSequence);
}

#[test]
fn small_tsu_after_small_vowel_is_accepted() {
    // As in a word like "キャット": small vowel, then sokuon, is fine.
    assert!(UserDictWord::validate_pronunciation("キャット").is_ok());
}

#[test]
fn new_rejects_misplaced_small_wa() {
    let e = UserDictWord::new(
        "x".to_string(),
        "アヮ".to_string(),
        0,
        UserDictWordType::CommonNoun,
        5,
    )
    .unwrap_err();
    assert_eq!(e, InvalidWordError::SmallWaUsage);
    assert!(UserDictWord::validate_pronunciation("クヮ").is_ok());
    assert!(UserDictWord::validate_pronunciation("グヮ").is_ok());
    // At the start the rule does not apply.
    assert!(UserDictWord::validate_pronunciation("ヮ").is_ok());
}

#[test]
fn mora_count_prefers_two_character_morae() {
    for (pron, morae) in [
        ("アイウエオ", 5),
        ("キャット", 3),
        ("クヮルテット", 5),
        ("ディア", 2),
        ("ヴァイオリン", 5),
        ("トゥナイト", 4),
        ("コーヒー", 4),
        ("イェア", 2),
    ] {
        let n = UserDictWord::calculate_mora_count(pron, 0).unwrap();
        assert_eq!(n, morae, "{pron}");
    }
}

#[test]
fn accent_type_may_equal_but_not_exceed_mora_count() {
    assert!(UserDictWord::calculate_mora_count("アイウ", 3).is_ok());
    let e = UserDictWord::calculate_mora_count("アイウ", 4).unwrap_err();
    assert_eq!(
        e,
        InvalidWordError::AccentTypeOutOfRange { accent_type: 4, mora_count: 3 }
    );
}

#[test]
fn mora_count_agrees_with_the_mora_pattern() {
    // The same grammar, written as the analyser's regular expression.
    let rule_others = "[イ][ェ]|[ヴ][ャュョ]|[トド][ゥ]|[テデ][ィャュョ]|[デ][ェ]|[クグ][ヮ]";
    let rule_line_i = "[キシチニヒミリギジビピ][ェャュョ]";
    let rule_line_u = "[ツフヴ][ァ]|[ウスツフヴズ][ィ]|[ウツフヴ][ェォ]";
    let rule_one_mora = "[ァ-ヴー]";
    let pattern = regex::Regex::new(&format!(
        "(?:{rule_others}|{rule_line_i}|{rule_line_u}|{rule_one_mora})"
    ))
    .unwrap();
    for pron in [
        "アイウエオ",
        "キャット",
        "クヮルテット",
        "ディア",
        "ヴァイオリン",
        "トゥナイト",
        "コーヒー",
        "イェア",
        "シェフィールド",
        "スィーツ",
        "チュニジア",
        "ッ",
        "ーー",
    ] {
        let expected = pattern.find_iter(pron).count();
        let got = UserDictWord::calculate_mora_count(pron, 0).unwrap();
        assert_eq!(got, expected, "{pron}");
    }
}

#[test]
fn validation_agrees_with_the_katakana_pattern() {
    let pattern = regex::Regex::new("^[ァ-ヴー]+$").unwrap();
    for text in ["アイウ", "ー", "あ", "", "アa", "ン"] {
        let by_pattern = pattern.is_match(text);
        let by_validation = !matches!(
            UserDictWord::validate_pronunciation(text),
            Err(InvalidWordError::PronunciationNotKatakana)
        );
        assert_eq!(by_validation, by_pattern, "{text}");
    }
}

#[test]
fn mecab_line_has_the_expected_shape() {
    let w = UserDictWord::new(
        "abc".to_string(),
        "アイウ".to_string(),
        1,
        UserDictWordType::CommonNoun,
        5,
    )
    .unwrap();
    assert_eq!(
        w.to_mecab_format(),
        "ａｂｃ,1345,1345,5746,名詞,一般,*,*,*,*,*,アイウ,アイウ,1/3,*\n"
    );
}

#[test]
fn mecab_line_for_a_proper_noun_with_negative_cost() {
    let w = UserDictWord::new(
        "XYZ".to_string(),
        "テスト".to_string(),
        0,
        UserDictWordType::ProperNoun,
        10,
    )
    .unwrap();
    assert_eq!(
        w.to_mecab_format(),
        "ＸＹＺ,1348,1348,-988,名詞,固有名詞,一般,*,*,*,*,テスト,テスト,0/3,*\n"
    );
}

#[test]
fn priority2cost_picks_from_the_candidate_table() {
    assert_eq!(priority2cost(1348, 0), 14176);
    assert_eq!(priority2cost(1348, 10), -988);
    assert_eq!(priority2cost(1345, 5), 5746);
    assert_eq!(priority2cost(19, 10), 1527);
    assert_eq!(priority2cost(642, 0), 13433);
    assert_eq!(priority2cost(1358, 3), 10834);
}

#[test]
fn default_word_is_an_empty_common_noun() {
    let w = UserDictWord::default();
    assert_eq!(w.surface, "");
    assert_eq!(w.pronunciation, "");
    assert_eq!(w.accent_type, 0);
    assert_eq!(w.word_type, UserDictWordType::CommonNoun);
    assert_eq!(w.priority, 0);
    assert_eq!(w.mora_count, 0);
}
