use charset_sniff::{
    candidate_bonus, score_trial, select_best, trial_beats, trial_ends_search, ByteHints, Label,
    LanguageHints, Scored,
};

const NO_BYTES: ByteHints =
    ByteHints { likely_mac_cyrillic: false, likely_arabic: false, likely_turkish: false };
const NO_LANG: LanguageHints =
    LanguageHints { arabic: false, cyrillic: false, turkish: false, korean: false };

fn chars(s: &str) -> Vec<char> {
    s.chars().collect()
}

fn scored(label: Label, errors: u64, total: u64, bonus: i64, clean: bool) -> Scored {
    Scored { label, errors, total, bonus, clean }
}

#[test]
fn counts_replacement_characters() {
    let t = score_trial(Label::Utf8, Label::Utf8, &chars("ab\u{FFFD}d"), true, NO_BYTES);
    assert_eq!(t, scored(Label::Utf8, 1, 4, 5, false));
}

#[test]
fn empty_text_counts_one_character() {
    let t = score_trial(Label::Gbk, Label::Utf8, &Vec::new(), false, NO_BYTES);
    assert_eq!(t, scored(Label::Gbk, 0, 1, 0, true));
}

#[test]
fn cyrillic_text_favours_1251() {
    let t = score_trial(Label::Windows1251, Label::Utf8, &chars("Привет"), false, NO_BYTES);
    assert_eq!(t, scored(Label::Windows1251, 0, 6, 20, true));
}

#[test]
fn bonus_table() {
    let cyr = LanguageHints { cyrillic: true, ..NO_LANG };
    let ara = LanguageHints { arabic: true, ..NO_LANG };
    let kor = LanguageHints { korean: true, ..NO_LANG };
    let tur = LanguageHints { turkish: true, ..NO_LANG };
    let mac = ByteHints { likely_mac_cyrillic: true, ..NO_BYTES };
    assert_eq!(candidate_bonus(Label::Windows1256, Label::Utf8, cyr, NO_BYTES), -90);
    assert_eq!(candidate_bonus(Label::Windows1256, Label::Windows1256, ara, NO_BYTES), 55);
    assert_eq!(candidate_bonus(Label::Windows1251, Label::Utf8, ara, NO_BYTES), -50);
    assert_eq!(candidate_bonus(Label::Windows949, Label::Utf8, kor, NO_BYTES), 40);
    assert_eq!(candidate_bonus(Label::EucKr, Label::Utf8, kor, NO_BYTES), 20);
    assert_eq!(candidate_bonus(Label::Windows1254, Label::Utf8, tur, NO_BYTES), 40);
    assert_eq!(candidate_bonus(Label::XMacCyrillic, Label::Utf8, cyr, mac), 90);
    assert_eq!(candidate_bonus(Label::MacCyrillic, Label::Utf8, NO_LANG, mac), 40);
    assert_eq!(candidate_bonus(Label::Utf8, Label::Utf8, NO_LANG, NO_BYTES), 5);
    assert_eq!(candidate_bonus(Label::Big5, Label::Utf8, cyr, mac), 0);
}

#[test]
fn higher_score_wins() {
    let a = scored(Label::Utf8, 0, 10, 5, true);
    let b = scored(Label::Gbk, 0, 10, 0, true);
    assert!(trial_beats(&a, &b));
    assert!(!trial_beats(&b, &a));
}

#[test]
fn equal_score_lower_error_ratio_wins() {
    // Both score exactly 1.0: 1 - 0/10 + 0 and 1 - 1/10 + 0.1.
    let a = scored(Label::Utf8, 0, 10, 0, true);
    let b = scored(Label::Gbk, 1, 10, 10, false);
    assert!(trial_beats(&a, &b));
    assert!(!trial_beats(&b, &a));
}

#[test]
fn exact_tie_keeps_the_earlier() {
    let a = scored(Label::Utf8, 1, 4, 0, false);
    let b = scored(Label::Gbk, 2, 8, 0, false);
    assert!(!trial_beats(&a, &b));
    assert!(!trial_beats(&b, &a));
}

#[test]
fn search_ends_on_clean_score_above_one() {
    assert!(trial_ends_search(&scored(Label::Utf8, 0, 5, 5, true)));
    assert!(!trial_ends_search(&scored(Label::Utf8, 0, 5, 0, true)));
    assert!(!trial_ends_search(&scored(Label::Utf8, 0, 5, 5, false)));
    assert!(!trial_ends_search(&scored(Label::Utf8, 1, 5, 50, true)));
}

#[test]
fn first_of_equal_trials_is_kept() {
    let trials = vec![
        None,
        Some(scored(Label::XMacCyrillic, 0, 10, 0, true)),
        Some(scored(Label::Windows1252, 0, 10, 0, true)),
    ];
    assert_eq!(select_best(&trials), Some(1));
}

#[test]
fn early_exit_stops_before_a_better_trial() {
    let trials = vec![
        Some(scored(Label::Utf8, 0, 10, 5, true)),
        Some(scored(Label::Windows949, 0, 10, 40, true)),
    ];
    assert_eq!(select_best(&trials), Some(0));
}

#[test]
fn without_clean_decode_the_search_goes_on() {
    let trials = vec![
        Some(scored(Label::Utf8, 0, 10, 5, false)),
        Some(scored(Label::Windows949, 0, 10, 40, true)),
    ];
    assert_eq!(select_best(&trials), Some(1));
}

#[test]
fn no_trials_no_winner() {
    assert_eq!(select_best(&vec![None, None]), None);
    assert_eq!(select_best(&Vec::new()), None);
}
