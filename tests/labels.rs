use charset_sniff::{
    candidate_list, normalize_encoding_name, normalize_lowered, prefer_windows_949, remap_guess,
    seed_from_guess, ByteHints, Label,
};

const NONE: ByteHints =
    ByteHints { likely_mac_cyrillic: false, likely_arabic: false, likely_turkish: false };

#[test]
fn normalizes_windows_names() {
    assert_eq!(normalize_encoding_name("windows-1252"), "cp1252");
    assert_eq!(normalize_encoding_name("windows-1256"), "cp1256");
    assert_eq!(normalize_encoding_name("windows-949"), "cp949");
}

#[test]
fn normalizes_unicode_names() {
    assert_eq!(normalize_encoding_name("UTF-8"), "utf_8");
    assert_eq!(normalize_encoding_name("UTF-16LE"), "utf_16le");
    assert_eq!(normalize_encoding_name("UTF-16BE"), "utf_16be");
    assert_eq!(normalize_encoding_name("utf16"), "utf_16");
}

#[test]
fn normalizes_asian_and_cyrillic_names() {
    assert_eq!(normalize_encoding_name("Shift_JIS"), "shift_jis");
    assert_eq!(normalize_encoding_name("EUC-JP"), "euc_jp");
    assert_eq!(normalize_encoding_name("EUC-KR"), "euc_kr");
    assert_eq!(normalize_encoding_name("GBK"), "gbk");
    assert_eq!(normalize_encoding_name("gb_2312"), "gb2312");
    assert_eq!(normalize_encoding_name("Big5"), "big5");
    assert_eq!(normalize_encoding_name("x-mac-cyrillic"), "mac_cyrillic");
    assert_eq!(normalize_encoding_name("KOI8-R"), "koi8_r");
    assert_eq!(normalize_encoding_name("KOI8-U"), "koi8_u");
    assert_eq!(normalize_encoding_name("macintosh"), "mac_roman");
    assert_eq!(normalize_encoding_name("ISO-8859-1"), "latin_1");
}

#[test]
fn collapses_cp_underscore() {
    assert_eq!(normalize_encoding_name("cp_1257"), "cp1257");
    assert_eq!(normalize_encoding_name("CP-1252"), "cp1252");
    assert_eq!(normalize_lowered("cp_8_6_6"), "cp866");
}

#[test]
fn passes_unknown_names_through() {
    assert_eq!(normalize_encoding_name("Foo-Bar"), "foo_bar");
    assert_eq!(normalize_lowered("iso-8859-15"), "iso_8859_15");
    assert_eq!(normalize_lowered(""), "");
}

#[test]
fn normalize_lowered_maps_table() {
    assert_eq!(normalize_lowered("shift_jis_2004"), "shift_jis");
    assert_eq!(normalize_lowered("latin1"), "latin_1");
    assert_eq!(normalize_lowered("windows-1250"), "cp1250");
}

#[test]
fn korean_names_become_windows_949() {
    assert_eq!(prefer_windows_949("EUC-KR".to_string()), "windows-949");
    assert_eq!(prefer_windows_949("euc_kr".to_string()), "windows-949");
    assert_eq!(prefer_windows_949("UTF-8".to_string()), "UTF-8");
}

#[test]
fn remaps_latin_guess_by_turkish_hint() {
    assert_eq!(remap_guess("windows_1252", NONE), Label::Windows1252);
    let turkish = ByteHints { likely_turkish: true, ..NONE };
    assert_eq!(remap_guess("iso_8859_1", turkish), Label::Windows1254);
}

#[test]
fn remaps_cyrillic_guess_by_hints() {
    assert_eq!(remap_guess("iso_8859_5", NONE), Label::Windows1251);
    let arabic = ByteHints { likely_arabic: true, ..NONE };
    assert_eq!(remap_guess("windows_1251", arabic), Label::Windows1256);
    let mac = ByteHints { likely_mac_cyrillic: true, ..NONE };
    assert_eq!(remap_guess("cp1251", mac), Label::XMacCyrillic);
}

#[test]
fn remaps_other_guesses() {
    assert_eq!(remap_guess("ascii", NONE), Label::Utf8);
    assert_eq!(remap_guess("big_5", NONE), Label::Big5);
    assert_eq!(remap_guess("gb2312", NONE), Label::Gbk);
    assert_eq!(remap_guess("euc_kr", NONE), Label::Windows949);
    assert_eq!(remap_guess("ks_c_5601_1987", NONE), Label::Windows949);
    assert_eq!(remap_guess("cp932", NONE), Label::ShiftJis);
    assert_eq!(remap_guess("euc_jp", NONE), Label::EucJp);
    assert_eq!(remap_guess("x_mac_cyrillic", NONE), Label::XMacCyrillic);
    assert_eq!(remap_guess("koi8r", NONE), Label::Koi8R);
    assert_eq!(remap_guess("iso_8859_7", NONE), Label::Windows1253);
    assert_eq!(remap_guess("something_else", NONE), Label::Utf8);
}

#[test]
fn seed_from_raw_guess_lowers_and_respells() {
    assert_eq!(seed_from_guess("EUC-KR", NONE), Label::Windows949);
    assert_eq!(seed_from_guess("ISO-8859-7", NONE), Label::Windows1253);
    assert_eq!(seed_from_guess("MacCyrillic", NONE), Label::Utf8);
}

#[test]
fn candidates_start_with_seed_without_repeats() {
    let c = candidate_list(Label::Windows949);
    assert_eq!(c.len(), 18);
    assert_eq!(c[0], Label::Windows949);
    assert_eq!(c[1], Label::Utf8);
    assert_eq!(c.iter().filter(|l| **l == Label::Windows949).count(), 1);
    assert_eq!(c[17], Label::Iso88591);
}

#[test]
fn candidates_for_a_seed_outside_the_fallbacks() {
    let c = candidate_list(Label::Utf16Le);
    assert_eq!(c.len(), 19);
    assert_eq!(c[0], Label::Utf16Le);
    assert_eq!(c[1], Label::Utf8);
    assert_eq!(c[2], Label::XMacCyrillic);
    assert_eq!(c[15], Label::EucKr);
}

#[test]
fn label_texts() {
    assert_eq!(Label::Windows949.text(), "windows-949");
    assert_eq!(Label::XMacCyrillic.text(), "x-mac-cyrillic");
    assert_eq!(Label::ShiftJis.text(), "shift_jis");
}
