use charset_sniff::{analyze_byte_patterns, detect_language_hints, ByteHints, LanguageHints};

const NO_BYTE_HINTS: ByteHints =
    ByteHints { likely_mac_cyrillic: false, likely_arabic: false, likely_turkish: false };

#[test]
fn ascii_has_no_byte_hints() {
    assert_eq!(analyze_byte_patterns(b"Hello, world!\n"), NO_BYTE_HINTS);
    assert_eq!(analyze_byte_patterns(b""), NO_BYTE_HINTS);
}

#[test]
fn upper_high_bytes_suggest_mac_cyrillic() {
    // 6 of 10 bytes at or above 0xE0, none in 0xC0..0xE0.
    let bytes = [0xE1, 0xE2, 0xE3, 0xE4, 0xE5, 0xE6, b'a', b'b', b'c', b'd'];
    let h = analyze_byte_patterns(&bytes);
    assert!(h.likely_mac_cyrillic);
    assert!(!h.likely_arabic);
    assert!(!h.likely_turkish);
}

#[test]
fn arabic_range_suggests_arabic() {
    // 4 of 10 bytes in 0xC0..=0xE5, 1 of them upper-high.
    let bytes = [0xC1, 0xC7, 0xD3, 0xE1, b'a', b'b', b'c', b'd', b'e', b'f'];
    let h = analyze_byte_patterns(&bytes);
    assert!(!h.likely_mac_cyrillic);
    assert!(h.likely_arabic);
}

#[test]
fn exactly_fifty_five_percent_is_not_mac_cyrillic() {
    // 11 of 20 bytes upper-high: the share must exceed 55%.
    let mut bytes = vec![0xE8u8; 11];
    bytes.extend_from_slice(&[b'a'; 9]);
    let h = analyze_byte_patterns(&bytes);
    assert!(!h.likely_mac_cyrillic);
}

#[test]
fn two_turkish_markers_suggest_turkish() {
    let h = analyze_byte_patterns(&[0xFD, b'a', 0xFE, b'b', b'c', b'd', b'e', b'f', b'g', b'h']);
    assert!(h.likely_turkish);
    let h1 = analyze_byte_patterns(&[0xFD, b'a', b'b', b'c']);
    assert!(!h1.likely_turkish);
}

fn chars(s: &str) -> Vec<char> {
    s.chars().collect()
}

#[test]
fn arabic_text() {
    let h = detect_language_hints(&chars("مرحبا بالعالم"));
    assert!(h.arabic);
    assert!(!h.cyrillic);
    assert!(!h.korean);
}

#[test]
fn cyrillic_text() {
    let h = detect_language_hints(&chars("Привет, мир"));
    assert!(h.cyrillic);
    assert!(!h.arabic);
}

#[test]
fn cyrillic_suppressed_by_arabic() {
    // 5 Cyrillic and 1 Arabic of 6: Arabic share is not below 10%.
    let h = detect_language_hints(&chars("абвгдم"));
    assert!(!h.cyrillic);
}

#[test]
fn turkish_needs_three_letters() {
    assert!(detect_language_hints(&chars("ğış")).turkish);
    assert!(!detect_language_hints(&chars("ğı")).turkish);
}

#[test]
fn korean_text() {
    let h = detect_language_hints(&chars("안녕하세요"));
    assert!(h.korean);
}

#[test]
fn empty_text_has_no_hints() {
    assert_eq!(
        detect_language_hints(&Vec::new()),
        LanguageHints { arabic: false, cyrillic: false, turkish: false, korean: false }
    );
}

#[test]
fn exactly_twenty_percent_korean_is_not_korean() {
    let h = detect_language_hints(&chars("안abcd"));
    assert!(!h.korean);
    let h2 = detect_language_hints(&chars("안녕abcd"));
    assert!(h2.korean);
}
