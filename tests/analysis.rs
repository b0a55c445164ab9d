use charset_sniff::{analyze, analyze_byte_patterns, detect_language_hints, DetectError, NewlineStyle};

#[test]
fn empty_source_is_refused() {
    assert_eq!(analyze(Vec::new()).unwrap_err(), DetectError::EmptySource);
}

#[test]
fn utf8_mark_with_crlf_text() {
    let mut bytes = vec![0xEF, 0xBB, 0xBF];
    bytes.extend_from_slice(b"first line\r\nsecond line\r\n");
    let m = analyze(bytes.clone()).unwrap();
    assert_eq!(m.encoding, "utf_8");
    assert_eq!(m.newlines, NewlineStyle::Crlf);
    assert_eq!(m.raw_bytes, bytes);
    assert_eq!(m.decoded_text, "first line\r\nsecond line\r\n");
}

#[test]
fn utf8_mark_fixes_encoding_whatever_follows() {
    let mut bytes = vec![0xEF, 0xBB, 0xBF];
    bytes.extend_from_slice(&[0xC7, 0xE1, 0xD3, 0xE1, 0xC7, 0xE3, 0x20, 0xDA, 0xE1, 0xED]);
    let m = analyze(bytes).unwrap();
    assert_eq!(m.encoding, "utf_8");
}

#[test]
fn pure_ascii_is_utf8() {
    let bytes = b"Just some plain ASCII text.\nNothing more.\n".to_vec();
    assert_eq!(analyze_byte_patterns(&bytes).likely_arabic, false);
    let h = analyze_byte_patterns(&bytes);
    assert!(!h.likely_mac_cyrillic && !h.likely_arabic && !h.likely_turkish);
    let chars: Vec<char> = String::from_utf8(bytes.clone()).unwrap().chars().collect();
    let l = detect_language_hints(&chars);
    assert!(!l.arabic && !l.cyrillic && !l.turkish && !l.korean);
    let m = analyze(bytes).unwrap();
    assert_eq!(m.encoding, "utf_8");
    assert_eq!(m.newlines, NewlineStyle::Lf);
    assert_eq!(m.decoded_text, "Just some plain ASCII text.\nNothing more.\n");
}

#[test]
fn korean_euc_kr_is_reported_as_cp949() {
    let text = "안녕하세요. 오늘은 날씨가 정말 좋습니다. 우리는 공원에 가서 산책을 했습니다.\n";
    let (bytes, _, unmappable) = encoding_rs::EUC_KR.encode(text);
    assert!(!unmappable);
    let m = analyze(bytes.into_owned()).unwrap();
    assert_eq!(m.encoding, "cp949");
    assert_eq!(m.decoded_text, text);
}

#[test]
fn utf8_text_round_trips() {
    let text = "日本語のテキストです。これは UTF-8 で書かれています。\r\n二行目です。\r\n";
    let m = analyze(text.as_bytes().to_vec()).unwrap();
    assert_eq!(m.encoding, "utf_8");
    assert_eq!(m.newlines, NewlineStyle::Crlf);
    assert_eq!(m.decoded_text, text);
}

#[test]
fn utf16le_mark_fixes_encoding() {
    let mut bytes = vec![0xFF, 0xFE];
    for unit in "hello\rworld".encode_utf16() {
        bytes.extend_from_slice(&unit.to_le_bytes());
    }
    let m = analyze(bytes).unwrap();
    assert_eq!(m.encoding, "utf_16le");
    assert_eq!(m.decoded_text, "hello\rworld");
}

#[test]
fn utf16le_without_mark_is_decoded() {
    let text = "plain words written as UTF-16 little endian";
    let mut bytes = Vec::new();
    for unit in text.encode_utf16() {
        bytes.extend_from_slice(&unit.to_le_bytes());
    }
    let m = analyze(bytes).unwrap();
    assert_eq!(m.encoding, "utf_16le");
    assert_eq!(m.decoded_text, text);
}

#[test]
fn utf32be_mark_fixes_encoding() {
    let bytes = vec![0x00, 0x00, 0xFE, 0xFF, 0x00, 0x00, 0x00, b'a'];
    let m = analyze(bytes).unwrap();
    assert_eq!(m.encoding, "utf_32be");
}

#[test]
fn same_sample_twice_gives_same_result() {
    let bytes = "Grüße aus Köln\n".as_bytes().to_vec();
    let a = analyze(bytes.clone()).unwrap();
    let b = analyze(bytes).unwrap();
    assert_eq!(a.encoding, b.encoding);
    assert_eq!(a.newlines, b.newlines);
    assert_eq!(a.decoded_text, b.decoded_text);
    assert_eq!(a.raw_bytes, b.raw_bytes);
}

#[test]
fn encoding_is_never_empty() {
    for sample in [&b"x"[..], &[0x80, 0x81, 0x82][..], &[0xFF][..], &[0, 0, 0, 0][..]] {
        let m = analyze(sample.to_vec()).unwrap();
        assert!(!m.encoding.is_empty());
    }
}

#[test]
fn escaped_seven_bit_text_starts_from_utf8() {
    let bytes = b"\x1b$B plain words \x1b(B and more".to_vec();
    assert!(charset_sniff::is_escaped_ascii(&bytes));
    let m = analyze(bytes).unwrap();
    assert_eq!(m.encoding, "utf_8");
    assert_eq!(m.decoded_text, "\u{1b}$B plain words \u{1b}(B and more");
}

#[test]
fn high_bytes_are_not_escaped_text() {
    assert!(!charset_sniff::is_escaped_ascii(b"\x1b\x80"));
    assert!(charset_sniff::is_escaped_ascii(b"\x1b\xa0"));
    assert!(!charset_sniff::is_escaped_ascii(b"no escape"));
}
