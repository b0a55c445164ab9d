use charset_sniff::{classify_newlines, NewlineStyle};

#[test]
fn only_lf_is_lf() {
    assert_eq!(classify_newlines(b"one\ntwo\nthree\n"), NewlineStyle::Lf);
}

#[test]
fn only_crlf_is_crlf() {
    assert_eq!(classify_newlines(b"one\r\ntwo\r\n"), NewlineStyle::Crlf);
}

#[test]
fn only_cr_is_cr() {
    assert_eq!(classify_newlines(b"one\rtwo\r"), NewlineStyle::Cr);
}

#[test]
fn crlf_mixed_with_lf_is_crlf() {
    assert_eq!(classify_newlines(b"one\ntwo\r\nthree\n"), NewlineStyle::Crlf);
}

#[test]
fn crlf_mixed_with_cr_is_crlf() {
    assert_eq!(classify_newlines(b"a\rb\rc\r\n"), NewlineStyle::Crlf);
}

#[test]
fn cr_followed_by_crlf_is_crlf() {
    assert_eq!(classify_newlines(b"\r\r\n"), NewlineStyle::Crlf);
}

#[test]
fn no_terminator_is_lf() {
    assert_eq!(classify_newlines(b"no line ending here"), NewlineStyle::Lf);
}

#[test]
fn empty_is_lf() {
    assert_eq!(classify_newlines(b""), NewlineStyle::Lf);
}

#[test]
fn lf_then_cr_is_lf() {
    assert_eq!(classify_newlines(b"a\nb\rc"), NewlineStyle::Lf);
}

#[test]
fn trailing_cr_is_cr() {
    assert_eq!(classify_newlines(b"abc\r"), NewlineStyle::Cr);
}

#[test]
fn newline_names() {
    assert_eq!(NewlineStyle::Crlf.name(), "CRLF");
    assert_eq!(NewlineStyle::Lf.name(), "LF");
    assert_eq!(NewlineStyle::Cr.name(), "CR");
}
