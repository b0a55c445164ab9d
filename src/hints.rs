use vstd::prelude::*;

use crate::counting::{count_matching, lemma_count_bounded, lemma_count_none};

verus! {

/// Share of bytes in `0xE0..=0xFF`, in percent, above which Mac Cyrillic is likely.
pub const MAC_UPPER_MIN_PCT: u128 = 55;

/// Share of bytes in `0xC0..0xE0`, in percent, below which Mac Cyrillic is likely.
pub const MAC_LOWER_MAX_PCT: u128 = 35;

/// Share of bytes in `0xC0..=0xE5`, in percent, above which Arabic is likely.
pub const ARABIC_RANGE_MIN_PCT: u128 = 35;

/// Share of bytes in `0xE0..=0xFF`, in percent, below which Arabic is likely.
pub const ARABIC_UPPER_MAX_PCT: u128 = 65;

/// Number of Turkish marker bytes from which Turkish is likely.
pub const TURKISH_MARKERS_MIN: usize = 2;

/// Qualitative script hints drawn from the raw byte histogram.
#[derive(Clone, Copy, Debug, PartialEq, Eq, Structural)]
pub struct ByteHints {
    pub likely_mac_cyrillic: bool,
    pub likely_arabic: bool,
    pub likely_turkish: bool,
}

pub open spec fn is_high(b: u8) -> bool {
    b >= 0x80
}

pub open spec fn is_lower_high(b: u8) -> bool {
    0xC0 <= b < 0xE0
}

pub open spec fn is_upper_high(b: u8) -> bool {
    b >= 0xE0
}

pub open spec fn is_arabic_range(b: u8) -> bool {
    0xC0 <= b <= 0xE5
}

pub open spec fn is_turkish_marker(b: u8) -> bool {
    b == 0xF0 || b == 0xFD || b == 0xFE
}

pub open spec fn byte_count(s: Seq<u8>, f: spec_fn(u8) -> bool) -> nat {
    count_matching(s, s.len() as int, f)
}

/// The byte hints of a sample: none for pure ASCII; otherwise Mac Cyrillic
/// when the upper-high share dominates, else Arabic when the Arabic range is
/// well filled, and, independently, Turkish when marker bytes occur.
pub open spec fn byte_hints(s: Seq<u8>) -> ByteHints {
    let n = s.len();
    if byte_count(s, |b: u8| is_high(b)) == 0 {
        ByteHints { likely_mac_cyrillic: false, likely_arabic: false, likely_turkish: false }
    } else {
        let lower = byte_count(s, |b: u8| is_lower_high(b));
        let upper = byte_count(s, |b: u8| is_upper_high(b));
        let arabic = byte_count(s, |b: u8| is_arabic_range(b));
        let turkish = byte_count(s, |b: u8| is_turkish_marker(b));
        let mac = 100 * upper > MAC_UPPER_MIN_PCT * n && 100 * lower < MAC_LOWER_MAX_PCT * n;
        ByteHints {
            likely_mac_cyrillic: mac,
            likely_arabic: !mac && 100 * arabic > ARABIC_RANGE_MIN_PCT * n && 100 * upper
                < ARABIC_UPPER_MAX_PCT * n,
            likely_turkish: turkish >= TURKISH_MARKERS_MIN,
        }
    }
}

pub open spec fn no_byte_hints(h: ByteHints) -> bool {
    !h.likely_mac_cyrillic && !h.likely_arabic && !h.likely_turkish
}

/// Derives the script hints of a sample from its byte histogram alone.
pub fn analyze_byte_patterns(bytes: &[u8]) -> (r: ByteHints)
    ensures
        r == byte_hints(bytes@),
        (forall|i: int| 0 <= i < bytes@.len() ==> bytes@[i] < 0x80) ==> no_byte_hints(r),
{
    let ghost s = bytes@;
    let n = bytes.len();
    let mut high: usize = 0;
    let mut lower: usize = 0;
    let mut upper: usize = 0;
    let mut arabic: usize = 0;
    let mut turkish: usize = 0;
    let mut i: usize = 0;
    while i < n
        invariant
            i <= n == s.len(),
            s == bytes@,
            high == count_matching(s, i as int, |b: u8| is_high(b)),
            lower == count_matching(s, i as int, |b: u8| is_lower_high(b)),
            upper == count_matching(s, i as int, |b: u8| is_upper_high(b)),
            arabic == count_matching(s, i as int, |b: u8| is_arabic_range(b)),
            turkish == count_matching(s, i as int, |b: u8| is_turkish_marker(b)),
        decreases n - i,
    {
        proof {
            lemma_count_bounded(s, i as int, |b: u8| is_high(b));
            lemma_count_bounded(s, i as int, |b: u8| is_lower_high(b));
            lemma_count_bounded(s, i as int, |b: u8| is_upper_high(b));
            lemma_count_bounded(s, i as int, |b: u8| is_arabic_range(b));
            lemma_count_bounded(s, i as int, |b: u8| is_turkish_marker(b));
        }
        let b = bytes[i];
        if b >= 0x80 {
            high = high + 1;
        }
        if 0xC0 <= b && b < 0xE0 {
            lower = lower + 1;
        }
        if b >= 0xE0 {
            upper = upper + 1;
        }
        if 0xC0 <= b && b <= 0xE5 {
            arabic = arabic + 1;
        }
        if b == 0xF0 || b == 0xFD || b == 0xFE {
            turkish = turkish + 1;
        }
        i = i + 1;
    }
    proof {
        if forall|i: int| 0 <= i < s.len() ==> s[i] < 0x80 {
            assert(high == 0) by {
                if high != 0 {
                    lemma_count_zero_or_witness(s, s.len() as int, |b: u8| is_high(b));
                }
            }
        }
    }
    if high == 0 {
        return ByteHints { likely_mac_cyrillic: false, likely_arabic: false, likely_turkish: false };
    }
    let total = n as u128;
    let mac = 100 * (upper as u128) > MAC_UPPER_MIN_PCT * total && 100 * (lower as u128)
        < MAC_LOWER_MAX_PCT * total;
    let likely_arabic = !mac && 100 * (arabic as u128) > ARABIC_RANGE_MIN_PCT * total && 100 * (
    upper as u128) < ARABIC_UPPER_MAX_PCT * total;
    ByteHints {
        likely_mac_cyrillic: mac,
        likely_arabic,
        likely_turkish: turkish >= TURKISH_MARKERS_MIN,
    }
}

proof fn lemma_count_zero_or_witness<A>(s: Seq<A>, n: int, f: spec_fn(A) -> bool)
    requires
        0 <= n <= s.len(),
        count_matching(s, n, f) != 0,
    ensures
        exists|j: int| 0 <= j < n && f(#[trigger] s[j]),
    decreases n,
{
    if !f(s[n - 1]) {
        lemma_count_zero_or_witness(s, n - 1, f);
    }
}

/// Share of Arabic characters, in percent, above which the text is Arabic.
pub const ARABIC_TEXT_MIN_PCT: u128 = 30;

/// Share of Cyrillic characters, in percent, above which the text is Cyrillic.
pub const CYRILLIC_TEXT_MIN_PCT: u128 = 20;

/// Share of Arabic characters, in percent, below which Cyrillic may be reported.
pub const CYRILLIC_ARABIC_MAX_PCT: u128 = 10;

/// Number of Turkish-specific letters from which the text is Turkish.
pub const TURKISH_LETTERS_MIN: usize = 3;

/// Share of Hangul characters, in percent, above which the text is Korean.
pub const KOREAN_TEXT_MIN_PCT: u128 = 20;

/// Language hints drawn from the Unicode ranges of decoded text.
#[derive(Clone, Copy, Debug, PartialEq, Eq, Structural)]
pub struct LanguageHints {
    pub arabic: bool,
    pub cyrillic: bool,
    pub turkish: bool,
    pub korean: bool,
}

/// Arabic block and Arabic presentation forms.
pub open spec fn is_arabic_char(c: char) -> bool {
    let u = c as u32;
    (0x0600 <= u <= 0x06FF) || (0xFB50 <= u <= 0xFDFF) || (0xFE70 <= u <= 0xFEFF)
}

/// Cyrillic and Cyrillic Supplement blocks.
pub open spec fn is_cyrillic_char(c: char) -> bool {
    let u = c as u32;
    0x0400 <= u <= 0x052F
}

/// Hangul syllables, Hangul Jamo and compatibility Jamo.
pub open spec fn is_korean_char(c: char) -> bool {
    let u = c as u32;
    (0xAC00 <= u <= 0xD7AF) || (0x1100 <= u <= 0x11FF) || (0x3130 <= u <= 0x318F)
}

/// The letters g and s with breve or cedilla and the dotless and dotted i.
pub open spec fn is_turkish_letter(c: char) -> bool {
    c == '\u{11F}' || c == '\u{11E}' || c == '\u{131}' || c == '\u{130}' || c == '\u{15F}'
        || c == '\u{15E}'
}

pub open spec fn char_count(t: Seq<char>, f: spec_fn(char) -> bool) -> nat {
    count_matching(t, t.len() as int, f)
}

/// The language hints of decoded text; shares are taken of at least one character.
pub open spec fn language_hints(t: Seq<char>) -> LanguageHints {
    let total = if t.len() == 0 {
        1
    } else {
        t.len()
    };
    let arabic = char_count(t, |c: char| is_arabic_char(c));
    let cyrillic = char_count(t, |c: char| is_cyrillic_char(c));
    let turkish = char_count(t, |c: char| is_turkish_letter(c));
    let korean = char_count(t, |c: char| is_korean_char(c));
    LanguageHints {
        arabic: 100 * arabic > ARABIC_TEXT_MIN_PCT * total,
        cyrillic: 100 * cyrillic > CYRILLIC_TEXT_MIN_PCT * total && 100 * arabic
            < CYRILLIC_ARABIC_MAX_PCT * total,
        turkish: turkish >= TURKISH_LETTERS_MIN,
        korean: 100 * korean > KOREAN_TEXT_MIN_PCT * total,
    }
}

/// Infers likely languages of decoded text from the Unicode ranges it uses.
pub fn detect_language_hints(text: &Vec<char>) -> (r: LanguageHints)
    ensures
        r == language_hints(text@),
        (forall|i: int| 0 <= i < text@.len() ==> (text@[i] as u32) < 0x80) ==> !r.arabic
            && !r.cyrillic && !r.turkish && !r.korean,
{
    let ghost t = text@;
    let n = text.len();
    let mut arabic: usize = 0;
    let mut cyrillic: usize = 0;
    let mut turkish: usize = 0;
    let mut korean: usize = 0;
    let mut i: usize = 0;
    while i < n
        invariant
            i <= n == t.len(),
            t == text@,
            arabic == count_matching(t, i as int, |c: char| is_arabic_char(c)),
            cyrillic == count_matching(t, i as int, |c: char| is_cyrillic_char(c)),
            turkish == count_matching(t, i as int, |c: char| is_turkish_letter(c)),
            korean == count_matching(t, i as int, |c: char| is_korean_char(c)),
        decreases n - i,
    {
        proof {
            lemma_count_bounded(t, i as int, |c: char| is_arabic_char(c));
            lemma_count_bounded(t, i as int, |c: char| is_cyrillic_char(c));
            lemma_count_bounded(t, i as int, |c: char| is_turkish_letter(c));
            lemma_count_bounded(t, i as int, |c: char| is_korean_char(c));
        }
        let c = text[i];
        let u = c as u32;
        if (0x0600 <= u && u <= 0x06FF) || (0xFB50 <= u && u <= 0xFDFF) || (0xFE70 <= u && u
            <= 0xFEFF) {
            arabic = arabic + 1;
        }
        if 0x0400 <= u && u <= 0x052F {
            cyrillic = cyrillic + 1;
        }
        if c == '\u{11F}' || c == '\u{11E}' || c == '\u{131}' || c == '\u{130}' || c == '\u{15F}'
            || c == '\u{15E}' {
            turkish = turkish + 1;
        }
        if (0xAC00 <= u && u <= 0xD7AF) || (0x1100 <= u && u <= 0x11FF) || (0x3130 <= u && u
            <= 0x318F) {
            korean = korean + 1;
        }
        i = i + 1;
    }
    proof {
        if forall|i: int| 0 <= i < t.len() ==> (t[i] as u32) < 0x80 {
            lemma_count_none(t, n as int, |c: char| is_arabic_char(c));
            lemma_count_none(t, n as int, |c: char| is_cyrillic_char(c));
            lemma_count_none(t, n as int, |c: char| is_turkish_letter(c));
            lemma_count_none(t, n as int, |c: char| is_korean_char(c));
        }
    }
    let total: u128 = if n == 0 {
        1
    } else {
        n as u128
    };
    LanguageHints {
        arabic: 100 * (arabic as u128) > ARABIC_TEXT_MIN_PCT * total,
        cyrillic: 100 * (cyrillic as u128) > CYRILLIC_TEXT_MIN_PCT * total && 100 * (
        arabic as u128) < CYRILLIC_ARABIC_MAX_PCT * total,
        turkish: turkish >= TURKISH_LETTERS_MIN,
        korean: 100 * (korean as u128) > KOREAN_TEXT_MIN_PCT * total,
    }
}

} // verus!
