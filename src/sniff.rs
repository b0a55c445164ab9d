use vstd::prelude::*;

use crate::counting::{count_matching, lemma_count_bounded};
use crate::labels::Label;

verus! {

pub open spec fn starts_with(s: Seq<u8>, p: Seq<u8>) -> bool {
    p.len() <= s.len() && forall|i: int| 0 <= i < p.len() ==> s[i] == p[i]
}

/// The byte-order mark that opens the sample, if any, and its length. The
/// two-byte UTF-16LE mark is tested before the four-byte UTF-32LE one, so a
/// UTF-32LE mark is always read as UTF-16LE.
pub open spec fn bom_of(s: Seq<u8>) -> Option<(Label, usize)> {
    if starts_with(s, seq![0xEFu8, 0xBBu8, 0xBFu8]) {
        Some((Label::Utf8, 3usize))
    } else if starts_with(s, seq![0xFFu8, 0xFEu8]) {
        Some((Label::Utf16Le, 2usize))
    } else if starts_with(s, seq![0xFEu8, 0xFFu8]) {
        Some((Label::Utf16Be, 2usize))
    } else if starts_with(s, seq![0xFFu8, 0xFEu8, 0x00u8, 0x00u8]) {
        Some((Label::Utf32Le, 4usize))
    } else if starts_with(s, seq![0x00u8, 0x00u8, 0xFEu8, 0xFFu8]) {
        Some((Label::Utf32Be, 4usize))
    } else {
        None
    }
}

fn has_prefix(bytes: &[u8], p: &[u8]) -> (r: bool)
    ensures
        r == starts_with(bytes@, p@),
{
    if p.len() > bytes.len() {
        return false;
    }
    let mut i: usize = 0;
    while i < p.len()
        invariant
            i <= p@.len() <= bytes@.len(),
            forall|j: int| 0 <= j < i ==> bytes@[j] == p@[j],
        decreases p@.len() - i,
    {
        if bytes[i] != p[i] {
            return false;
        }
        i = i + 1;
    }
    true
}

/// Checks the fixed byte-order-mark signatures in priority order.
pub fn sniff_bom(bytes: &[u8]) -> (r: Option<(Label, usize)>)
    ensures
        r == bom_of(bytes@),
        r matches Some((_, k)) ==> k <= bytes@.len(),
{
    let utf8: [u8; 3] = [0xEFu8, 0xBBu8, 0xBFu8];
    let utf16le: [u8; 2] = [0xFFu8, 0xFEu8];
    let utf16be: [u8; 2] = [0xFEu8, 0xFFu8];
    let utf32le: [u8; 4] = [0xFFu8, 0xFEu8, 0x00u8, 0x00u8];
    let utf32be: [u8; 4] = [0x00u8, 0x00u8, 0xFEu8, 0xFFu8];
    assert(utf8@ =~= seq![0xEFu8, 0xBBu8, 0xBFu8]);
    assert(utf16le@ =~= seq![0xFFu8, 0xFEu8]);
    assert(utf16be@ =~= seq![0xFEu8, 0xFFu8]);
    assert(utf32le@ =~= seq![0xFFu8, 0xFEu8, 0x00u8, 0x00u8]);
    assert(utf32be@ =~= seq![0x00u8, 0x00u8, 0xFEu8, 0xFFu8]);
    if has_prefix(bytes, utf8.as_slice()) {
        Some((Label::Utf8, 3))
    } else if has_prefix(bytes, utf16le.as_slice()) {
        Some((Label::Utf16Le, 2))
    } else if has_prefix(bytes, utf16be.as_slice()) {
        Some((Label::Utf16Be, 2))
    } else if has_prefix(bytes, utf32le.as_slice()) {
        Some((Label::Utf32Le, 4))
    } else if has_prefix(bytes, utf32be.as_slice()) {
        Some((Label::Utf32Be, 4))
    } else {
        None
    }
}

/// Shortest sample on which a mark-less UTF-16 layout is looked for.
pub const UTF16_MIN_LEN: usize = 20;

/// Longest prefix over which zero bytes are counted.
pub const UTF16_WINDOW: usize = 1000;

pub open spec fn is_zero_at_parity(parity: int) -> spec_fn((int, u8)) -> bool {
    |p: (int, u8)| p.0 % 2 == parity && p.1 == 0u8
}

/// The number of zero bytes at offsets of the given parity among the first `n`.
pub open spec fn zeros_at_parity(s: Seq<u8>, n: int, parity: int) -> nat {
    count_matching(
        Seq::new(s.len(), |i: int| (i, s[i])),
        n,
        is_zero_at_parity(parity),
    )
}

/// UTF-16 without a mark: ASCII text in UTF-16LE has its zero bytes at odd
/// offsets, in UTF-16BE at even ones.
pub open spec fn utf16_layout(s: Seq<u8>) -> Option<Label> {
    if s.len() < UTF16_MIN_LEN {
        None
    } else {
        let m = if s.len() < UTF16_WINDOW {
            s.len() as int
        } else {
            UTF16_WINDOW as int
        };
        let threshold = m / 16;
        let even = zeros_at_parity(s, m, 0);
        let odd = zeros_at_parity(s, m, 1);
        if odd > threshold && even < threshold / 2 {
            Some(Label::Utf16Le)
        } else if even > threshold && odd < threshold / 2 {
            Some(Label::Utf16Be)
        } else {
            None
        }
    }
}

/// Looks for UTF-16 without a byte-order mark by the parity of zero bytes.
pub fn detect_utf16_pattern(bytes: &[u8]) -> (r: Option<Label>)
    ensures
        r == utf16_layout(bytes@),
{
    if bytes.len() < UTF16_MIN_LEN {
        return None;
    }
    let m: usize = if bytes.len() < UTF16_WINDOW {
        bytes.len()
    } else {
        UTF16_WINDOW
    };
    let ghost pairs = Seq::new(bytes@.len(), |i: int| (i, bytes@[i]));
    let mut even: usize = 0;
    let mut odd: usize = 0;
    let mut i: usize = 0;
    while i < m
        invariant
            i <= m <= bytes@.len(),
            m <= UTF16_WINDOW,
            pairs == Seq::new(bytes@.len(), |i: int| (i, bytes@[i])),
            even == count_matching(pairs, i as int, is_zero_at_parity(0)),
            odd == count_matching(pairs, i as int, is_zero_at_parity(1)),
        decreases m - i,
    {
        proof {
            lemma_count_bounded(pairs, i as int, is_zero_at_parity(0));
            lemma_count_bounded(pairs, i as int, is_zero_at_parity(1));
        }
        if bytes[i] == 0u8 {
            if i % 2 == 0 {
                even = even + 1;
            } else {
                odd = odd + 1;
            }
        }
        i = i + 1;
    }
    let threshold = m / 16;
    if odd > threshold && even < threshold / 2 {
        Some(Label::Utf16Le)
    } else if even > threshold && odd < threshold / 2 {
        Some(Label::Utf16Be)
    } else {
        None
    }
}

/// Seven-bit text with escape sequences: an ESC byte, and no byte with the top
/// bit set but 0xA0.
pub open spec fn escaped_ascii(s: Seq<u8>) -> bool {
    (exists|i: int| 0 <= i < s.len() && s[i] == 0x1Bu8) && (forall|i: int|
        0 <= i < s.len() ==> s[i] < 0x80 || s[i] == 0xA0)
}

/// Whether the sample is seven-bit text with escape sequences.
pub fn is_escaped_ascii(bytes: &[u8]) -> (r: bool)
    ensures
        r == escaped_ascii(bytes@),
{
    let mut saw_escape = false;
    let mut i: usize = 0;
    while i < bytes.len()
        invariant
            i <= bytes@.len(),
            saw_escape <==> exists|j: int| 0 <= j < i && bytes@[j] == 0x1Bu8,
            forall|j: int| 0 <= j < i ==> bytes@[j] < 0x80 || bytes@[j] == 0xA0,
        decreases bytes@.len() - i,
    {
        let b = bytes[i];
        if b >= 0x80 && b != 0xA0 {
            return false;
        }
        if b == 0x1B {
            saw_escape = true;
        }
        i = i + 1;
    }
    saw_escape
}

} // verus!
