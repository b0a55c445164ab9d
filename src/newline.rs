use vstd::prelude::*;

verus! {

/// The line-ending convention of a sample.
#[derive(Clone, Copy, Debug, PartialEq, Eq, Structural)]
pub enum NewlineStyle {
    Crlf,
    Lf,
    Cr,
}

impl NewlineStyle {
    /// The conventional upper-case name: `"CRLF"`, `"LF"` or `"CR"`.
    pub fn name(&self) -> (r: &'static str)
        ensures
            r@ == self.spec_name(),
    {
        match self {
            NewlineStyle::Crlf => "CRLF",
            NewlineStyle::Lf => "LF",
            NewlineStyle::Cr => "CR",
        }
    }

    pub open spec fn spec_name(&self) -> Seq<char> {
        match self {
            NewlineStyle::Crlf => "CRLF"@,
            NewlineStyle::Lf => "LF"@,
            NewlineStyle::Cr => "CR"@,
        }
    }
}

pub open spec fn crlf_at(s: Seq<u8>, i: int) -> bool {
    0 <= i && i + 1 < s.len() && s[i] == 13u8 && s[i + 1] == 10u8
}

pub open spec fn has_crlf(s: Seq<u8>) -> bool {
    exists|i: int| #[trigger] crlf_at(s, i)
}

pub open spec fn has_byte(s: Seq<u8>, b: u8) -> bool {
    exists|i: int| 0 <= i < s.len() && s[i] == b
}

/// Any `\r\n` makes the sample CRLF; otherwise a bare `\n` makes it LF, a bare
/// `\r` makes it CR, and a sample without line terminators counts as LF.
pub open spec fn newline_style(s: Seq<u8>) -> NewlineStyle {
    if has_crlf(s) {
        NewlineStyle::Crlf
    } else if has_byte(s, 10u8) {
        NewlineStyle::Lf
    } else if has_byte(s, 13u8) {
        NewlineStyle::Cr
    } else {
        NewlineStyle::Lf
    }
}

/// Classifies the dominant line-ending convention in one pass over the sample.
pub fn classify_newlines(bytes: &[u8]) -> (r: NewlineStyle)
    ensures
        r == newline_style(bytes@),
{
    let n = bytes.len();
    let mut saw_lf = false;
    let mut saw_cr = false;
    let mut i: usize = 0;
    while i < n
        invariant
            i <= n,
            n == bytes@.len(),
            forall|j: int| 0 <= j < i ==> !crlf_at(bytes@, j),
            saw_lf <==> exists|j: int| 0 <= j < i && bytes@[j] == 10u8,
            saw_cr <==> exists|j: int| 0 <= j < i && bytes@[j] == 13u8,
        decreases n - i,
    {
        let b = bytes[i];
        if b == 13u8 {
            if i + 1 < n && bytes[i + 1] == 10u8 {
                assert(crlf_at(bytes@, i as int));
                return NewlineStyle::Crlf;
            }
            saw_cr = true;
        } else if b == 10u8 {
            saw_lf = true;
        }
        i = i + 1;
    }
    if saw_lf {
        NewlineStyle::Lf
    } else if saw_cr {
        NewlineStyle::Cr
    } else {
        NewlineStyle::Lf
    }
}

/// The newline laws: a sample with any `\r\n` is CRLF (so is one that mixes
/// `\r\n` with bare `\n`); one whose only terminators are `\n` is LF; one whose
/// only terminators are `\r` is CR; and one without terminators is LF.
pub proof fn lemma_newline_laws(s: Seq<u8>)
    ensures
        has_crlf(s) ==> newline_style(s) == NewlineStyle::Crlf,
        has_byte(s, 10u8) && !has_byte(s, 13u8) ==> newline_style(s) == NewlineStyle::Lf,
        has_byte(s, 13u8) && !has_byte(s, 10u8) ==> newline_style(s) == NewlineStyle::Cr,
        !has_byte(s, 13u8) && !has_byte(s, 10u8) ==> newline_style(s) == NewlineStyle::Lf,
{
    if has_byte(s, 13u8) && !has_byte(s, 10u8) {
        assert(!has_crlf(s)) by {
            if has_crlf(s) {
                let i = choose|i: int| #[trigger] crlf_at(s, i);
                assert(s[i + 1] == 10u8);
            }
        }
    }
    if !has_byte(s, 13u8) {
        assert(!has_crlf(s)) by {
            if has_crlf(s) {
                let i = choose|i: int| #[trigger] crlf_at(s, i);
                assert(s[i] == 13u8);
            }
        }
    }
}

} // verus!
