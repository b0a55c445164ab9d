use vstd::prelude::*;

use crate::detect::{analysis_outcome, detected_encoding, CharsetMatch, DetectError};
use crate::normalize::{canonical_of, normalized_form};
use crate::text::replaced;

verus! {

proof fn lemma_replaced_absent(s: Seq<char>, from: char, to: Seq<char>)
    requires
        forall|i: int| 0 <= i < s.len() ==> s[i] != from,
    ensures
        replaced(s, from, to) == s,
    decreases s.len(),
{
    if s.len() > 0 {
        lemma_replaced_absent(s.drop_first(), from, to);
        assert(seq![s[0]] + s.drop_first() =~= s);
    }
}

/// A sample that opens with the UTF-8 byte-order mark is always reported as
/// `utf_8`, whatever follows the mark.
pub proof fn lemma_utf8_bom_fixes_encoding(s: Seq<u8>, r: Result<CharsetMatch, DetectError>)
    requires
        s.len() >= 3,
        s[0] == 0xEFu8,
        s[1] == 0xBBu8,
        s[2] == 0xBFu8,
        analysis_outcome(s, r),
    ensures
        r matches Ok(m) && m.encoding@ == "utf_8"@,
{
    reveal_strlit("utf_8");
    lemma_replaced_absent("utf_8"@, '-', "_"@);
    assert(canonical_of("utf_8"@) == "utf_8"@);
    assert(normalized_form("utf_8"@) == "utf_8"@);
    assert(detected_encoding(s) == "utf_8"@);
}

/// Analyzing the same sample twice gives the same result.
pub proof fn lemma_analysis_repeatable(
    s: Seq<u8>,
    r1: Result<CharsetMatch, DetectError>,
    r2: Result<CharsetMatch, DetectError>,
)
    requires
        analysis_outcome(s, r1),
        analysis_outcome(s, r2),
    ensures
        r1 is Ok <==> r2 is Ok,
        r1 is Err ==> r1 == r2,
        r1 is Ok && r2 is Ok ==> r1->Ok_0.encoding@ == r2->Ok_0.encoding@ && r1->Ok_0.newlines
            == r2->Ok_0.newlines && r1->Ok_0.raw_bytes@ == r2->Ok_0.raw_bytes@
            && r1->Ok_0.decoded_text@ == r2->Ok_0.decoded_text@,
{
}

} // verus!
