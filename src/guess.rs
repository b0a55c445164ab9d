use vstd::prelude::*;

use crate::hints::ByteHints;
use crate::labels::Label;
use crate::text::{lower_of, lowercase, replace_char, replaced, same_text};

verus! {

/// The label that a base guess stands for, given the byte hints; `d` is the
/// guess lower-cased with hyphens made underscores. Unknown guesses fall back
/// to UTF-8.
pub open spec fn remapped_guess(d: Seq<char>, hints: ByteHints) -> Label {
    if d == "utf_8"@ || d == "utf8"@ || d == "ascii"@ {
        Label::Utf8
    } else if d == "big5"@ || d == "big_5"@ {
        Label::Big5
    } else if d == "gb2312"@ || d == "gb_2312"@ || d == "gbk"@ {
        Label::Gbk
    } else if d == "windows_1252"@ || d == "cp1252"@ || d == "iso_8859_1"@ {
        if hints.likely_turkish {
            Label::Windows1254
        } else {
            Label::Windows1252
        }
    } else if d == "windows_1256"@ || d == "cp1256"@ || d == "iso_8859_6"@ {
        Label::Windows1256
    } else if d == "windows_1255"@ || d == "cp1255"@ || d == "iso_8859_8"@ {
        Label::Windows1255
    } else if d == "windows_1253"@ || d == "cp1253"@ || d == "iso_8859_7"@ {
        Label::Windows1253
    } else if d == "windows_1251"@ || d == "cp1251"@ || d == "iso_8859_5"@ {
        if hints.likely_arabic {
            Label::Windows1256
        } else if hints.likely_mac_cyrillic {
            Label::XMacCyrillic
        } else {
            Label::Windows1251
        }
    } else if d == "windows_1254"@ || d == "cp1254"@ || d == "iso_8859_9"@ {
        Label::Windows1254
    } else if d == "windows_1250"@ || d == "cp1250"@ || d == "iso_8859_2"@ {
        Label::Windows1250
    } else if d == "euc_kr"@ || d == "cp949"@ || d == "windows_949"@ || d == "ks_c_5601_1987"@ {
        Label::Windows949
    } else if d == "shift_jis"@ || d == "shift_jisx0213"@ || d == "cp932"@ {
        Label::ShiftJis
    } else if d == "euc_jp"@ {
        Label::EucJp
    } else if d == "mac_cyrillic"@ || d == "x_mac_cyrillic"@ {
        Label::XMacCyrillic
    } else if d == "koi8_r"@ || d == "koi8r"@ {
        Label::Koi8R
    } else {
        Label::Utf8
    }
}

/// The guess as the remapping table spells it: lower-cased, hyphens made underscores.
pub open spec fn guess_spelling(guess: Seq<char>) -> Seq<char> {
    replaced(lower_of(guess), '-', "_"@)
}

/// Maps a base guess, already spelled as the table expects, to a label.
pub fn remap_guess(detected: &str, hints: ByteHints) -> (r: Label)
    ensures
        r == remapped_guess(detected@, hints),
{
    if same_text(detected, "utf_8") || same_text(detected, "utf8") || same_text(detected, "ascii") {
        return Label::Utf8;
    }
    if same_text(detected, "big5") || same_text(detected, "big_5") {
        return Label::Big5;
    }
    if same_text(detected, "gb2312") || same_text(detected, "gb_2312") || same_text(detected, "gbk") {
        return Label::Gbk;
    }
    if same_text(detected, "windows_1252") || same_text(detected, "cp1252") || same_text(detected, "iso_8859_1") {
        return if hints.likely_turkish {
            Label::Windows1254
        } else {
            Label::Windows1252
        };
    }
    if same_text(detected, "windows_1256") || same_text(detected, "cp1256") || same_text(detected, "iso_8859_6") {
        return Label::Windows1256;
    }
    if same_text(detected, "windows_1255") || same_text(detected, "cp1255") || same_text(detected, "iso_8859_8") {
        return Label::Windows1255;
    }
    if same_text(detected, "windows_1253") || same_text(detected, "cp1253") || same_text(detected, "iso_8859_7") {
        return Label::Windows1253;
    }
    if same_text(detected, "windows_1251") || same_text(detected, "cp1251") || same_text(detected, "iso_8859_5") {
        return if hints.likely_arabic {
            Label::Windows1256
        } else if hints.likely_mac_cyrillic {
            Label::XMacCyrillic
        } else {
            Label::Windows1251
        };
    }
    if same_text(detected, "windows_1254") || same_text(detected, "cp1254") || same_text(detected, "iso_8859_9") {
        return Label::Windows1254;
    }
    if same_text(detected, "windows_1250") || same_text(detected, "cp1250") || same_text(detected, "iso_8859_2") {
        return Label::Windows1250;
    }
    if same_text(detected, "euc_kr") || same_text(detected, "cp949") || same_text(detected, "windows_949") || same_text(detected, "ks_c_5601_1987") {
        return Label::Windows949;
    }
    if same_text(detected, "shift_jis") || same_text(detected, "shift_jisx0213") || same_text(detected, "cp932") {
        return Label::ShiftJis;
    }
    if same_text(detected, "euc_jp") {
        return Label::EucJp;
    }
    if same_text(detected, "mac_cyrillic") || same_text(detected, "x_mac_cyrillic") {
        return Label::XMacCyrillic;
    }
    if same_text(detected, "koi8_r") || same_text(detected, "koi8r") {
        return Label::Koi8R;
    }
    Label::Utf8
}

/// Maps a base guess as the guesser reported it to a label.
pub fn seed_from_guess(guess: &str, hints: ByteHints) -> (r: Label)
    ensures
        r == remapped_guess(guess_spelling(guess@), hints),
{
    let lowered = lowercase(guess);
    let detected = replace_char(lowered.as_str(), '-', "_");
    remap_guess(detected.as_str(), hints)
}

/// The labels tried after the seed, in order.
pub open spec fn fallback_labels() -> Seq<Label> {
    seq![
        Label::Utf8,
        Label::XMacCyrillic,
        Label::Windows1252,
        Label::Windows1256,
        Label::Windows1255,
        Label::Windows1253,
        Label::Windows1251,
        Label::Windows1254,
        Label::Windows1250,
        Label::Windows949,
        Label::Big5,
        Label::Gbk,
        Label::ShiftJis,
        Label::EucJp,
        Label::EucKr,
        Label::MacCyrillic,
        Label::Koi8R,
        Label::Iso88591,
    ]
}

/// `s` with every occurrence of `x` left out, order kept.
pub open spec fn without(s: Seq<Label>, x: Label) -> Seq<Label>
    decreases s.len(),
{
    if s.len() == 0 {
        s
    } else if s.last() == x {
        without(s.drop_last(), x)
    } else {
        without(s.drop_last(), x).push(s.last())
    }
}

/// The candidates in trial order: the seed, then each fallback that is not the seed.
pub open spec fn candidates(seed: Label) -> Seq<Label> {
    seq![seed] + without(fallback_labels(), seed)
}

/// Builds the ordered candidate list for a seed label.
pub fn candidate_list(seed: Label) -> (r: Vec<Label>)
    ensures
        r@ == candidates(seed),
{
    let fallbacks: [Label; 18] = [
        Label::Utf8,
        Label::XMacCyrillic,
        Label::Windows1252,
        Label::Windows1256,
        Label::Windows1255,
        Label::Windows1253,
        Label::Windows1251,
        Label::Windows1254,
        Label::Windows1250,
        Label::Windows949,
        Label::Big5,
        Label::Gbk,
        Label::ShiftJis,
        Label::EucJp,
        Label::EucKr,
        Label::MacCyrillic,
        Label::Koi8R,
        Label::Iso88591,
    ];
    assert(fallbacks@ =~= fallback_labels());
    let mut r: Vec<Label> = Vec::new();
    r.push(seed);
    let mut i: usize = 0;
    while i < 18
        invariant
            i <= 18,
            fallbacks@ == fallback_labels(),
            r@ == seq![seed] + without(fallback_labels().take(i as int), seed),
        decreases 18 - i,
    {
        let l = fallbacks[i];
        assert(fallback_labels().take(i + 1).drop_last() =~= fallback_labels().take(i as int));
        if l != seed {
            r.push(l);
        }
        i = i + 1;
    }
    assert(fallback_labels().take(18) =~= fallback_labels());
    r
}

/// Leaving an item out of a list without repeats keeps it without repeats,
/// and the item no longer occurs.
pub proof fn lemma_without_unique(s: Seq<Label>, x: Label)
    requires
        s.no_duplicates(),
    ensures
        without(s, x).no_duplicates(),
        !without(s, x).contains(x),
        forall|y: Label| #[trigger] without(s, x).contains(y) ==> s.contains(y),
    decreases s.len(),
{
    if s.len() > 0 {
        let p = s.drop_last();
        assert(p.no_duplicates());
        lemma_without_unique(p, x);
        assert forall|y: Label| #[trigger] without(s, x).contains(y) implies s.contains(y) by {
            if without(p, x).contains(y) {
                let k = choose|k: int| 0 <= k < without(p, x).len() && without(p, x)[k] == y;
                assert(p.contains(y));
                let j = choose|j: int| 0 <= j < p.len() && p[j] == y;
                assert(s[j] == y);
            } else {
                assert(y == s.last());
            }
        }
        if s.last() != x {
            assert(!p.contains(s.last()));
            assert(!without(p, x).contains(s.last()));
        }
    }
}

/// The candidate list never holds a label twice.
pub proof fn lemma_candidates_unique(seed: Label)
    ensures
        candidates(seed).no_duplicates(),
{
    let f = fallback_labels();
    assert(f.no_duplicates());
    lemma_without_unique(f, seed);
    let w = without(f, seed);
    let c = candidates(seed);
    assert forall|i: int, j: int| 0 <= i < c.len() && 0 <= j < c.len() && i != j implies c[i]
        != c[j] by {
        if i > 0 && j > 0 {
            assert(c[i] == w[i - 1]);
            assert(c[j] == w[j - 1]);
        } else if i == 0 {
            assert(c[j] == w[j - 1]);
        } else {
            assert(c[i] == w[i - 1]);
        }
    }
}

} // verus!
