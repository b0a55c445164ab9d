use vstd::prelude::*;

use crate::text::{
    has_prefix, lower_of, lowercase, replace_char, replaced, same_text, text_starts_with,
};

verus! {

/// The canonical identifier of a label whose hyphens are already underscores.
pub open spec fn canonical_of(n: Seq<char>) -> Seq<char> {
    if n == "utf_8"@ || n == "utf8"@ {
        "utf_8"@
    } else if n == "utf_16"@ || n == "utf16"@ {
        "utf_16"@
    } else if n == "utf_16_le"@ || n == "utf16_le"@ || n == "utf_16le"@ || n == "utf16le"@ {
        "utf_16le"@
    } else if n == "utf_16_be"@ || n == "utf16_be"@ || n == "utf_16be"@ || n == "utf16be"@ {
        "utf_16be"@
    } else if n == "iso_8859_1"@ || n == "iso8859_1"@ || n == "latin_1"@ || n == "latin1"@ {
        "latin_1"@
    } else if n == "windows_1252"@ || n == "cp_1252"@ {
        "cp1252"@
    } else if n == "windows_1256"@ || n == "cp_1256"@ {
        "cp1256"@
    } else if n == "windows_1255"@ || n == "cp_1255"@ {
        "cp1255"@
    } else if n == "windows_1253"@ || n == "cp_1253"@ {
        "cp1253"@
    } else if n == "windows_1251"@ || n == "cp_1251"@ {
        "cp1251"@
    } else if n == "windows_1254"@ || n == "cp_1254"@ {
        "cp1254"@
    } else if n == "windows_1250"@ || n == "cp_1250"@ {
        "cp1250"@
    } else if n == "windows_949"@ || n == "cp_949"@ {
        "cp949"@
    } else if n == "shift_jis"@ || n == "shift_jis_2004"@ {
        "shift_jis"@
    } else if n == "euc_jp"@ || n == "euc-jp"@ {
        "euc_jp"@
    } else if n == "euc_kr"@ || n == "euc-kr"@ {
        "euc_kr"@
    } else if n == "gb2312"@ || n == "gb_2312"@ {
        "gb2312"@
    } else if n == "gbk"@ {
        "gbk"@
    } else if n == "big5"@ {
        "big5"@
    } else if n == "macintosh"@ || n == "mac_roman"@ {
        "mac_roman"@
    } else if n == "mac_cyrillic"@ || n == "x_mac_cyrillic"@ {
        "mac_cyrillic"@
    } else if n == "koi8_r"@ || n == "koi8r"@ {
        "koi8_r"@
    } else if n == "koi8_u"@ {
        "koi8_u"@
    } else if has_prefix(n, "cp_"@) {
        replaced(n, '_', ""@)
    } else {
        n
    }
}

/// The canonical identifier of an already lower-cased label.
pub open spec fn normalized_form(lowered: Seq<char>) -> Seq<char> {
    canonical_of(replaced(lowered, '-', "_"@))
}

/// The canonical identifier of any label: lower-cased, hyphens made
/// underscores, then mapped through the table of known names.
pub open spec fn normalized_name(encoding: Seq<char>) -> Seq<char> {
    normalized_form(lower_of(encoding))
}

fn canonical_name(n: &str) -> (r: String)
    ensures
        r@ == canonical_of(n@),
{
    if same_text(n, "utf_8") || same_text(n, "utf8") {
        return String::from_str("utf_8");
    }
    if same_text(n, "utf_16") || same_text(n, "utf16") {
        return String::from_str("utf_16");
    }
    if same_text(n, "utf_16_le") || same_text(n, "utf16_le") || same_text(n, "utf_16le") || same_text(n, "utf16le") {
        return String::from_str("utf_16le");
    }
    if same_text(n, "utf_16_be") || same_text(n, "utf16_be") || same_text(n, "utf_16be") || same_text(n, "utf16be") {
        return String::from_str("utf_16be");
    }
    if same_text(n, "iso_8859_1") || same_text(n, "iso8859_1") || same_text(n, "latin_1") || same_text(n, "latin1") {
        return String::from_str("latin_1");
    }
    if same_text(n, "windows_1252") || same_text(n, "cp_1252") {
        return String::from_str("cp1252");
    }
    if same_text(n, "windows_1256") || same_text(n, "cp_1256") {
        return String::from_str("cp1256");
    }
    if same_text(n, "windows_1255") || same_text(n, "cp_1255") {
        return String::from_str("cp1255");
    }
    if same_text(n, "windows_1253") || same_text(n, "cp_1253") {
        return String::from_str("cp1253");
    }
    if same_text(n, "windows_1251") || same_text(n, "cp_1251") {
        return String::from_str("cp1251");
    }
    if same_text(n, "windows_1254") || same_text(n, "cp_1254") {
        return String::from_str("cp1254");
    }
    if same_text(n, "windows_1250") || same_text(n, "cp_1250") {
        return String::from_str("cp1250");
    }
    if same_text(n, "windows_949") || same_text(n, "cp_949") {
        return String::from_str("cp949");
    }
    if same_text(n, "shift_jis") || same_text(n, "shift_jis_2004") {
        return String::from_str("shift_jis");
    }
    if same_text(n, "euc_jp") || same_text(n, "euc-jp") {
        return String::from_str("euc_jp");
    }
    if same_text(n, "euc_kr") || same_text(n, "euc-kr") {
        return String::from_str("euc_kr");
    }
    if same_text(n, "gb2312") || same_text(n, "gb_2312") {
        return String::from_str("gb2312");
    }
    if same_text(n, "gbk") {
        return String::from_str("gbk");
    }
    if same_text(n, "big5") {
        return String::from_str("big5");
    }
    if same_text(n, "macintosh") || same_text(n, "mac_roman") {
        return String::from_str("mac_roman");
    }
    if same_text(n, "mac_cyrillic") || same_text(n, "x_mac_cyrillic") {
        return String::from_str("mac_cyrillic");
    }
    if same_text(n, "koi8_r") || same_text(n, "koi8r") {
        return String::from_str("koi8_r");
    }
    if same_text(n, "koi8_u") {
        return String::from_str("koi8_u");
    }
    if text_starts_with(n, "cp_") {
        return replace_char(n, '_', "");
    }
    String::from_str(n)
}

/// Maps an already lower-cased label to its canonical identifier.
pub fn normalize_lowered(lowered: &str) -> (r: String)
    ensures
        r@ == normalized_form(lowered@),
{
    let n = replace_char(lowered, '-', "_");
    canonical_name(n.as_str())
}

/// Maps an encoding label to its canonical identifier.
pub fn normalize_encoding_name(encoding: &str) -> (r: String)
    ensures
        r@ == normalized_name(encoding@),
        encoding@.len() > 0 ==> r@.len() > 0,
{
    let lowered = lowercase(encoding);
    proof {
        if encoding@.len() > 0 {
            lemma_normalized_nonempty(lowered@);
        }
    }
    normalize_lowered(lowered.as_str())
}

proof fn lemma_replaced_same_len(s: Seq<char>, from: char, to: Seq<char>)
    requires
        to.len() == 1,
    ensures
        replaced(s, from, to).len() == s.len(),
    decreases s.len(),
{
    if s.len() > 0 {
        lemma_replaced_same_len(s.drop_first(), from, to);
    }
}

/// The identifier of a non-empty label is never empty.
pub proof fn lemma_normalized_nonempty(lowered: Seq<char>)
    requires
        lowered.len() > 0,
    ensures
        normalized_form(lowered).len() > 0,
{
    reveal_strlit("_");
    lemma_replaced_same_len(lowered, '-', "_"@);
    let n = replaced(lowered, '-', "_"@);
    reveal_strlit("utf_8");
    reveal_strlit("utf_16");
    reveal_strlit("utf_16le");
    reveal_strlit("utf_16be");
    reveal_strlit("latin_1");
    reveal_strlit("cp1252");
    reveal_strlit("cp1256");
    reveal_strlit("cp1255");
    reveal_strlit("cp1253");
    reveal_strlit("cp1251");
    reveal_strlit("cp1254");
    reveal_strlit("cp1250");
    reveal_strlit("cp949");
    reveal_strlit("shift_jis");
    reveal_strlit("euc_jp");
    reveal_strlit("euc_kr");
    reveal_strlit("gb2312");
    reveal_strlit("gbk");
    reveal_strlit("big5");
    reveal_strlit("mac_roman");
    reveal_strlit("mac_cyrillic");
    reveal_strlit("koi8_r");
    reveal_strlit("koi8_u");
    reveal_strlit("cp_");
    if has_prefix(n, "cp_"@) {
        assert(n.subrange(0, 3)[0] == 'c');
        assert(n[0] == 'c');
        assert(replaced(n, '_', ""@).len() >= 1);
    }
}

} // verus!
