use vstd::prelude::*;

verus! {

/// An encoding label that the pipeline hands to the codec.
#[derive(Clone, Copy, Debug, PartialEq, Eq, Structural)]
pub enum Label {
    Utf8,
    Utf16Le,
    Utf16Be,
    Utf32Le,
    Utf32Be,
    XMacCyrillic,
    MacCyrillic,
    Windows1250,
    Windows1251,
    Windows1252,
    Windows1253,
    Windows1254,
    Windows1255,
    Windows1256,
    Windows949,
    Big5,
    Gbk,
    ShiftJis,
    EucJp,
    EucKr,
    Koi8R,
    Iso88591,
}

impl Label {
    pub open spec fn spec_text(&self) -> Seq<char> {
        match self {
            Label::Utf8 => "UTF-8"@,
            Label::Utf16Le => "UTF-16LE"@,
            Label::Utf16Be => "UTF-16BE"@,
            Label::Utf32Le => "UTF-32LE"@,
            Label::Utf32Be => "UTF-32BE"@,
            Label::XMacCyrillic => "x-mac-cyrillic"@,
            Label::MacCyrillic => "mac-cyrillic"@,
            Label::Windows1250 => "windows-1250"@,
            Label::Windows1251 => "windows-1251"@,
            Label::Windows1252 => "windows-1252"@,
            Label::Windows1253 => "windows-1253"@,
            Label::Windows1254 => "windows-1254"@,
            Label::Windows1255 => "windows-1255"@,
            Label::Windows1256 => "windows-1256"@,
            Label::Windows949 => "windows-949"@,
            Label::Big5 => "Big5"@,
            Label::Gbk => "GBK"@,
            Label::ShiftJis => "shift_jis"@,
            Label::EucJp => "EUC-JP"@,
            Label::EucKr => "EUC-KR"@,
            Label::Koi8R => "KOI8-R"@,
            Label::Iso88591 => "ISO-8859-1"@,
        }
    }

    /// The label's text, as the codec understands it.
    pub fn text(&self) -> (r: &'static str)
        ensures
            r@ == self.spec_text(),
    {
        match self {
            Label::Utf8 => "UTF-8",
            Label::Utf16Le => "UTF-16LE",
            Label::Utf16Be => "UTF-16BE",
            Label::Utf32Le => "UTF-32LE",
            Label::Utf32Be => "UTF-32BE",
            Label::XMacCyrillic => "x-mac-cyrillic",
            Label::MacCyrillic => "mac-cyrillic",
            Label::Windows1250 => "windows-1250",
            Label::Windows1251 => "windows-1251",
            Label::Windows1252 => "windows-1252",
            Label::Windows1253 => "windows-1253",
            Label::Windows1254 => "windows-1254",
            Label::Windows1255 => "windows-1255",
            Label::Windows1256 => "windows-1256",
            Label::Windows949 => "windows-949",
            Label::Big5 => "Big5",
            Label::Gbk => "GBK",
            Label::ShiftJis => "shift_jis",
            Label::EucJp => "EUC-JP",
            Label::EucKr => "EUC-KR",
            Label::Koi8R => "KOI8-R",
            Label::Iso88591 => "ISO-8859-1",
        }
    }
}

} // verus!
