use vstd::prelude::*;

use crate::sniff::escaped_ascii;

verus! {

/// What `chardet::detect` names as the charset of the bytes.
pub uninterp spec fn chardet_guess(bytes: Seq<u8>) -> Seq<char>;

/// Relies on `chardet::detect`: its first item is the name of the charset that
/// the statistical model guesses for the bytes, a function of the bytes alone.
/// On escaped seven-bit text `UniversalDetector::close` reaches `unreachable!`
/// unless the escape-sequence prober recognised a charset, so such input is
/// left out.
#[verifier::external_body]
pub(crate) fn guess_charset(bytes: &[u8]) -> (r: String)
    requires
        !escaped_ascii(bytes@),
    ensures
        r@ == chardet_guess(bytes@),
{
    chardet::detect(bytes).0
}

/// The name of the codec that `encoding_rs` selects for a label, if any.
pub uninterp spec fn codec_name(label: Seq<char>) -> Option<Seq<char>>;

/// The text that the codec selected by a label decodes from the bytes, with
/// malformed sequences replaced, and whether any were.
pub uninterp spec fn decoding(label: Seq<char>, bytes: Seq<u8>) -> (Seq<char>, bool);

/// Relies on `encoding_rs::Encoding::for_label`, which resolves a label to a
/// codec or to none; on `Encoding::name`, the codec's canonical name, which is
/// never empty; and on `Encoding::decode`, which decodes the whole input with
/// malformed sequences replaced by U+FFFD and reports whether it replaced any.
/// `decode` panics only where the size of its output buffer overflows `usize`,
/// which three bytes of output per input byte cannot do under the bound.
#[verifier::external_body]
pub(crate) fn decode_with_label(label: &str, bytes: &[u8]) -> (r: Option<(String, String, bool)>)
    requires
        bytes@.len() <= usize::MAX / 4,
    ensures
        r is None <==> codec_name(label@) is None,
        r matches Some((name, text, had_errors)) ==> codec_name(label@) == Some(name@)
            && name@.len() > 0 && decoding(label@, bytes@) == (text@, had_errors),
{
    match encoding_rs::Encoding::for_label(label.as_bytes()) {
        None => None,
        Some(codec) => {
            let (text, _, had_errors) = codec.decode(bytes);
            Some((codec.name().to_string(), text.into_owned(), had_errors))
        },
    }
}

} // verus!
