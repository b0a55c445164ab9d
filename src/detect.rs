use vstd::prelude::*;
use vstd::slice::slice_subrange;

use crate::codec::{chardet_guess, codec_name, decode_with_label, decoding, guess_charset};
use crate::guess::{candidate_list, candidates, guess_spelling, remapped_guess, seed_from_guess};
use crate::hints::{analyze_byte_patterns, byte_hints, ByteHints};
use crate::labels::Label;
use crate::newline::{classify_newlines, newline_style, NewlineStyle};
use crate::normalize::{
    lemma_normalized_nonempty, normalize_encoding_name, normalize_lowered, normalized_form,
    normalized_name,
};
use crate::scoring::{
    pick, score_trial, scored_of, trial_beats, trial_ends_search, Scored,
    MAX_TRIAL_CHARS,
};
use crate::sniff::{
    bom_of, detect_utf16_pattern, escaped_ascii, is_escaped_ascii, sniff_bom, utf16_layout,
};
use crate::text::{chars_of, lower_of, lowercase, mentions, text_contains};

verus! {

/// Why a sample could not be analyzed.
#[derive(Clone, Debug, PartialEq, Eq)]
pub enum DetectError {
    /// The source could not be opened; the message says why.
    SourceUnavailable(String),
    /// Reading the source failed part way; the message says why.
    SourceReadFailure(String),
    /// The source held no bytes.
    EmptySource,
}

/// The outcome of an analysis.
#[derive(Clone, Debug)]
pub struct CharsetMatch {
    /// The canonical identifier of the detected encoding.
    pub encoding: String,
    /// The line-ending convention of the sample.
    pub newlines: NewlineStyle,
    /// The sample that was analyzed.
    pub raw_bytes: Vec<u8>,
    /// The sample as the winning candidate decoded it.
    pub decoded_text: String,
}

/// The label that the decode trials start from: the byte-order mark's, else a
/// mark-less UTF-16 layout, else the base guess remapped by the byte hints.
/// Escaped seven-bit text starts from UTF-8: the base guesser can name it only
/// as an ISO-2022 or HZ charset, which the remapping table does not know.
pub open spec fn seed_of(s: Seq<u8>) -> Label {
    match bom_of(s) {
        Some((l, _)) => l,
        None => match utf16_layout(s) {
            Some(l) => l,
            None => if escaped_ascii(s) {
                Label::Utf8
            } else {
                remapped_guess(guess_spelling(chardet_guess(s)), byte_hints(s))
            },
        },
    }
}

/// The bytes that are decoded: the sample without its byte-order mark.
pub open spec fn body_of(s: Seq<u8>) -> Seq<u8> {
    match bom_of(s) {
        Some((_, k)) => s.subrange(k as int, s.len() as int),
        None => s,
    }
}

/// The scored trial of one candidate, or `None` where the codec does not know
/// the label or the decoded text is too long to score.
pub open spec fn trial_of(label: Label, seed: Label, body: Seq<u8>, hints: ByteHints) -> Option<
    Scored,
> {
    if codec_name(label.spec_text()) is None {
        None
    } else {
        let d = decoding(label.spec_text(), body);
        if d.0.len() > MAX_TRIAL_CHARS {
            None
        } else {
            Some(scored_of(label, seed, d.0, d.1, hints))
        }
    }
}

/// The trials of all candidates of a seed, in candidate order.
pub open spec fn trials_for(seed: Label, body: Seq<u8>, hints: ByteHints) -> Seq<Option<Scored>> {
    candidates(seed).map_values(|l: Label| trial_of(l, seed, body, hints))
}

/// The winning trial of a sample, if any candidate could be decoded.
pub open spec fn winner(s: Seq<u8>) -> Option<Scored> {
    pick(trials_for(seed_of(s), body_of(s), byte_hints(s)), 0, None)
}

/// The codec name of the winner, UTF-8 where there is none.
pub open spec fn winner_name(s: Seq<u8>) -> Seq<char> {
    match winner(s) {
        Some(w) => match codec_name(w.label.spec_text()) {
            Some(n) => n,
            None => "UTF-8"@,
        },
        None => "UTF-8"@,
    }
}

/// EUC-KR, in any case or spelling, is reported as its superset windows-949.
pub open spec fn korean_canonical(name: Seq<char>) -> Seq<char> {
    if mentions(lower_of(name), "euc-kr"@) || mentions(lower_of(name), "euc_kr"@) {
        "windows-949"@
    } else {
        name
    }
}

/// The lower-case name that a byte-order mark fixes.
pub open spec fn bom_identifier(l: Label) -> Seq<char> {
    match l {
        Label::Utf16Le => "utf_16le"@,
        Label::Utf16Be => "utf_16be"@,
        Label::Utf32Le => "utf_32le"@,
        Label::Utf32Be => "utf_32be"@,
        _ => "utf_8"@,
    }
}

/// The detected encoding's identifier: fixed by a byte-order mark where there
/// is one, else the normalized name of the winning codec.
pub open spec fn detected_encoding(s: Seq<u8>) -> Seq<char> {
    match bom_of(s) {
        Some((l, _)) => normalized_form(bom_identifier(l)),
        None => normalized_name(korean_canonical(winner_name(s))),
    }
}

/// The text of the winning trial, empty where there is none.
pub open spec fn detected_text(s: Seq<u8>) -> Seq<char> {
    match winner(s) {
        Some(w) => decoding(w.label.spec_text(), body_of(s)).0,
        None => Seq::empty(),
    }
}

/// What an analysis of `s` returns: an empty sample is refused, any other
/// yields its detected encoding, line endings and decoded text.
pub open spec fn analysis_outcome(s: Seq<u8>, r: Result<CharsetMatch, DetectError>) -> bool {
    if s.len() == 0 {
        r == Err::<CharsetMatch, DetectError>(DetectError::EmptySource)
    } else {
        match r {
            Ok(m) => m.raw_bytes@ == s && m.newlines == newline_style(s) && m.encoding@
                == detected_encoding(s) && m.decoded_text@ == detected_text(s),
            Err(_) => false,
        }
    }
}

fn bom_identifier_text(l: Label) -> (r: &'static str)
    ensures
        r@ == bom_identifier(l),
{
    match l {
        Label::Utf16Le => "utf_16le",
        Label::Utf16Be => "utf_16be",
        Label::Utf32Le => "utf_32le",
        Label::Utf32Be => "utf_32be",
        _ => "utf_8",
    }
}

fn seed_and_skip(bytes: &[u8], hints: ByteHints) -> (r: (Label, usize))
    requires
        hints == byte_hints(bytes@),
    ensures
        r.0 == seed_of(bytes@),
        r.1 <= bytes@.len(),
        bytes@.subrange(r.1 as int, bytes@.len() as int) == body_of(bytes@),
{
    match sniff_bom(bytes) {
        Some((l, k)) => (l, k),
        None => {
            assert(bytes@.subrange(0, bytes@.len() as int) =~= bytes@);
            match detect_utf16_pattern(bytes) {
                Some(l) => (l, 0),
                None => if is_escaped_ascii(bytes) {
                    (Label::Utf8, 0)
                } else {
                    let guess = guess_charset(bytes);
                    (seed_from_guess(guess.as_str(), hints), 0)
                },
            }
        },
    }
}

/// Decodes and scores one candidate, keeping the codec's name and the text.
fn run_trial(label: Label, seed: Label, body: &[u8], hints: ByteHints) -> (r: Option<
    (Scored, String, String),
>)
    requires
        body@.len() <= usize::MAX / 4,
    ensures
        match r {
            None => trial_of(label, seed, body@, hints) is None,
            Some((t, name, text)) => trial_of(label, seed, body@, hints) == Some(t)
                && t.well_formed() && codec_name(label.spec_text()) == Some(name@) && name@.len()
                > 0 && text@ == decoding(label.spec_text(), body@).0,
        },
{
    match decode_with_label(label.text(), body) {
        None => None,
        Some((name, text, had_errors)) => {
            let chars = chars_of(text.as_str());
            if chars.len() as u64 > MAX_TRIAL_CHARS {
                return None;
            }
            let t = score_trial(label, seed, &chars, had_errors, hints);
            Some((t, name, text))
        },
    }
}

/// Runs the decode trials in candidate order and keeps the best, stopping at
/// the first best trial that ends the search.
fn best_trial(seed: Label, body: &[u8], hints: ByteHints) -> (r: Option<(Scored, String, String)>)
    requires
        body@.len() <= usize::MAX / 4,
    ensures
        match r {
            None => pick(trials_for(seed, body@, hints), 0, None) is None,
            Some((w, name, text)) => pick(trials_for(seed, body@, hints), 0, None) == Some(w)
                && codec_name(w.label.spec_text()) == Some(name@) && name@.len() > 0 && text@
                == decoding(w.label.spec_text(), body@).0,
        },
{
    let cands = candidate_list(seed);
    let ghost trials = trials_for(seed, body@, hints);
    let mut best: Option<(Scored, String, String)> = None;
    let mut i: usize = 0;
    while i < cands.len()
        invariant
            cands@ == candidates(seed),
            trials == trials_for(seed, body@, hints),
            trials.len() == cands@.len(),
            i <= cands@.len(),
            body@.len() <= usize::MAX / 4,
            match best {
                None => pick(trials, 0, None) == pick(trials, i as nat, None),
                Some((b, name, text)) => pick(trials, 0, None) == pick(trials, i as nat, Some(b))
                    && b.well_formed() && codec_name(b.label.spec_text()) == Some(name@)
                    && name@.len() > 0 && text@ == decoding(b.label.spec_text(), body@).0,
            },
        decreases cands@.len() - i,
    {
        let label = cands[i];
        assert(trials[i as int] == trial_of(label, seed, body@, hints));
        match run_trial(label, seed, body, hints) {
            None => {},
            Some((t, name, text)) => {
                let better = match &best {
                    None => true,
                    Some((b, _, _)) => trial_beats(&t, b),
                };
                if better {
                    let stop = trial_ends_search(&t);
                    best = Some((t, name, text));
                    if stop {
                        return best;
                    }
                }
            },
        }
        i = i + 1;
    }
    best
}

/// Reports an EUC-KR codec name as windows-949.
pub fn prefer_windows_949(name: String) -> (r: String)
    ensures
        r@ == korean_canonical(name@),
        name@.len() > 0 ==> r@.len() > 0,
{
    let lowered = lowercase(name.as_str());
    if text_contains(lowered.as_str(), "euc-kr") || text_contains(lowered.as_str(), "euc_kr") {
        proof {
            reveal_strlit("windows-949");
        }
        String::from_str("windows-949")
    } else {
        name
    }
}

/// Detects the encoding and line-ending style of a byte sample.
pub fn analyze(sample: Vec<u8>) -> (r: Result<CharsetMatch, DetectError>)
    requires
        sample@.len() <= usize::MAX / 4,
    ensures
        analysis_outcome(sample@, r),
        r matches Ok(m) ==> m.encoding@.len() > 0 && exists|l: Seq<char>|
            m.encoding@ == normalized_form(l),
{
    if sample.len() == 0 {
        return Err(DetectError::EmptySource);
    }
    let ghost s = sample@;
    let bytes = sample.as_slice();
    let newlines = classify_newlines(bytes);
    let hints = analyze_byte_patterns(bytes);
    let (seed, skip) = seed_and_skip(bytes, hints);
    let body = slice_subrange(bytes, skip, bytes.len());
    let best = best_trial(seed, body, hints);
    let (name, text) = match best {
        Some((_, name, text)) => (name, text),
        None => {
            proof {
                reveal_strlit("UTF-8");
            }
            (String::from_str("UTF-8"), String::new())
        },
    };
    assert(name@ == winner_name(s));
    assert(text@ == detected_text(s));
    let encoding = match sniff_bom(bytes) {
        Some((l, _)) => {
            let id = bom_identifier_text(l);
            proof {
                lemma_bom_identifier_nonempty(l);
                lemma_normalized_nonempty(id@);
            }
            normalize_lowered(id)
        },
        None => {
            let preferred = prefer_windows_949(name);
            let e = normalize_encoding_name(preferred.as_str());
            proof {
                assert(e@ == normalized_form(lower_of(preferred@)));
            }
            e
        },
    };
    Ok(CharsetMatch { encoding, newlines, raw_bytes: sample, decoded_text: text })
}

proof fn lemma_bom_identifier_nonempty(l: Label)
    ensures
        bom_identifier(l).len() > 0,
{
    reveal_strlit("utf_16le");
    reveal_strlit("utf_16be");
    reveal_strlit("utf_32le");
    reveal_strlit("utf_32be");
    reveal_strlit("utf_8");
}

} // verus!
