//! Heuristic detection of a byte sample's text encoding and line-ending style.
mod codec;
mod counting;
mod detect;
mod guess;
mod hints;
mod labels;
mod laws;
mod newline;
mod normalize;
mod scoring;
mod sniff;
mod text;

pub use counting::count_matching;
pub use labels::Label;
pub use newline::{classify_newlines, newline_style, NewlineStyle};
pub use sniff::{
    bom_of, detect_utf16_pattern, escaped_ascii, is_escaped_ascii, sniff_bom, utf16_layout,
};
pub use hints::{
    analyze_byte_patterns, byte_hints, detect_language_hints, language_hints, ByteHints,
    LanguageHints,
};
pub use normalize::{
    canonical_of, normalize_encoding_name, normalize_lowered, normalized_form, normalized_name,
};
pub use guess::{
    candidate_list, candidates, fallback_labels, guess_spelling, lemma_candidates_unique,
    remap_guess, remapped_guess, seed_from_guess,
};
pub use codec::{chardet_guess, codec_name, decoding};
pub use scoring::{
    beats, bonus_of, candidate_bonus, ends_search, pick, score_trial, scored_of, select_best,
    trial_beats, trial_ends_search, Scored, MAX_TRIAL_CHARS,
};
pub use detect::{
    analysis_outcome, analyze, body_of, detected_encoding, detected_text, prefer_windows_949,
    seed_of, trial_of, trials_for, winner, winner_name, CharsetMatch, DetectError,
};
pub use text::{lower_of, mentions, replaced};
pub use laws::{lemma_analysis_repeatable, lemma_utf8_bom_fixes_encoding};
