use vstd::prelude::*;

use crate::counting::{count_matching, lemma_count_bounded};
use crate::hints::{detect_language_hints, language_hints, ByteHints, LanguageHints};
use crate::labels::Label;
use crate::text::{mentions, text_contains};

verus! {

/// Longest decoded text that is scored, in characters: four tebibytes of
/// characters, more than any sample that fits in memory decodes to.
pub const MAX_TRIAL_CHARS: u64 = 1_099_511_627_776;

/// Bonus, in hundredths, for the candidate that the guessers proposed.
pub const SEED_BONUS: i64 = 5;

/// Bonus, in hundredths, for a 1256 codec on Arabic text.
pub const ARABIC_1256_BONUS: i64 = 50;

/// Bonus, in hundredths, for a 1254 codec on Turkish text.
pub const TURKISH_1254_BONUS: i64 = 40;

/// Bonus, in hundredths, for a 949 codec on Korean text.
pub const KOREAN_949_BONUS: i64 = 40;

/// Bonus, in hundredths, for an EUC-KR codec on Korean text.
pub const KOREAN_EUC_KR_BONUS: i64 = 20;

/// Bonus, in hundredths, for a Mac Cyrillic codec on Cyrillic text.
pub const CYRILLIC_MAC_BONUS: i64 = 50;

/// Bonus, in hundredths, for a 1251 codec on Cyrillic text.
pub const CYRILLIC_1251_BONUS: i64 = 20;

/// Penalty, in hundredths, for a 1251 codec on Arabic text.
pub const ARABIC_1251_PENALTY: i64 = 50;

/// Penalty, in hundredths, for a 1256 codec on Cyrillic text.
pub const CYRILLIC_1256_PENALTY: i64 = 90;

/// Bonus, in hundredths, for a Mac Cyrillic codec when the bytes suggest it.
pub const MAC_BYTES_BONUS: i64 = 40;

/// One decode trial, scored. Its score is `1 - errors / total + bonus / 100`.
#[derive(Clone, Copy, Debug, PartialEq, Eq, Structural)]
pub struct Scored {
    /// The candidate label.
    pub label: Label,
    /// Replacement characters in the decoded text.
    pub errors: u64,
    /// Characters in the decoded text, at least one.
    pub total: u64,
    /// Sum of bonuses and penalties, in hundredths.
    pub bonus: i64,
    /// Whether the codec decoded without replacing anything.
    pub clean: bool,
}

impl Scored {
    pub open spec fn well_formed(&self) -> bool {
        1 <= self.total <= MAX_TRIAL_CHARS && self.errors <= self.total && -1000 <= self.bonus
            <= 1000
    }

    /// The score times `100 * total`.
    pub open spec fn scaled(&self) -> int {
        100 * (self.total - self.errors) + self.bonus * self.total
    }
}

/// Whether `a` replaces `b` as the best trial: a strictly greater score, or an
/// equal score with a strictly lower error ratio.
pub open spec fn beats(a: Scored, b: Scored) -> bool {
    a.scaled() * b.total > b.scaled() * a.total || (a.scaled() * b.total == b.scaled() * a.total
        && a.errors * b.total < b.errors * a.total)
}

/// A trial without replacements whose score exceeds one ends the search.
pub open spec fn ends_search(t: Scored) -> bool {
    t.clean && t.errors == 0 && t.scaled() > 100 * t.total
}

pub open spec fn improves(t: Scored, best: Option<Scored>) -> bool {
    match best {
        None => true,
        Some(b) => beats(t, b),
    }
}

/// The best of the trials from index `i` on, given the best so far; a trial
/// that is skipped is `None`. The first trial that wins and ends the search
/// is final.
pub open spec fn pick(trials: Seq<Option<Scored>>, i: nat, best: Option<Scored>) -> Option<Scored>
    decreases trials.len() - i,
{
    if i >= trials.len() {
        best
    } else {
        match trials[i as int] {
            None => pick(trials, i + 1, best),
            Some(t) => if improves(t, best) {
                if ends_search(t) {
                    Some(t)
                } else {
                    pick(trials, i + 1, Some(t))
                }
            } else {
                pick(trials, i + 1, best)
            },
        }
    }
}

/// The bonuses and penalties of a candidate, in hundredths.
pub open spec fn bonus_of(label: Label, seed: Label, lang: LanguageHints, bytes: ByteHints) -> int {
    let t = label.spec_text();
    let mac = mentions(t, "mac-cyrillic"@);
    (if label == seed {
        SEED_BONUS as int
    } else {
        0
    }) + (if lang.arabic && mentions(t, "1256"@) {
        ARABIC_1256_BONUS as int
    } else {
        0
    }) + (if lang.turkish && mentions(t, "1254"@) {
        TURKISH_1254_BONUS as int
    } else {
        0
    }) + (if lang.korean && mentions(t, "949"@) {
        KOREAN_949_BONUS as int
    } else if lang.korean && (mentions(t, "euc-kr"@) || mentions(t, "EUC-KR"@)) {
        KOREAN_EUC_KR_BONUS as int
    } else {
        0
    }) + (if lang.cyrillic && mac {
        CYRILLIC_MAC_BONUS as int
    } else if lang.cyrillic && mentions(t, "1251"@) {
        CYRILLIC_1251_BONUS as int
    } else {
        0
    }) - (if lang.arabic && mentions(t, "1251"@) {
        ARABIC_1251_PENALTY as int
    } else {
        0
    }) - (if lang.cyrillic && mentions(t, "1256"@) {
        CYRILLIC_1256_PENALTY as int
    } else {
        0
    }) + (if bytes.likely_mac_cyrillic && mac {
        MAC_BYTES_BONUS as int
    } else {
        0
    })
}

pub open spec fn replacement_count(text: Seq<char>) -> nat {
    count_matching(text, text.len() as int, |c: char| c == '\u{FFFD}')
}

/// The scored trial of a candidate whose codec decoded `text`.
pub open spec fn scored_of(
    label: Label,
    seed: Label,
    text: Seq<char>,
    had_errors: bool,
    bytes: ByteHints,
) -> Scored {
    Scored {
        label,
        errors: replacement_count(text) as u64,
        total: if text.len() == 0 {
            1
        } else {
            text.len() as u64
        },
        bonus: bonus_of(label, seed, language_hints(text), bytes) as i64,
        clean: !had_errors,
    }
}

/// Computes a candidate's bonuses and penalties, in hundredths.
#[verifier::rlimit(50)]
pub fn candidate_bonus(label: Label, seed: Label, lang: LanguageHints, bytes: ByteHints) -> (r:
    i64)
    ensures
        r == bonus_of(label, seed, lang, bytes),
        -1000 <= r <= 1000,
{
    let t = label.text();
    let mac = text_contains(t, "mac-cyrillic");
    let has_1251 = text_contains(t, "1251");
    let has_1256 = text_contains(t, "1256");
    let seed_part: i64 = if label == seed {
        SEED_BONUS
    } else {
        0
    };
    let arabic_part: i64 = if lang.arabic && has_1256 {
        ARABIC_1256_BONUS
    } else {
        0
    };
    let turkish_part: i64 = if lang.turkish && text_contains(t, "1254") {
        TURKISH_1254_BONUS
    } else {
        0
    };
    let korean_part: i64 = if lang.korean && text_contains(t, "949") {
        KOREAN_949_BONUS
    } else if lang.korean && (text_contains(t, "euc-kr") || text_contains(t, "EUC-KR")) {
        KOREAN_EUC_KR_BONUS
    } else {
        0
    };
    let cyrillic_part: i64 = if lang.cyrillic && mac {
        CYRILLIC_MAC_BONUS
    } else if lang.cyrillic && has_1251 {
        CYRILLIC_1251_BONUS
    } else {
        0
    };
    let arabic_penalty: i64 = if lang.arabic && has_1251 {
        ARABIC_1251_PENALTY
    } else {
        0
    };
    let cyrillic_penalty: i64 = if lang.cyrillic && has_1256 {
        CYRILLIC_1256_PENALTY
    } else {
        0
    };
    let bytes_part: i64 = if bytes.likely_mac_cyrillic && mac {
        MAC_BYTES_BONUS
    } else {
        0
    };
    seed_part + arabic_part + turkish_part + korean_part + cyrillic_part - arabic_penalty
        - cyrillic_penalty + bytes_part
}

/// Scores the text that a candidate's codec decoded.
pub fn score_trial(label: Label, seed: Label, text: &Vec<char>, had_errors: bool, bytes: ByteHints)
    -> (r: Scored)
    requires
        text@.len() <= MAX_TRIAL_CHARS,
    ensures
        r == scored_of(label, seed, text@, had_errors, bytes),
        r.well_formed(),
{
    let ghost t = text@;
    let n = text.len();
    let mut errors: u64 = 0;
    let mut i: usize = 0;
    while i < n
        invariant
            i <= n == t.len() <= MAX_TRIAL_CHARS,
            t == text@,
            errors == count_matching(t, i as int, |c: char| c == '\u{FFFD}'),
        decreases n - i,
    {
        proof {
            lemma_count_bounded(t, i as int, |c: char| c == '\u{FFFD}');
        }
        if text[i] == '\u{FFFD}' {
            errors = errors + 1;
        }
        i = i + 1;
    }
    proof {
        lemma_count_bounded(t, n as int, |c: char| c == '\u{FFFD}');
    }
    let total: u64 = if n == 0 {
        1
    } else {
        n as u64
    };
    let lang = detect_language_hints(text);
    let bonus = candidate_bonus(label, seed, lang, bytes);
    Scored { label, errors, total, bonus, clean: !had_errors }
}

/// Whether trial `a` replaces trial `b` as the best.
pub fn trial_beats(a: &Scored, b: &Scored) -> (r: bool)
    requires
        a.well_formed(),
        b.well_formed(),
    ensures
        r == beats(*a, *b),
{
    proof {
        lemma_scaled_bounds(*a, b.total as int);
        lemma_scaled_bounds(*b, a.total as int);
    }
    let sa = 100 * ((a.total - a.errors) as i128) + (a.bonus as i128) * (a.total as i128);
    let sb = 100 * ((b.total - b.errors) as i128) + (b.bonus as i128) * (b.total as i128);
    let left = sa * (b.total as i128);
    let right = sb * (a.total as i128);
    left > right || (left == right && (a.errors as u128) * (b.total as u128) < (b.errors as u128)
        * (a.total as u128))
}

proof fn lemma_scaled_bounds(a: Scored, m: int)
    requires
        a.well_formed(),
        1 <= m <= MAX_TRIAL_CHARS,
    ensures
        -1000 * MAX_TRIAL_CHARS <= a.bonus * a.total <= 1000 * MAX_TRIAL_CHARS,
        -2000 * MAX_TRIAL_CHARS <= a.scaled() <= 2000 * MAX_TRIAL_CHARS,
        -2000 * MAX_TRIAL_CHARS * MAX_TRIAL_CHARS <= a.scaled() * m <= 2000 * MAX_TRIAL_CHARS
            * MAX_TRIAL_CHARS,
        0 <= a.errors * m <= MAX_TRIAL_CHARS * MAX_TRIAL_CHARS,
{
    let k = MAX_TRIAL_CHARS as int;
    assert(-1000 * k <= a.bonus * a.total <= 1000 * k) by (nonlinear_arith)
        requires
            1 <= a.total <= k,
            -1000 <= a.bonus <= 1000,
    ;
    let s = a.scaled();
    assert(-2000 * k * k <= s * m <= 2000 * k * k) by (nonlinear_arith)
        requires
            -2000 * k <= s <= 2000 * k,
            1 <= m <= k,
    ;
    assert(0 <= a.errors * m <= k * k) by (nonlinear_arith)
        requires
            0 <= a.errors <= k,
            1 <= m <= k,
    ;
}

/// Whether a trial that just became the best ends the search.
pub fn trial_ends_search(t: &Scored) -> (r: bool)
    requires
        t.well_formed(),
    ensures
        r == ends_search(*t),
{
    proof {
        lemma_scaled_bounds(*t, 1);
    }
    t.clean && t.errors == 0 && (t.bonus as i128) * (t.total as i128) > 0
}

/// Picks the best of trials given in candidate order, where a skipped
/// candidate is `None`, and returns its index.
pub fn select_best(trials: &Vec<Option<Scored>>) -> (r: Option<usize>)
    requires
        forall|i: int| 0 <= i < trials@.len() ==> (#[trigger] trials@[i] matches Some(t)
            ==> t.well_formed()),
    ensures
        match r {
            None => pick(trials@, 0, None) is None,
            Some(k) => k < trials@.len() && trials@[k as int] is Some && pick(trials@, 0, None)
                == trials@[k as int],
        },
{
    let mut best: Option<usize> = None;
    let mut i: usize = 0;
    while i < trials.len()
        invariant
            i <= trials@.len(),
            forall|i: int| 0 <= i < trials@.len() ==> (#[trigger] trials@[i] matches Some(t)
                ==> t.well_formed()),
            match best {
                None => pick(trials@, 0, None) == pick(trials@, i as nat, None),
                Some(k) => k < i && trials@[k as int] is Some && pick(trials@, 0, None) == pick(
                    trials@,
                    i as nat,
                    trials@[k as int],
                ),
            },
        decreases trials@.len() - i,
    {
        if let Some(t) = &trials[i] {
            let better = match best {
                None => true,
                Some(k) => {
                    let b = trials[k].unwrap();
                    trial_beats(t, &b)
                },
            };
            if better {
                best = Some(i);
                if trial_ends_search(t) {
                    return best;
                }
            }
        }
        i = i + 1;
    }
    best
}

} // verus!
