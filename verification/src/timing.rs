//! The timing model: how long a token stays on screen.

use vstd::prelude::*;
use vstd::string::StrSliceExecFns;
use crate::config::TimingConfig;

verus! {

/// The speed that the base delay is computed from: a speed of 0 counts as 1.
pub open spec fn effective_wpm(wpm: u32) -> int {
    if wpm == 0 {
        1
    } else {
        wpm as int
    }
}

/// 60000 / wpm, rounded to the nearest integer, a half rounded up.
pub open spec fn spec_wpm_to_milliseconds(wpm: u32) -> int {
    (120000 + effective_wpm(wpm)) / (2 * effective_wpm(wpm))
}

/// The base delay of one word in milliseconds at `wpm` words per minute.
pub fn wpm_to_milliseconds(wpm: u32) -> (ms: u64)
    ensures
        ms == spec_wpm_to_milliseconds(wpm),
        ms <= 60000,
        // `ms` is the integer nearest to 60000 / wpm, a half rounded up.
        wpm >= 1 ==> 2 * wpm * ms - wpm <= 120000 < 2 * wpm * ms + wpm,
        wpm == 0 ==> ms == 60000,
{
    let w: u64 = if wpm == 0 {
        1
    } else {
        wpm as u64
    };
    let ms: u64 = (120000 + w) / (2 * w);
    proof {
        let wi = w as int;
        let q = (120000 + wi) / (2 * wi);
        assert(q * (2 * wi) <= 120000 + wi < (q + 1) * (2 * wi)) by (nonlinear_arith)
            requires
                wi >= 1,
                q == (120000 + wi) / (2 * wi),
        ;
        assert(2 * wi * q == q * (2 * wi)) by (nonlinear_arith);
        assert((q + 1) * (2 * wi) == 2 * wi * q + 2 * wi) by (nonlinear_arith);
        assert(q <= 60000) by (nonlinear_arith)
            requires
                wi >= 1,
                q * (2 * wi) <= 120000 + wi,
        ;
        if wpm == 0 {
            assert(q == 60000);
        } else {
            assert(2 * wi * q == 2 * wpm * ms) by (nonlinear_arith)
                requires
                    wi == wpm,
                    q == ms,
            ;
        }
    }
    ms
}

/// The factor of one mark, in hundredths; a character that is no mark has
/// the factor 1.
pub open spec fn mark_multiplier(config: TimingConfig, mark: char) -> u32 {
    if mark == '.' {
        config.period_multiplier
    } else if mark == ',' {
        config.comma_multiplier
    } else if mark == '?' {
        config.question_multiplier
    } else if mark == '!' {
        config.exclamation_multiplier
    } else if mark == '\n' {
        config.newline_multiplier
    } else {
        100
    }
}

/// The largest factor among the marks, and at least 1: factors of several
/// marks are neither added nor multiplied.
pub open spec fn max_multiplier(config: TimingConfig, marks: Seq<char>) -> u32
    decreases marks.len(),
{
    if marks.len() == 0 {
        100
    } else {
        let rest = max_multiplier(config, marks.drop_last());
        let last = mark_multiplier(config, marks.last());
        if last > rest {
            last
        } else {
            rest
        }
    }
}

/// `max_multiplier` is at least 1 and at least the factor of every mark, and
/// it is 1 or the factor of one of the marks.
pub proof fn lemma_max_multiplier(config: TimingConfig, marks: Seq<char>)
    ensures
        max_multiplier(config, marks) >= 100,
        forall|i: int|
            0 <= i < marks.len() ==> max_multiplier(config, marks) >= mark_multiplier(
                config,
                #[trigger] marks[i],
            ),
        max_multiplier(config, marks) == 100 || exists|i: int|
            0 <= i < marks.len() && max_multiplier(config, marks) == mark_multiplier(
                config,
                #[trigger] marks[i],
            ),
    decreases marks.len(),
{
    if marks.len() > 0 {
        let rest = marks.drop_last();
        lemma_max_multiplier(config, rest);
        assert forall|i: int| 0 <= i < marks.len() implies max_multiplier(config, marks)
            >= mark_multiplier(config, #[trigger] marks[i]) by {
            if i < rest.len() {
                assert(marks[i] == rest[i]);
            }
        }
        if max_multiplier(config, marks) != 100 {
            if mark_multiplier(config, marks.last()) > max_multiplier(config, rest) {
                assert(marks[marks.len() - 1] == marks.last());
            } else {
                let i = choose|i: int|
                    0 <= i < rest.len() && max_multiplier(config, rest) == mark_multiplier(
                        config,
                        #[trigger] rest[i],
                    );
                assert(marks[i] == rest[i]);
            }
        }
    }
}

/// The factor of one mark under `config`.
pub fn punctuation_multiplier(config: &TimingConfig, mark: char) -> (factor: u32)
    ensures
        factor == mark_multiplier(*config, mark),
{
    if mark == '.' {
        config.period_multiplier
    } else if mark == ',' {
        config.comma_multiplier
    } else if mark == '?' {
        config.question_multiplier
    } else if mark == '!' {
        config.exclamation_multiplier
    } else if mark == '\n' {
        config.newline_multiplier
    } else {
        100
    }
}

/// The largest factor among `marks` under `config`.
pub fn max_punctuation_multiplier(config: &TimingConfig, marks: &[char]) -> (factor: u32)
    ensures
        factor == max_multiplier(*config, marks@),
{
    let mut factor: u32 = 100;
    let mut i: usize = 0;
    while i < marks.len()
        invariant
            i <= marks@.len(),
            factor == max_multiplier(*config, marks@.subrange(0, i as int)),
        decreases marks@.len() - i,
    {
        let f: u32 = punctuation_multiplier(config, marks[i]);
        proof {
            assert(marks@.subrange(0, i + 1).drop_last() =~= marks@.subrange(0, i as int));
        }
        if f > factor {
            factor = f;
        }
        i += 1;
    }
    assert(marks@.subrange(0, i as int) =~= marks@);
    factor
}

/// The factor of one mark under the default settings.
pub fn get_punctuation_multiplier(punctuation: char) -> (factor: u32)
    ensures
        factor == mark_multiplier(TimingConfig::spec_default(), punctuation),
{
    let config = TimingConfig::default();
    punctuation_multiplier(&config, punctuation)
}

/// The largest factor among the marks under the default settings.
pub fn get_max_punctuation_multiplier(punctuation_list: &[char]) -> (factor: u32)
    ensures
        factor == max_multiplier(TimingConfig::spec_default(), punctuation_list@),
{
    let config = TimingConfig::default();
    max_punctuation_multiplier(&config, punctuation_list)
}

/// The factor for the length of a word: `penalty` if it has more than
/// `threshold` characters, else 1.
pub open spec fn length_penalty(word: Seq<char>, threshold: int, penalty: u32) -> u32 {
    if word.len() > threshold {
        penalty
    } else {
        100
    }
}

/// The factor for the length of `word`, with the threshold of 10 characters.
pub fn get_word_length_penalty(word: &str, penalty_multiplier: u32) -> (factor: u32)
    ensures
        factor == length_penalty(word@, 10, penalty_multiplier),
{
    if word.unicode_len() > 10 {
        penalty_multiplier
    } else {
        100
    }
}

/// base × multiplier × penalty with both factors in hundredths, rounded to
/// the nearest integer, a half rounded up.
pub open spec fn spec_duration(base_ms: int, multiplier: int, penalty: int) -> int {
    (base_ms * multiplier * penalty + 5000) / 10000
}

/// `spec_duration`, held at the largest `u64` where it would exceed it.
pub open spec fn clamped_duration(base_ms: int, multiplier: int, penalty: int) -> int {
    if spec_duration(base_ms, multiplier, penalty) > u64::MAX {
        u64::MAX as int
    } else {
        spec_duration(base_ms, multiplier, penalty)
    }
}

/// The duration of a token from its base delay and its two factors.
pub fn scaled_duration(base_ms: u64, multiplier: u32, penalty: u32) -> (ms: u64)
    ensures
        ms == clamped_duration(base_ms as int, multiplier as int, penalty as int),
        base_ms <= 60000 && multiplier <= 1_000_000 && penalty <= 1_000_000 ==> ms
            == spec_duration(base_ms as int, multiplier as int, penalty as int),
{
    assert((multiplier as int) * (penalty as int) <= 0xFFFF_FFFF * 0xFFFF_FFFF) by (nonlinear_arith)
        requires
            0 <= multiplier <= 0xFFFF_FFFF,
            0 <= penalty <= 0xFFFF_FFFF,
    ;
    let factors: u128 = (multiplier as u128) * (penalty as u128);
    assert((base_ms as int) * (factors as int) <= 0xFFFF_FFFF_FFFF_FFFF * (0xFFFF_FFFF
        * 0xFFFF_FFFF)) by (nonlinear_arith)
        requires
            0 <= base_ms <= 0xFFFF_FFFF_FFFF_FFFF,
            0 <= factors <= 0xFFFF_FFFF * 0xFFFF_FFFF,
    ;
    let product: u128 = (base_ms as u128) * factors;
    assert(product == (base_ms as int) * (multiplier as int) * (penalty as int))
        by (nonlinear_arith)
        requires
            product == (base_ms as int) * (factors as int),
            factors == (multiplier as int) * (penalty as int),
    ;
    let rounded: u128 = (product + 5000) / 10000;
    proof {
        if base_ms <= 60000 && multiplier <= 1_000_000 && penalty <= 1_000_000 {
            assert((base_ms as int) * (multiplier as int) * (penalty as int) <= 60000 * 1_000_000
                * 1_000_000) by (nonlinear_arith)
                requires
                    0 <= base_ms <= 60000,
                    0 <= multiplier <= 1_000_000,
                    0 <= penalty <= 1_000_000,
            ;
        }
    }
    if rounded > u64::MAX as u128 {
        u64::MAX
    } else {
        rounded as u64
    }
}

/// The duration of a word with its marks at `wpm` words per minute, under
/// the default factors of the marks and a long-word factor of
/// `penalty_multiplier` hundredths.
pub open spec fn spec_word_delay(
    word: Seq<char>,
    marks: Seq<char>,
    wpm: u32,
    penalty_multiplier: u32,
) -> int {
    clamped_duration(
        spec_wpm_to_milliseconds(wpm),
        max_multiplier(TimingConfig::spec_default(), marks) as int,
        length_penalty(word, 10, penalty_multiplier) as int,
    )
}

/// How long `word`, followed by `punctuation`, stays on screen.
pub fn calculate_word_delay(
    word: &str,
    punctuation: &[char],
    wpm: u32,
    penalty_multiplier: u32,
) -> (ms: u64)
    ensures
        ms == spec_word_delay(word@, punctuation@, wpm, penalty_multiplier),
{
    let base_delay: u64 = wpm_to_milliseconds(wpm);
    let multiplier: u32 = get_max_punctuation_multiplier(punctuation);
    let penalty: u32 = get_word_length_penalty(word, penalty_multiplier);
    scaled_duration(base_delay, multiplier, penalty)
}

} // verus!
