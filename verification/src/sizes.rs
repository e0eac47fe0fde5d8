//! Parsing of human-readable size expressions into byte counts.
//!
//! A size is either a bare decimal byte count ("4096") or a unit-suffixed
//! magnitude ("64 KiB"). Unit-suffixed magnitudes are handed to the
//! `human_size` crate; bare byte counts are parsed here, and decide the
//! result exactly when the crate reports that no unit was present.

use vstd::prelude::*;
use crate::error::ConfigError;

verus! {

/// Every character of `s` is an ASCII decimal digit, and there is at least
/// one.
pub open spec fn all_dec_digits(s: Seq<char>) -> bool {
    s.len() > 0 && forall|i: int| 0 <= i < s.len() ==> '0' <= #[trigger] s[i] && s[i] <= '9'
}

/// The numeric value of a sequence of decimal digits, most significant
/// first.
pub open spec fn dec_value(s: Seq<char>) -> int
    decreases s.len(),
{
    if s.len() == 0 {
        0
    } else {
        dec_value(s.drop_last()) * 10 + (s.last() as int - '0' as int)
    }
}

/// What a bare decimal byte count parses to: its value, when `s` is all
/// digits and the value fits in a `u64`.
pub open spec fn dec_value_opt(s: Seq<char>) -> Option<u64> {
    if all_dec_digits(s) && dec_value(s) <= u64::MAX {
        Some(dec_value(s) as u64)
    } else {
        None
    }
}

/// What the `human_size` crate parses `s` to: `Ok(n)` for a unit-suffixed
/// magnitude of `n` bytes, `Err(true)` when the input carries no unit at
/// all, `Err(false)` for any other malformed input.
pub uninterp spec fn human_size_of(s: Seq<char>) -> Result<u64, bool>;

/// Relies on `human_size::Size`'s `FromStr` impl: the parse is a pure
/// function of the characters alone, and an input whose every character is
/// a decimal digit has no unit, so the parse stops with its
/// "missing multiple" error. That impl locates the unit by character
/// position but slices the input by byte index, so only ASCII input — where
/// the two coincide — is admitted; on other input the call could panic.
#[verifier::external_body]
fn parse_size_string(desc: &str) -> (r: Result<u64, bool>)
    requires
        desc.is_ascii(),
    ensures
        r == human_size_of(desc@),
        r matches Err(true) || !all_dec_digits(desc@),
{
    match desc.parse::<human_size::Size>() {
        Ok(s) => {
            let bytes: human_size::SpecificSize<human_size::Byte> = s.into();
            Ok(bytes.value() as u64)
        },
        Err(human_size::ParsingError::MissingMultiple) => Err(true),
        Err(_) => Err(false),
    }
}

/// The value of a digit sequence is never negative.
proof fn lemma_dec_value_nonneg(s: Seq<char>)
    requires
        forall|k: int| 0 <= k < s.len() ==> '0' <= #[trigger] s[k] && s[k] <= '9',
    ensures
        dec_value(s) >= 0,
    decreases s.len(),
{
    if s.len() > 0 {
        lemma_dec_value_nonneg(s.drop_last());
        assert(dec_value(s.drop_last()) * 10 >= 0) by (nonlinear_arith)
            requires
                dec_value(s.drop_last()) >= 0,
        ;
    }
}

/// Prefix values of a digit sequence never shrink: reading one more digit
/// multiplies the value by ten and adds the digit.
proof fn lemma_dec_value_prefix_monotone(s: Seq<char>, i: int, j: int)
    requires
        0 <= i <= j <= s.len(),
        forall|k: int| 0 <= k < s.len() ==> '0' <= #[trigger] s[k] && s[k] <= '9',
    ensures
        dec_value(s.subrange(0, i)) <= dec_value(s.subrange(0, j)),
    decreases j - i,
{
    if i < j {
        lemma_dec_value_prefix_monotone(s, i, j - 1);
        assert(s.subrange(0, j).drop_last() =~= s.subrange(0, j - 1));
        lemma_dec_value_nonneg(s.subrange(0, j - 1));
        assert(dec_value(s.subrange(0, j - 1)) <= dec_value(s.subrange(0, j - 1)) * 10) by (
        nonlinear_arith)
            requires
                dec_value(s.subrange(0, j - 1)) >= 0,
        ;
    }
}

/// Parses a bare decimal byte count. Returns the value exactly when every
/// character is a decimal digit and the value fits in a `u64`.
pub fn parse_dec_u64(s: &str) -> (r: Option<u64>)
    ensures
        r == dec_value_opt(s@),
{
    let len = s.unicode_len();
    if len == 0 {
        return None;
    }
    let mut value: u64 = 0;
    let mut i: usize = 0;
    while i < len
        invariant
            0 <= i <= len,
            len == s@.len(),
            forall|j: int| 0 <= j < i ==> '0' <= #[trigger] s@[j] && s@[j] <= '9',
            value == dec_value(s@.subrange(0, i as int)),
        decreases len - i,
    {
        let c = s.get_char(i);
        if !('0' <= c && c <= '9') {
            return None;
        }
        let d: u64 = (c as u8 - 48) as u64;
        assert(d == c as int - '0' as int);
        let next = match value.checked_mul(10) {
            Some(v) => v.checked_add(d),
            None => None,
        };
        match next {
            Some(v) => {
                proof {
                    assert(s@.subrange(0, i + 1).drop_last() =~= s@.subrange(0, i as int));
                }
                value = v;
            },
            None => {
                // The value overflows a u64 already at this prefix; if the
                // rest of the string is digits as well, the whole string's
                // value overflows too, and otherwise it is not a bare
                // decimal byte count at all.
                proof {
                    assert(s@.subrange(0, i + 1).drop_last() =~= s@.subrange(0, i as int));
                    assert(dec_value(s@.subrange(0, i + 1)) > u64::MAX);
                    if all_dec_digits(s@) {
                        lemma_dec_value_prefix_monotone(s@, i + 1, s@.len() as int);
                        assert(s@.subrange(0, s@.len() as int) =~= s@);
                    }
                }
                return None;
            },
        }
        i = i + 1;
    }
    proof {
        assert(s@.subrange(0, s@.len() as int) =~= s@);
    }
    Some(value)
}

/// What a human-readable size expression resolves to. Only ASCII input can
/// be a size at all; within it, the crate's parse when it succeeds, the
/// bare decimal value when the crate saw no unit, and nothing otherwise.
pub open spec fn humansized_value(s: Seq<char>) -> Option<u64> {
    if !vstd::utf8::is_ascii_chars(s) {
        None
    } else {
        match human_size_of(s) {
            Ok(n) => Some(n),
            Err(no_unit) => if no_unit {
                dec_value_opt(s)
            } else {
                None
            },
        }
    }
}

/// Parses a human-readable size expression — a unit-suffixed magnitude or a
/// bare decimal byte count — into a byte count. A string that is neither,
/// non-ASCII input included, is a configuration error carrying the
/// offending input.
pub fn parse_humansized(desc: &str) -> (r: Result<u64, ConfigError>)
    ensures
        r is Ok <==> humansized_value(desc@) is Some,
        r is Ok ==> r == Ok::<u64, ConfigError>(humansized_value(desc@).unwrap()),
        r is Err ==> (r matches Err(ConfigError::InvalidSize(v)) && v@ == desc@),
{
    if !desc.is_ascii() {
        return Err(ConfigError::InvalidSize(desc.to_owned()));
    }
    match parse_size_string(desc) {
        Ok(n) => Ok(n),
        Err(no_unit) => {
            if no_unit {
                match parse_dec_u64(desc) {
                    Some(n) => Ok(n),
                    None => Err(ConfigError::InvalidSize(desc.to_owned())),
                }
            } else {
                Err(ConfigError::InvalidSize(desc.to_owned()))
            }
        },
    }
}

} // verus!
