//! Reading the duration and size arguments: the unit suffix and, for sizes,
//! the number. A duration's number may be fractional; reading it is left to
//! the caller, which gets it back as text.
use vstd::prelude::*;
use vstd::string::*;
use crate::error::TimeoutError;
use crate::text::{alphabetic, decimal_u64, is_alphabetic, parse_decimal, trim_of, trim_text};

verus! {

/// A duration argument split into its number, still as text, and the number
/// of seconds its unit stands for.
#[derive(Debug, Clone, PartialEq, Eq)]
pub struct DurationParts {
    pub value: String,
    pub multiplier: u64,
}

/// The seconds a duration suffix stands for.
pub open spec fn time_unit(c: char) -> Option<u64> {
    if c == 's' {
        Some(1)
    } else if c == 'm' {
        Some(60)
    } else if c == 'h' {
        Some(3600)
    } else if c == 'd' {
        Some(86400)
    } else {
        None
    }
}

/// The bytes a size suffix stands for, in either case.
pub open spec fn size_unit(c: char) -> Option<u64> {
    if c == 'k' || c == 'K' {
        Some(1024)
    } else if c == 'm' || c == 'M' {
        Some(1048576)
    } else if c == 'g' || c == 'G' {
        Some(1073741824)
    } else {
        None
    }
}

/// The duration `t` ends in a letter that is no time unit.
pub open spec fn bad_time_suffix(t: Seq<char>) -> bool {
    t.len() > 0 && time_unit(t.last()) is None && alphabetic(t.last())
}

/// The size `t` ends in a letter that is no size unit.
pub open spec fn bad_size_suffix(t: Seq<char>) -> bool {
    t.len() > 0 && size_unit(t.last()) is None && alphabetic(t.last())
}

/// The number part of the duration `t` and its unit in seconds (1 with no unit).
pub open spec fn time_split(t: Seq<char>) -> (Seq<char>, u64) {
    if t.len() > 0 && time_unit(t.last()) is Some {
        (t.drop_last(), time_unit(t.last()).unwrap())
    } else {
        (t, 1)
    }
}

/// The number part of the size `t` and its unit in bytes (1 with no unit).
pub open spec fn size_split(t: Seq<char>) -> (Seq<char>, u64) {
    if t.len() > 0 && size_unit(t.last()) is Some {
        (t.drop_last(), size_unit(t.last()).unwrap())
    } else {
        (t, 1)
    }
}

/// `s` in single quotes.
pub open spec fn quoted(s: Seq<char>) -> Seq<char> {
    "'"@ + s + "'"@
}

/// The last character of `t` and the text before it.
fn split_last(t: &str) -> (r: (char, String))
    requires
        t@.len() > 0,
    ensures
        r.0 == t@.last(),
        r.1@ == t@.drop_last(),
{
    let n = t.unicode_len();
    let c = t.get_char(n - 1);
    let head = t.substring_char(0, n - 1);
    (c, String::from_str(head))
}

/// `pre` followed by `s` in single quotes.
fn quote_in(pre: &str, s: &str) -> (r: String)
    ensures
        r@ == pre@ + quoted(s@),
{
    let r = String::from_str(pre).concat("'").concat(s).concat("'");
    proof {
        assert(r@ =~= pre@ + quoted(s@));
    }
    r
}

/// A duration argument, already trimmed, split into its number and unit.
/// A trailing 's', 'm', 'h' or 'd' is the unit; any other trailing letter is
/// refused; without a letter the unit is seconds.
pub fn split_duration(t: &str) -> (r: Result<DurationParts, TimeoutError>)
    ensures
        bad_time_suffix(t@) ==> (r matches Err(TimeoutError::InvalidDuration { input, reason })
            && input@ == t@
            && reason@ == "invalid time suffix "@ + quoted(seq![t@.last()])),
        !bad_time_suffix(t@) ==> (r matches Ok(p)
            && p.value@ == time_split(t@).0
            && p.multiplier == time_split(t@).1),
{
    let n = t.unicode_len();
    if n == 0 {
        return Ok(DurationParts { value: String::from_str(t), multiplier: 1 });
    }
    let (last, head) = split_last(t);
    let multiplier: u64 = if last == 's' {
        1
    } else if last == 'm' {
        60
    } else if last == 'h' {
        3600
    } else if last == 'd' {
        86400
    } else if is_alphabetic(last) {
        let suffix = t.substring_char(n - 1, n);
        assert(suffix@ =~= seq![t@.last()]);
        return Err(
            TimeoutError::InvalidDuration {
                input: String::from_str(t),
                reason: quote_in("invalid time suffix ", suffix),
            },
        );
    } else {
        return Ok(DurationParts { value: String::from_str(t), multiplier: 1 });
    };
    Ok(DurationParts { value: head, multiplier })
}

/// Reads a duration argument after trimming it: see `split_duration`.
pub fn parse_duration(input: &str) -> (r: Result<DurationParts, TimeoutError>)
    ensures
        bad_time_suffix(trim_of(input@)) ==> (r matches Err(TimeoutError::InvalidDuration { input: i, reason })
            && i@ == trim_of(input@)
            && reason@ == "invalid time suffix "@ + quoted(seq![trim_of(input@).last()])),
        !bad_time_suffix(trim_of(input@)) ==> (r matches Ok(p)
            && p.value@ == time_split(trim_of(input@)).0
            && p.multiplier == time_split(trim_of(input@)).1),
{
    split_duration(trim_text(input))
}

/// The bytes that a size with this number and multiplier stands for, if the
/// number is a decimal and the product fits.
pub open spec fn size_value(t: Seq<char>) -> Option<u64> {
    let (digits, k) = size_split(t);
    match decimal_u64(digits) {
        Some(v) => if v * k <= u64::MAX {
            Some((v * k) as u64)
        } else {
            None
        },
        None => None,
    }
}

/// A memory limit, already trimmed: a decimal number of bytes, or of KiB,
/// MiB or GiB with a trailing 'K', 'M' or 'G' in either case. Any other
/// trailing letter, a number that is not a decimal, and a size that does not
/// fit in 64 bits are refused.
pub fn memory_limit_from(t: &str) -> (r: Result<u64, TimeoutError>)
    ensures
        bad_size_suffix(t@) ==> (r matches Err(TimeoutError::InvalidMemoryLimit { input, reason })
            && input@ == t@
            && reason@ == "invalid size suffix "@ + quoted(seq![t@.last()]) + " (use K, M, or G)"@),
        !bad_size_suffix(t@) ==> match size_value(t@) {
            Some(v) => r == Ok::<u64, TimeoutError>(v),
            None => (r matches Err(TimeoutError::InvalidMemoryLimit { input, .. }) && input@ == t@),
        },
        !bad_size_suffix(t@) && decimal_u64(size_split(t@).0) is None
            ==> (r matches Err(TimeoutError::InvalidMemoryLimit { reason, .. })
            && reason@ == "invalid numeric value "@ + quoted(size_split(t@).0)),
        !bad_size_suffix(t@) && decimal_u64(size_split(t@).0) is Some && size_value(t@) is None
            ==> (r matches Err(TimeoutError::InvalidMemoryLimit { reason, .. })
            && reason@ == "size does not fit in 64 bits"@),
{
    let n = t.unicode_len();
    let mut digits = String::from_str(t);
    let mut multiplier: u64 = 1;
    if n > 0 {
        let (last, head) = split_last(t);
        if last == 'k' || last == 'K' {
            digits = head;
            multiplier = 1024;
        } else if last == 'm' || last == 'M' {
            digits = head;
            multiplier = 1048576;
        } else if last == 'g' || last == 'G' {
            digits = head;
            multiplier = 1073741824;
        } else if is_alphabetic(last) {
            let suffix = t.substring_char(n - 1, n);
            assert(suffix@ =~= seq![t@.last()]);
            return Err(
                TimeoutError::InvalidMemoryLimit {
                    input: String::from_str(t),
                    reason: quote_in("invalid size suffix ", suffix).concat(" (use K, M, or G)"),
                },
            );
        }
    }
    assert(digits@ == size_split(t@).0);
    assert(multiplier == size_split(t@).1);
    match parse_decimal(digits.as_str()) {
        Some(value) => match value.checked_mul(multiplier) {
            Some(bytes) => Ok(bytes),
            None => Err(
                TimeoutError::InvalidMemoryLimit {
                    input: String::from_str(t),
                    reason: String::from_str("size does not fit in 64 bits"),
                },
            ),
        },
        None => Err(
            TimeoutError::InvalidMemoryLimit {
                input: String::from_str(t),
                reason: quote_in("invalid numeric value ", digits.as_str()),
            },
        ),
    }
}

/// Reads a memory limit after trimming it: see `memory_limit_from`.
pub fn parse_memory_limit(input: &str) -> (r: Result<u64, TimeoutError>)
    ensures
        !bad_size_suffix(trim_of(input@)) ==> match size_value(trim_of(input@)) {
            Some(v) => r == Ok::<u64, TimeoutError>(v),
            None => r is Err,
        },
        bad_size_suffix(trim_of(input@)) ==> r is Err,
        r matches Err(e) ==> (e matches TimeoutError::InvalidMemoryLimit { input: i, .. } && i@ == trim_of(input@)),
{
    memory_limit_from(trim_text(input))
}

} // verus!
