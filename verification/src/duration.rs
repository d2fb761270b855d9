//! Duration strings such as `"500ms"`, `"1s"`, `"2m"` and `"1h"`, read as
//! milliseconds.

use vstd::prelude::*;

use crate::decimal::{bounded_decimal, parse_decimal_u64};
use crate::text::chars_of;

verus! {

/// Whether `s` ends with `suffix`.
pub open spec fn ends_with(s: Seq<char>, suffix: Seq<char>) -> bool {
    s.len() >= suffix.len() && s.skip(s.len() - suffix.len()) == suffix
}

/// The number part of a duration string and the milliseconds one unit of its
/// suffix stands for; the suffixes are tried in the order `ms`, `s`, `m`, `h`.
pub open spec fn duration_split(s: Seq<char>) -> Option<(Seq<char>, nat)> {
    if ends_with(s, seq!['m', 's']) {
        Some((s.take(s.len() - 2), 1))
    } else if ends_with(s, seq!['s']) {
        Some((s.take(s.len() - 1), 1000))
    } else if ends_with(s, seq!['m']) {
        Some((s.take(s.len() - 1), 60_000))
    } else if ends_with(s, seq!['h']) {
        Some((s.take(s.len() - 1), 3_600_000))
    } else {
        None
    }
}

/// The milliseconds a duration string stands for: a non-empty run of ASCII
/// digits followed by a unit suffix, whose product fits in a `u64`.
pub open spec fn duration_millis(s: Seq<char>) -> Option<u64> {
    match duration_split(s) {
        None => None,
        Some((number, unit)) => match bounded_decimal(number, u64::MAX as nat) {
            None => None,
            Some(v) => if v * unit <= u64::MAX {
                Some((v * unit) as u64)
            } else {
                None
            },
        },
    }
}

fn take_chars(chars: &Vec<char>, n: usize) -> (out: Vec<char>)
    requires
        n <= chars.len(),
    ensures
        out@ == chars@.take(n as int),
{
    let mut out: Vec<char> = Vec::new();
    let mut i: usize = 0;
    while i < n
        invariant
            n <= chars.len(),
            i <= n,
            out@ == chars@.take(i as int),
        decreases n - i,
    {
        out.push(chars[i]);
        i = i + 1;
        assert(out@ == chars@.take(i as int));
    }
    out
}

/// Reads a duration string as milliseconds; `None` when the suffix is not one
/// of `ms`, `s`, `m`, `h`, when the number is empty or not all digits, or when
/// the result does not fit in a `u64`.
pub fn parse_retry_duration(value: &str) -> (r: Option<u64>)
    ensures
        r == duration_millis(value@),
{
    let chars = chars_of(value);
    let n = chars.len();
    let split: Option<(usize, u64)> = if n >= 2 && chars[n - 2] == 'm' && chars[n - 1] == 's' {
        assert(chars@.skip(n - 2) == seq!['m', 's']);
        Some((n - 2, 1u64))
    } else if n >= 1 && chars[n - 1] == 's' {
        assert(!ends_with(chars@, seq!['m', 's'])) by {
            if n >= 2 {
                assert(chars@.skip(n - 2)[0] == chars@[n - 2]);
            }
        }
        assert(chars@.skip(n - 1) == seq!['s']);
        Some((n - 1, 1_000u64))
    } else if n >= 1 && chars[n - 1] == 'm' {
        assert(!ends_with(chars@, seq!['m', 's'])) by {
            if n >= 2 {
                assert(chars@.skip(n - 2)[1] == chars@[n - 1]);
            }
        }
        assert(!ends_with(chars@, seq!['s'])) by {
            assert(chars@.skip(n - 1)[0] == chars@[n - 1]);
        }
        assert(chars@.skip(n - 1) == seq!['m']);
        Some((n - 1, 60_000u64))
    } else if n >= 1 && chars[n - 1] == 'h' {
        assert(!ends_with(chars@, seq!['m', 's'])) by {
            if n >= 2 {
                assert(chars@.skip(n - 2)[1] == chars@[n - 1]);
            }
        }
        assert(!ends_with(chars@, seq!['s'])) by {
            assert(chars@.skip(n - 1)[0] == chars@[n - 1]);
        }
        assert(!ends_with(chars@, seq!['m'])) by {
            assert(chars@.skip(n - 1)[0] == chars@[n - 1]);
        }
        assert(chars@.skip(n - 1) == seq!['h']);
        Some((n - 1, 3_600_000u64))
    } else {
        assert(duration_split(chars@) is None) by {
            if n >= 2 {
                assert(chars@.skip(n - 2)[1] == chars@[n - 1]);
            }
            if n >= 1 {
                assert(chars@.skip(n - 1)[0] == chars@[n - 1]);
            }
        }
        None
    };
    match split {
        None => None,
        Some((len, multiplier)) => {
            let number = take_chars(&chars, len);
            match parse_decimal_u64(&number) {
                None => None,
                Some(v) => v.checked_mul(multiplier),
            }
        },
    }
}

} // verus!
