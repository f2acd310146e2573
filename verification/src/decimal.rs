//! Exact decimal numbers, as the feed writes them: an optional sign, integer
//! digits, and optional fractional digits.
//!
//! The wire format quotes its coordinates and magnitudes as decimal strings.
//! They are kept exact here as a scaled integer: the value denoted is
//! `mantissa / 10^scale`, negated when `negative` is set.

use vstd::prelude::*;

use crate::text::all_digits;
use crate::text::check_all_digits;
use crate::text::collect_chars;
use crate::text::digits_to_u64;
use crate::text::digits_val;

verus! {

/// A signed fixed-point decimal: `mantissa / 10^scale`, negated if `negative`.
#[derive(Clone, Copy, Debug, PartialEq, Eq, Structural)]
pub struct Decimal {
    pub negative: bool,
    pub mantissa: u64,
    pub scale: u32,
}

/// The position of the first `.` in `s`, or `s.len()` if there is none.
pub open spec fn first_dot(s: Seq<char>) -> int
    decreases s.len(),
{
    if s.len() == 0 {
        0
    } else if s[0] == '.' {
        0
    } else {
        1 + first_dot(s.skip(1))
    }
}

pub proof fn lemma_first_dot(s: Seq<char>)
    ensures
        0 <= first_dot(s) <= s.len(),
        forall|j: int| 0 <= j < first_dot(s) ==> s[j] != '.',
        first_dot(s) < s.len() ==> s[first_dot(s)] == '.',
    decreases s.len(),
{
    if s.len() > 0 && s[0] != '.' {
        lemma_first_dot(s.skip(1));
        assert forall|j: int| 0 <= j < first_dot(s) implies s[j] != '.' by {
            if j > 0 {
                assert(s.skip(1)[j - 1] == s[j]);
            }
        }
    }
}

/// What parsing a signed decimal string yields: sign, then at least one
/// integer digit, then optionally a dot and at least one fractional digit,
/// with the digits together small enough to keep exactly.
pub open spec fn spec_parse_decimal(s: Seq<char>) -> Option<Decimal> {
    let neg = s.len() > 0 && s[0] == '-';
    let body = if neg {
        s.skip(1)
    } else {
        s
    };
    let d = first_dot(body);
    let intpart = body.take(d);
    let frac = if d == body.len() {
        Seq::<char>::empty()
    } else {
        body.skip(d + 1)
    };
    let digits = intpart + frac;
    if intpart.len() >= 1 && (d == body.len() || frac.len() >= 1) && all_digits(intpart)
        && all_digits(frac) && digits_val(digits) <= u64::MAX && frac.len() <= u32::MAX {
        Some(
            Decimal {
                negative: neg,
                mantissa: digits_val(digits) as u64,
                scale: frac.len() as u32,
            },
        )
    } else {
        None
    }
}

/// Parses a decimal string such as `141.5`, `-3`, or `20`.
pub fn parse_decimal(s: &str) -> (r: Option<Decimal>)
    ensures
        r == spec_parse_decimal(s@),
{
    let n = s.unicode_len();
    let neg = n > 0 && s.get_char(0) == '-';
    let start: usize = if neg {
        1
    } else {
        0
    };
    let ghost body = if neg {
        s@.skip(1)
    } else {
        s@
    };
    proof {
        assert(forall|j: int| 0 <= j < body.len() ==> body[j] == s@[j + start]);
        lemma_first_dot(body);
    }
    let mut dot: usize = n;
    let mut i: usize = start;
    while i < n && dot == n
        invariant
            start <= i <= n,
            n == s@.len(),
            start <= dot <= n,
            dot == n ==> forall|j: int| start <= j < i ==> s@[j] != '.',
            dot < n ==> s@[dot as int] == '.' && dot < i && forall|j: int|
                start <= j < dot ==> s@[j] != '.',
        decreases n - i,
    {
        if s.get_char(i) == '.' {
            dot = i;
        }
        i += 1;
    }
    proof {
        if dot == n {
            assert(first_dot(body) == body.len()) by {
                if first_dot(body) < body.len() {
                    assert(body[first_dot(body)] == '.');
                }
            }
        } else {
            assert(first_dot(body) == dot - start) by {
                if first_dot(body) < dot - start {
                    assert(body[first_dot(body)] == '.');
                } else if first_dot(body) > dot - start {
                    assert(body[dot - start] == '.');
                }
            }
        }
    }
    if dot <= start {
        // no integer digits before the dot, or an empty body
        return None;
    }
    if dot < n && dot + 1 == n {
        // a dot with no fractional digits after it
        return None;
    }
    let mut digits = collect_chars(s, start, dot);
    if dot < n {
        let mut frac_digits = collect_chars(s, dot + 1, n);
        digits.append(&mut frac_digits);
    }
    let ghost d = first_dot(body);
    let ghost intpart = body.take(d);
    let ghost frac = if d == body.len() {
        Seq::<char>::empty()
    } else {
        body.skip(d + 1)
    };
    proof {
        assert(digits@ =~= intpart + frac);
    }
    if !check_all_digits(&digits) {
        proof {
            assert(!(all_digits(intpart) && all_digits(frac))) by {
                if all_digits(intpart) && all_digits(frac) {
                    assert(forall|j: int|
                        0 <= j < intpart.len() ==> digits@[j] == intpart[j]);
                    assert(forall|j: int|
                        intpart.len() <= j < digits@.len() ==> digits@[j] == frac[
                            j - intpart.len()
                        ]);
                    assert(all_digits(digits@));
                }
            }
        }
        return None;
    }
    proof {
        assert(all_digits(intpart)) by {
            assert(forall|j: int| 0 <= j < intpart.len() ==> intpart[j] == digits@[j]);
        }
        assert(all_digits(frac)) by {
            assert(forall|j: int| 0 <= j < frac.len() ==> frac[j] == digits@[j + intpart.len()]);
        }
    }
    let mantissa = match digits_to_u64(&digits) {
        Some(m) => m,
        None => {
            return None;
        },
    };
    let scale_len: usize = if dot < n {
        n - dot - 1
    } else {
        0
    };
    if scale_len > u32::MAX as usize {
        return None;
    }
    Some(Decimal { negative: neg, mantissa, scale: scale_len as u32 })
}

} // verus!
