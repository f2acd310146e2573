//! Characters, digit strings, and their numeric values.

use vstd::prelude::*;

verus! {

/// Whether `c` is a decimal digit character.
pub open spec fn is_digit(c: char) -> bool {
    48 <= c as u32 <= 57
}

/// The numeric value of a decimal digit character; meaningful for `'0'..='9'`.
pub open spec fn digit_val(c: char) -> int {
    c as u32 - 48
}

/// Whether every character of `s` is a decimal digit.
pub open spec fn all_digits(s: Seq<char>) -> bool {
    forall|i: int| 0 <= i < s.len() ==> is_digit(#[trigger] s[i])
}

/// Ten to the power `n`.
pub open spec fn pow10(n: nat) -> int
    decreases n,
{
    if n == 0 {
        1
    } else {
        10 * pow10((n - 1) as nat)
    }
}

/// The numeric value of a string of decimal digits, most significant first.
pub open spec fn digits_val(s: Seq<char>) -> int
    decreases s.len(),
{
    if s.len() == 0 {
        0
    } else {
        digits_val(s.drop_last()) * 10 + digit_val(s.last())
    }
}

pub proof fn lemma_pow10_pos(n: nat)
    ensures
        pow10(n) >= 1,
    decreases n,
{
    if n > 0 {
        lemma_pow10_pos((n - 1) as nat);
    }
}

/// A digit string's value is non-negative and below ten to its length.
pub proof fn lemma_digits_val_bounds(s: Seq<char>)
    requires
        all_digits(s),
    ensures
        0 <= digits_val(s) < pow10(s.len()),
    decreases s.len(),
{
    if s.len() > 0 {
        assert(forall|i: int| 0 <= i < s.drop_last().len() ==> is_digit(#[trigger] s.drop_last()[i]));
        lemma_digits_val_bounds(s.drop_last());
    }
}

/// Concatenating digit strings combines their values positionally.
pub proof fn lemma_digits_val_append(s: Seq<char>, t: Seq<char>)
    ensures
        digits_val(s + t) == digits_val(s) * pow10(t.len()) + digits_val(t),
    decreases t.len(),
{
    if t.len() == 0 {
        assert(s + t =~= s);
    } else {
        let t0 = t.drop_last();
        lemma_digits_val_append(s, t0);
        assert((s + t).drop_last() =~= s + t0);
        assert((s + t).last() == t.last());
        assert(digits_val(s + t) == (digits_val(s) * pow10(t0.len()) + digits_val(t0)) * 10
            + digit_val(t.last()));
        assert(digits_val(s) * pow10(t0.len()) * 10 == digits_val(s) * pow10(t.len()))
            by (nonlinear_arith)
            requires
                pow10(t.len()) == 10 * pow10(t0.len()),
        ;
    }
}

/// The value of a prefix of a digit string never exceeds the whole string's value.
pub proof fn lemma_digits_val_prefix(s: Seq<char>, i: int)
    requires
        all_digits(s),
        0 <= i <= s.len(),
    ensures
        digits_val(s.take(i)) <= digits_val(s),
{
    let pre = s.take(i);
    let suf = s.skip(i);
    assert(s =~= pre + suf);
    lemma_digits_val_append(pre, suf);
    assert(forall|j: int| 0 <= j < pre.len() ==> is_digit(#[trigger] pre[j]));
    assert(forall|j: int| 0 <= j < suf.len() ==> is_digit(#[trigger] suf[j]));
    lemma_digits_val_bounds(pre);
    lemma_digits_val_bounds(suf);
    lemma_pow10_pos(suf.len());
    assert(digits_val(pre) * pow10(suf.len()) >= digits_val(pre) * 1) by (nonlinear_arith)
        requires
            digits_val(pre) >= 0,
            pow10(suf.len()) >= 1,
    ;
}

/// Equality of string slices, decided character by character.
pub fn str_eq(a: &str, b: &str) -> (r: bool)
    ensures
        r == (a@ == b@),
{
    let na = a.unicode_len();
    let nb = b.unicode_len();
    if na != nb {
        return false;
    }
    let mut i: usize = 0;
    while i < na
        invariant
            na == a@.len(),
            na == b@.len(),
            0 <= i <= na,
            forall|j: int| 0 <= j < i ==> a@[j] == b@[j],
        decreases na - i,
    {
        if a.get_char(i) != b.get_char(i) {
            return false;
        }
        i += 1;
    }
    proof {
        assert(a@ =~= b@);
    }
    true
}

/// The decimal value of a digit string, if it fits in a `u64`.
pub open spec fn spec_digits_to_u64(s: Seq<char>) -> Option<u64> {
    if all_digits(s) && digits_val(s) <= u64::MAX {
        Some(digits_val(s) as u64)
    } else {
        None
    }
}

/// Accumulates the value of a string of digit characters, reporting overflow.
pub fn digits_to_u64(v: &Vec<char>) -> (r: Option<u64>)
    requires
        all_digits(v@),
    ensures
        r == spec_digits_to_u64(v@),
{
    let n = v.len();
    let mut acc: u64 = 0;
    let mut i: usize = 0;
    while i < n
        invariant
            all_digits(v@),
            n == v@.len(),
            0 <= i <= n,
            acc == digits_val(v@.take(i as int)),
        decreases n - i,
    {
        let c = v[i];
        assert(is_digit(c));
        let d: u64 = (c as u32 - 48) as u64;
        proof {
            assert(v@.take(i + 1).drop_last() =~= v@.take(i as int));
            assert(v@.take(i + 1).last() == v@[i as int]);
        }
        if acc > (u64::MAX - d) / 10 {
            proof {
                assert(digits_val(v@.take(i + 1)) == acc * 10 + d);
                assert(acc * 10 + d > u64::MAX) by (nonlinear_arith)
                    requires
                        acc > (u64::MAX - d) / 10,
                        0 <= d <= 9,
                ;
                assert(forall|j: int|
                    0 <= j < v@.take(i + 1).len() ==> is_digit(#[trigger] v@.take(i + 1)[j]));
                lemma_digits_val_prefix(v@, i + 1);
            }
            return None;
        }
        assert(acc * 10 + d <= u64::MAX) by (nonlinear_arith)
            requires
                acc <= (u64::MAX - d) / 10,
                0 <= d <= 9,
        ;
        acc = acc * 10 + d;
        i += 1;
    }
    proof {
        assert(v@.take(n as int) =~= v@);
    }
    Some(acc)
}

/// The value of a digit string, if it fits in a `u32`.
pub open spec fn spec_parse_u32(s: Seq<char>) -> Option<u32> {
    if s.len() >= 1 && all_digits(s) && digits_val(s) <= u32::MAX {
        Some(digits_val(s) as u32)
    } else {
        None
    }
}

/// Parses an unsigned decimal integer field.
pub fn parse_u32(s: &str) -> (r: Option<u32>)
    ensures
        r == spec_parse_u32(s@),
{
    let n = s.unicode_len();
    if n == 0 {
        return None;
    }
    let v = collect_chars(s, 0, n);
    proof {
        assert(v@ =~= s@);
    }
    if !check_all_digits(&v) {
        return None;
    }
    proof {
        lemma_digits_val_bounds(v@);
    }
    match digits_to_u64(&v) {
        None => None,
        Some(m) => {
            if m > u32::MAX as u64 {
                None
            } else {
                Some(m as u32)
            }
        },
    }
}

/// Decides whether every character of `v` is a decimal digit.
pub fn check_all_digits(v: &Vec<char>) -> (r: bool)
    ensures
        r == all_digits(v@),
{
    let n = v.len();
    let mut i: usize = 0;
    while i < n
        invariant
            n == v@.len(),
            0 <= i <= n,
            forall|j: int| 0 <= j < i ==> is_digit(#[trigger] v@[j]),
        decreases n - i,
    {
        let u = v[i] as u32;
        if !(48 <= u && u <= 57) {
            return false;
        }
        i += 1;
    }
    true
}

/// Copies the characters of `s` between the given character positions.
pub fn collect_chars(s: &str, from: usize, to: usize) -> (v: Vec<char>)
    requires
        from <= to <= s@.len(),
    ensures
        v@ == s@.subrange(from as int, to as int),
{
    let mut v: Vec<char> = Vec::new();
    let mut i: usize = from;
    while i < to
        invariant
            from <= i <= to <= s@.len(),
            v@ == s@.subrange(from as int, i as int),
        decreases to - i,
    {
        let c = s.get_char(i);
        v.push(c);
        proof {
            assert(s@.subrange(from as int, i + 1) =~= s@.subrange(from as int, i as int).push(
                s@[i as int],
            ));
        }
        i += 1;
    }
    v
}

} // verus!
