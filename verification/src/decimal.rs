//! Unsigned decimal numbers as text: how a `u64` is written and how it is read.

use vstd::prelude::*;
use vstd::string::StringExecFns;
use crate::text::{spec_digit_value, spec_digit_char, digit_value, digit_text};

verus! {

pub open spec fn spec_is_digit(c: char) -> bool {
    '0' <= c <= '9'
}

pub open spec fn spec_all_digits(s: Seq<char>) -> bool {
    forall|i: int| 0 <= i < s.len() ==> spec_is_digit(#[trigger] s[i])
}

/// The number that a sequence of digits denotes, most significant digit first.
pub open spec fn spec_digits_value(s: Seq<char>) -> nat
    decreases s.len(),
{
    if s.len() == 0 {
        0
    } else {
        spec_digits_value(s.drop_last()) * 10 + spec_digit_value(s.last())
    }
}

/// The digits of a number text: the text itself, without one leading `+`.
pub open spec fn spec_unsigned_digits(s: Seq<char>) -> Seq<char> {
    if s.len() > 0 && s[0] == '+' {
        s.subrange(1, s.len() as int)
    } else {
        s
    }
}

/// What a text denotes as a `u64`: an optional `+`, then one or more decimal digits
/// whose value fits in 64 bits. Every other text denotes nothing.
pub open spec fn spec_parse_u64(s: Seq<char>) -> Option<u64> {
    let digits = spec_unsigned_digits(s);
    if digits.len() > 0 && spec_all_digits(digits) && spec_digits_value(digits) <= u64::MAX {
        Some(spec_digits_value(digits) as u64)
    } else {
        None
    }
}

/// The canonical decimal text of `n`: no sign, no leading zero but for zero itself.
pub open spec fn spec_decimal(n: nat) -> Seq<char>
    decreases n,
{
    if n < 10 {
        seq![spec_digit_char(n)]
    } else {
        spec_decimal(n / 10).push(spec_digit_char(n % 10))
    }
}

/// A prefix of a sequence of digits denotes no more than the whole sequence.
pub proof fn lemma_digits_value_prefix(s: Seq<char>, k: int)
    requires
        0 <= k <= s.len(),
    ensures
        spec_digits_value(s.subrange(0, k)) <= spec_digits_value(s),
    decreases s.len(),
{
    if k == s.len() {
        assert(s.subrange(0, k) == s);
    } else {
        assert(s.drop_last().subrange(0, k) == s.subrange(0, k));
        lemma_digits_value_prefix(s.drop_last(), k);
    }
}

/// The canonical text of a number is made of digits alone and denotes that number.
pub proof fn lemma_decimal_denotes(n: nat)
    ensures
        spec_decimal(n).len() > 0,
        spec_all_digits(spec_decimal(n)),
        spec_digits_value(spec_decimal(n)) == n,
    decreases n,
{
    if n < 10 {
        let s = spec_decimal(n);
        assert(s.drop_last().len() == 0);
        assert(spec_digits_value(s.drop_last()) == 0);
        assert(spec_digit_value(s.last()) == n);
    } else {
        lemma_decimal_denotes(n / 10);
        let s = spec_decimal(n);
        assert(s.drop_last() == spec_decimal(n / 10));
        assert(spec_digit_value(s.last()) == n % 10);
        assert forall|i: int| 0 <= i < s.len() implies spec_is_digit(#[trigger] s[i]) by {
            if i < s.len() - 1 {
                assert(s[i] == spec_decimal(n / 10)[i]);
            }
        }
    }
}

/// Reading the canonical text of a `u64` gives the number back.
pub proof fn lemma_parse_decimal(n: u64)
    ensures
        spec_parse_u64(spec_decimal(n as nat)) == Some(n),
{
    lemma_decimal_denotes(n as nat);
    let s = spec_decimal(n as nat);
    assert(spec_is_digit(s[0]));
}

/// Reads the characters `chars[start..end]` as a `u64`.
pub fn parse_u64(chars: &Vec<char>, start: usize, end: usize) -> (value: Option<u64>)
    requires
        start <= end <= chars.len(),
    ensures
        value == spec_parse_u64(chars@.subrange(start as int, end as int)),
{
    let ghost text = chars@.subrange(start as int, end as int);
    let mut i: usize = start;
    if start < end && chars[start] == '+' {
        i = start + 1;
    }
    let first: usize = i;
    let ghost digits = chars@.subrange(first as int, end as int);
    assert(digits == spec_unsigned_digits(text));
    if first == end {
        return None;
    }
    let mut acc: u64 = 0;
    while i < end
        invariant
            start <= first <= i <= end <= chars.len(),
            digits == chars@.subrange(first as int, end as int),
            digits == spec_unsigned_digits(chars@.subrange(start as int, end as int)),
            spec_all_digits(digits.subrange(0, i - first)),
            acc == spec_digits_value(digits.subrange(0, i - first)),
        decreases end - i,
    {
        let d = digit_value(chars[i]);
        let ghost prefix = digits.subrange(0, i - first + 1);
        assert(prefix.drop_last() == digits.subrange(0, i - first));
        assert(prefix.last() == chars[i as int]);
        if d >= 10 {
            assert(!spec_is_digit(digits[i - first]));
            return None;
        }
        if acc > (u64::MAX - d as u64) / 10 {
            proof {
                assert(spec_digits_value(prefix) == acc * 10 + d);
                lemma_digits_value_prefix(digits, i - first + 1);
            }
            return None;
        }
        acc = acc * 10 + d as u64;
        assert forall|k: int| 0 <= k < prefix.len() implies spec_is_digit(#[trigger] prefix[k]) by {
            if k < prefix.len() - 1 {
                assert(prefix[k] == digits.subrange(0, i - first)[k]);
            }
        }
        i = i + 1;
    }
    assert(digits.subrange(0, end - first) == digits);
    Some(acc)
}

/// Appends the canonical decimal text of `n` to `out`.
pub fn push_decimal(out: &mut String, n: u64)
    ensures
        final(out)@ == old(out)@ + spec_decimal(n as nat),
    decreases n,
{
    if n >= 10 {
        push_decimal(out, n / 10);
    }
    out.append(digit_text((n % 10) as u8));
    assert(final(out)@ == old(out)@ + spec_decimal(n as nat)) by {
        if n >= 10 {
            assert(old(out)@ + spec_decimal(n as nat / 10) + seq![spec_digit_char(n as nat % 10)]
                =~= old(out)@ + spec_decimal(n as nat));
        }
    }
}

} // verus!
