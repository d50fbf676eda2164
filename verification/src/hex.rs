//! Fixed-width hexadecimal numbers as text.

use vstd::prelude::*;
use vstd::string::StringExecFns;

verus! {

/// The value of a hexadecimal digit character of either case, and 16 for every other
/// character.
pub open spec fn spec_hex_value(c: char) -> nat {
    if '0' <= c <= '9' {
        (c as nat - '0' as nat) as nat
    } else if 'a' <= c <= 'f' {
        (c as nat - 'a' as nat + 10) as nat
    } else if 'A' <= c <= 'F' {
        (c as nat - 'A' as nat + 10) as nat
    } else {
        16
    }
}

/// The lower-case character that writes the hexadecimal digit `d`.
pub open spec fn spec_hex_char(d: nat) -> char {
    if d < 10 {
        (d + '0' as nat) as char
    } else {
        (d - 10 + 'a' as nat) as char
    }
}

pub open spec fn spec_all_hex(s: Seq<char>) -> bool {
    forall|i: int| 0 <= i < s.len() ==> spec_hex_value(#[trigger] s[i]) < 16
}

/// The number that a sequence of hexadecimal digits denotes, most significant first.
pub open spec fn spec_hex_digits_value(s: Seq<char>) -> nat
    decreases s.len(),
{
    if s.len() == 0 {
        0
    } else {
        spec_hex_digits_value(s.drop_last()) * 16 + spec_hex_value(s.last())
    }
}

/// What a text of hexadecimal digits denotes as a `u64`, if it is made of such digits
/// alone and its value fits in 64 bits.
pub open spec fn spec_parse_hex(s: Seq<char>) -> Option<u64> {
    if spec_all_hex(s) && spec_hex_digits_value(s) <= u64::MAX {
        Some(spec_hex_digits_value(s) as u64)
    } else {
        None
    }
}

/// The `width` least significant hexadecimal digits of `n`, most significant first.
pub open spec fn spec_hex_fixed(n: nat, width: nat) -> Seq<char>
    decreases width,
{
    if width == 0 {
        Seq::empty()
    } else {
        spec_hex_fixed(n / 16, (width - 1) as nat).push(spec_hex_char(n % 16))
    }
}

/// Whether `n` can be written with `width` hexadecimal digits.
pub open spec fn spec_fits_hex(n: nat, width: nat) -> bool
    decreases width,
{
    if width == 0 {
        n == 0
    } else {
        spec_fits_hex(n / 16, (width - 1) as nat)
    }
}

pub proof fn lemma_hex_digits_value_prefix(s: Seq<char>, k: int)
    requires
        0 <= k <= s.len(),
    ensures
        spec_hex_digits_value(s.subrange(0, k)) <= spec_hex_digits_value(s),
    decreases s.len(),
{
    if k == s.len() {
        assert(s.subrange(0, k) == s);
    } else {
        assert(s.drop_last().subrange(0, k) == s.subrange(0, k));
        lemma_hex_digits_value_prefix(s.drop_last(), k);
    }
}

/// A number written with as many digits as it fits in is read back unchanged.
pub proof fn lemma_hex_fixed_denotes(n: nat, width: nat)
    ensures
        spec_hex_fixed(n, width).len() == width,
        spec_all_hex(spec_hex_fixed(n, width)),
        spec_fits_hex(n, width) ==> spec_hex_digits_value(spec_hex_fixed(n, width)) == n,
    decreases width,
{
    if width > 0 {
        lemma_hex_fixed_denotes(n / 16, (width - 1) as nat);
        let s = spec_hex_fixed(n, width);
        assert(s.drop_last() == spec_hex_fixed(n / 16, (width - 1) as nat));
        assert(spec_hex_value(s.last()) == n % 16);
        assert forall|i: int| 0 <= i < s.len() implies spec_hex_value(#[trigger] s[i]) < 16 by {
            if i < s.len() - 1 {
                assert(s[i] == spec_hex_fixed(n / 16, (width - 1) as nat)[i]);
            }
        }
    }
}

/// Every `u64` fits in sixteen hexadecimal digits, and every `u32` in eight.
pub proof fn lemma_fits_hex(n: nat)
    ensures
        n <= u64::MAX ==> spec_fits_hex(n, 16),
        n <= u32::MAX ==> spec_fits_hex(n, 8),
{
    reveal_with_fuel(spec_fits_hex, 17);
}

pub fn hex_value(c: char) -> (d: u8)
    ensures
        d == spec_hex_value(c),
{
    let code: u32 = c as u32;
    if 48 <= code && code <= 57 {
        (code - 48) as u8
    } else if 97 <= code && code <= 102 {
        (code - 87) as u8
    } else if 65 <= code && code <= 70 {
        (code - 55) as u8
    } else {
        16
    }
}

pub fn hex_text(d: u8) -> (text: &'static str)
    requires
        d < 16,
    ensures
        text@ == seq![spec_hex_char(d as nat)],
{
    proof {
        reveal_strlit("0");
        reveal_strlit("1");
        reveal_strlit("2");
        reveal_strlit("3");
        reveal_strlit("4");
        reveal_strlit("5");
        reveal_strlit("6");
        reveal_strlit("7");
        reveal_strlit("8");
        reveal_strlit("9");
        reveal_strlit("a");
        reveal_strlit("b");
        reveal_strlit("c");
        reveal_strlit("d");
        reveal_strlit("e");
        reveal_strlit("f");
    }
    let text = match d {
        0 => "0",
        1 => "1",
        2 => "2",
        3 => "3",
        4 => "4",
        5 => "5",
        6 => "6",
        7 => "7",
        8 => "8",
        9 => "9",
        10 => "a",
        11 => "b",
        12 => "c",
        13 => "d",
        14 => "e",
        _ => "f",
    };
    assert(text@ =~= seq![spec_hex_char(d as nat)]);
    text
}

/// Reads the characters `chars[start..end]` as hexadecimal digits.
pub fn parse_hex(chars: &Vec<char>, start: usize, end: usize) -> (value: Option<u64>)
    requires
        start <= end <= chars.len(),
    ensures
        value == spec_parse_hex(chars@.subrange(start as int, end as int)),
{
    let ghost digits = chars@.subrange(start as int, end as int);
    let mut i: usize = start;
    let mut acc: u64 = 0;
    while i < end
        invariant
            start <= i <= end <= chars.len(),
            digits == chars@.subrange(start as int, end as int),
            spec_all_hex(digits.subrange(0, i - start)),
            acc == spec_hex_digits_value(digits.subrange(0, i - start)),
        decreases end - i,
    {
        let d = hex_value(chars[i]);
        let ghost prefix = digits.subrange(0, i - start + 1);
        assert(prefix.drop_last() == digits.subrange(0, i - start));
        assert(prefix.last() == chars[i as int]);
        if d >= 16 {
            assert(spec_hex_value(digits[i - start]) == 16);
            return None;
        }
        if acc > (u64::MAX - d as u64) / 16 {
            proof {
                assert(spec_hex_digits_value(prefix) == acc * 16 + d);
                lemma_hex_digits_value_prefix(digits, i - start + 1);
            }
            return None;
        }
        acc = acc * 16 + d as u64;
        assert forall|k: int| 0 <= k < prefix.len() implies spec_hex_value(#[trigger] prefix[k])
            < 16 by {
            if k < prefix.len() - 1 {
                assert(prefix[k] == digits.subrange(0, i - start)[k]);
            }
        }
        i = i + 1;
    }
    assert(digits.subrange(0, end - start) == digits);
    Some(acc)
}

/// Appends the `width` least significant hexadecimal digits of `n` to `out`.
pub fn push_hex_fixed(out: &mut String, n: u64, width: usize)
    ensures
        final(out)@ == old(out)@ + spec_hex_fixed(n as nat, width as nat),
    decreases width,
{
    if width > 0 {
        push_hex_fixed(out, n / 16, width - 1);
        out.append(hex_text((n % 16) as u8));
        assert(old(out)@ + spec_hex_fixed(n as nat / 16, (width - 1) as nat) + seq![
            spec_hex_char(n as nat % 16),
        ] =~= old(out)@ + spec_hex_fixed(n as nat, width as nat));
    } else {
        assert(old(out)@ + spec_hex_fixed(n as nat, 0) =~= old(out)@);
    }
}

} // verus!
