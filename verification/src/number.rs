//! Unsigned numbers as text: reading decimal numbers, writing decimal and hexadecimal ones.

use vstd::arithmetic::div_mod::lemma_div_decreases;
use vstd::prelude::*;

verus! {

/// An ASCII digit.
pub open spec fn is_digit(c: char) -> bool {
    '0' <= c <= '9'
}

/// A text made of ASCII digits alone.
pub open spec fn all_digits(s: Seq<char>) -> bool {
    forall|i: int| 0 <= i < s.len() ==> is_digit(#[trigger] s[i])
}

/// The number that a text of digits stands for, in base ten.
pub open spec fn digits_value(s: Seq<char>) -> nat
    decreases s.len(),
{
    if s.len() == 0 {
        0
    } else {
        (digits_value(s.drop_last()) * 10 + (s.last() as u8 - '0' as u8)) as nat
    }
}

/// `s` without the plus sign at its start, where it has one.
pub open spec fn without_plus(s: Seq<char>) -> Seq<char> {
    if s.len() > 0 && s[0] == '+' {
        s.skip(1)
    } else {
        s
    }
}

/// The number that a text stands for: an optional plus sign and at least one digit, and
/// nothing else. Any other text stands for no number.
pub open spec fn unsigned_value(s: Seq<char>) -> Option<nat> {
    let digits = without_plus(s);
    if digits.len() > 0 && all_digits(digits) {
        Some(digits_value(digits))
    } else {
        None
    }
}

/// The number that a text stands for, when it is one and is at most `max`.
pub open spec fn unsigned_up_to(s: Seq<char>, max: nat) -> Option<nat> {
    match unsigned_value(s) {
        Some(v) => if v <= max {
            Some(v)
        } else {
            None
        },
        None => None,
    }
}

proof fn lemma_prefix_value(s: Seq<char>, k: int)
    requires
        0 <= k <= s.len(),
        all_digits(s),
    ensures
        digits_value(s.take(k)) <= digits_value(s),
    decreases s.len(),
{
    if k == s.len() {
        assert(s.take(k) =~= s);
    } else {
        let shorter = s.drop_last();
        assert forall|i: int| 0 <= i < shorter.len() implies is_digit(#[trigger] shorter[i]) by {
            assert(shorter[i] == s[i]);
        }
        assert(is_digit(s[s.len() - 1]));
        lemma_prefix_value(shorter, k);
        assert(shorter.take(k) =~= s.take(k));
    }
}

/// Reads an unsigned decimal number of at most `max`. There is an optional plus sign, then
/// at least one digit; anything else, and any larger number, gives `None`.
pub fn parse_unsigned(s: &str, max: u64) -> (r: Option<u64>)
    ensures
        r is Some <==> unsigned_up_to(s@, max as nat) is Some,
        r matches Some(v) ==> unsigned_up_to(s@, max as nat) == Some(v as nat),
{
    let n: usize = s.unicode_len();
    if n == 0 {
        return None;
    }
    let digits = if s.get_char(0) == '+' {
        s.substring_char(1, n)
    } else {
        s
    };
    assert(digits@ =~= without_plus(s@));
    if digits.is_empty() {
        return None;
    }
    let mut value: u64 = 0;
    for c in it: digits.chars()
        invariant
            it.seq() == digits@,
            digits@ == without_plus(s@),
            digits@.len() > 0,
            all_digits(digits@.take(it.index() as int)),
            value == digits_value(digits@.take(it.index() as int)),
            value <= max,
    {
        let ghost i = it.index() as int;
        let ghost next = digits@.take(i + 1);
        assert(next.drop_last() =~= digits@.take(i));
        if !('0' <= c && c <= '9') {
            assert(!is_digit(digits@[i]));
            return None;
        }
        assert forall|j: int| 0 <= j < next.len() implies is_digit(#[trigger] next[j]) by {
            if j < i {
                assert(next[j] == digits@.take(i)[j]);
            }
        }
        let longer: u128 = (value as u128) * 10 + ((c as u8) - 48) as u128;
        assert(longer == digits_value(next));
        if longer > max as u128 {
            proof {
                if all_digits(digits@) {
                    lemma_prefix_value(digits@, i + 1);
                }
            }
            return None;
        }
        value = longer as u64;
    }
    assert(digits@.take(digits@.len() as int) =~= digits@);
    Some(value)
}

/// The character for a digit below sixteen.
pub open spec fn digit_char(d: nat) -> char {
    if d < 10 {
        ('0' as u8 + d) as char
    } else {
        ('a' as u8 + (d - 10)) as char
    }
}

/// `n` written in the given base, in lower case and without leading zeros.
pub open spec fn radix_text(n: nat, base: nat) -> Seq<char>
    decreases n,
    when base >= 2
{
    if n < base {
        seq![digit_char(n)]
    } else {
        proof {
            lemma_div_decreases(n as int, base as int);
        }
        radix_text(n / base, base).push(digit_char(n % base))
    }
}

/// `n` in base ten.
pub open spec fn decimal_text(n: nat) -> Seq<char> {
    radix_text(n, 10)
}

/// `n` in base sixteen.
pub open spec fn hex_text(n: nat) -> Seq<char> {
    radix_text(n, 16)
}

fn to_radix(n: u64, base: u64) -> (s: String)
    requires
        2 <= base <= 16,
    ensures
        s@ == radix_text(n as nat, base as nat),
    decreases n,
{
    let digit: u8 = (n % base) as u8;
    let c: char = if digit < 10 {
        (48 + digit) as char
    } else {
        (87 + digit) as char
    };
    let mut s = if n < base {
        String::new()
    } else {
        proof {
            lemma_div_decreases(n as int, base as int);
        }
        to_radix(n / base, base)
    };
    assert(n < base ==> n % base == n) by {
        if n < base {
            vstd::arithmetic::div_mod::lemma_small_mod(n as nat, base as nat);
        }
    }
    s.push(c);
    assert(s@ =~= radix_text(n as nat, base as nat));
    s
}

/// Writes `n` in base ten.
pub fn to_decimal(n: u64) -> (s: String)
    ensures
        s@ == decimal_text(n as nat),
{
    to_radix(n, 10)
}

/// Writes `n` in base sixteen.
pub fn to_hex(n: u64) -> (s: String)
    ensures
        s@ == hex_text(n as nat),
{
    to_radix(n, 16)
}

/// A number written in base ten reads back as itself.
pub proof fn decimal_reads_back(n: nat)
    ensures
        unsigned_value(decimal_text(n)) == Some(n),
{
    lemma_decimal_text(n);
}

proof fn lemma_decimal_text(n: nat)
    ensures
        decimal_text(n).len() > 0,
        all_digits(decimal_text(n)),
        digits_value(decimal_text(n)) == n,
        decimal_text(n)[0] != '+',
    decreases n,
{
    let s = decimal_text(n);
    if n < 10 {
        assert(s.drop_last() =~= seq![]);
        assert(digits_value(s.drop_last()) == 0);
        assert(s.last() as u8 == '0' as u8 + n);
    } else {
        lemma_decimal_text(n / 10);
        assert(s.drop_last() =~= decimal_text(n / 10));
        assert(s.last() as u8 == '0' as u8 + n % 10);
        assert forall|i: int| 0 <= i < s.len() implies is_digit(#[trigger] s[i]) by {
            if i < s.len() - 1 {
                assert(s[i] == decimal_text(n / 10)[i]);
            }
        }
    }
}

} // verus!
