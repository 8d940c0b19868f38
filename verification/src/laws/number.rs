//! Laws of numbers as text.

use crate::number::{
    decimal_reads_back, decimal_text, digits_value, hex_text, is_digit, parse_unsigned, to_decimal,
    to_hex, unsigned_up_to, unsigned_value, without_plus,
};
use vstd::prelude::*;

verus! {

/// One digit is the number of its place between zero and nine.
pub proof fn a_digit_is_a_number(c: char)
    ensures
        48 <= c as u32 <= 57 ==> unsigned_value(seq![c]) == Some((c as u32 - 48) as nat),
        !(48 <= c as u32 <= 57) ==> unsigned_value(seq![c]) is None,
        unsigned_value(seq![]) is None,
{
    let s = seq![c];
    if 48 <= c as u32 <= 57 {
        assert(without_plus(s) == s);
        assert forall|i: int| 0 <= i < s.len() implies is_digit(#[trigger] s[i]) by {
        }
        assert(s.drop_last() =~= seq![]);
        assert(digits_value(s.drop_last()) == 0);
        assert(s.last() == c);
    } else if c == '+' {
        assert(without_plus(s).len() == 0);
    } else {
        assert(!is_digit(s[0]));
    }
}

/// A digit behind a number makes ten times that number and the digit; any other character
/// behind it makes no number.
pub proof fn a_further_digit_counts_ten_times(s: Seq<char>, c: char)
    requires
        unsigned_value(s) is Some,
    ensures
        48 <= c as u32 <= 57 ==> unsigned_value(s.push(c)) == Some(
            (10 * unsigned_value(s)->Some_0 + (c as u32 - 48)) as nat,
        ),
        !(48 <= c as u32 <= 57) ==> unsigned_value(s.push(c)) is None,
{
    let d = without_plus(s);
    let longer = without_plus(s.push(c));
    assert(longer =~= d.push(c));
    assert(longer.drop_last() =~= d);
    assert(longer.last() == c);
    if 48 <= c as u32 <= 57 {
        assert forall|i: int| 0 <= i < longer.len() implies is_digit(#[trigger] longer[i]) by {
            if i < d.len() {
                assert(d[i] == longer[i]);
            }
        }
    } else {
        assert(!is_digit(longer[longer.len() - 1]));
    }
}

/// One plus sign before a number changes nothing. A number holds digits alone behind it, and
/// one at least.
pub proof fn only_a_plus_sign_and_digits_are_a_number(s: Seq<char>, i: int)
    ensures
        s.len() > 0 && s[0] != '+' ==> unsigned_value(seq!['+'] + s) == unsigned_value(s),
        s.len() > 0 && s[0] == '+' ==> unsigned_value(seq!['+'] + s) is None,
        unsigned_value(seq!['+']) is None,
        0 <= i < s.len() && !(48 <= s[i] as u32 <= 57) && !(i == 0 && s[0] == '+')
            ==> unsigned_value(s) is None,
{
    let t = seq!['+'] + s;
    assert(without_plus(t) =~= s);
    if s.len() > 0 && s[0] == '+' {
        assert(!is_digit(s[0]));
    }
    assert(without_plus(seq!['+']).len() == 0);
    if 0 <= i < s.len() && !(48 <= s[i] as u32 <= 57) && !(i == 0 && s[0] == '+') {
        let d = without_plus(s);
        if s[0] == '+' {
            assert(d[i - 1] == s[i]);
            assert(!is_digit(d[i - 1]));
        } else {
            assert(!is_digit(d[i]));
        }
    }
}

/// A call of `parse_unsigned` gives the number that its text stands for, exactly when there is
/// one and it is not above the bound.
pub proof fn parse_unsigned_gives_the_number(s: &str, max: u64, r: Option<u64>)
    requires
        call_ensures(parse_unsigned, (s, max), r),
    ensures
        r matches Some(v) ==> unsigned_value(s@) == Some(v as nat) && v <= max,
        r is None ==> (unsigned_value(s@) matches Some(v) ==> v > max),
        unsigned_up_to(s@, max as nat) == match r {
            Some(v) => Some(v as nat),
            None => None,
        },
{
}

/// A number is written digit by digit, in base ten and in base sixteen, in lower case and with
/// no zero before it.
pub proof fn a_number_is_written_digit_by_digit(q: nat, d: nat)
    ensures
        d < 10 ==> decimal_text(d) == seq!["0123456789"@[d as int]],
        q > 0 && d < 10 ==> decimal_text(10 * q + d) == decimal_text(q).push(
            "0123456789"@[d as int],
        ),
        d < 16 ==> hex_text(d) == seq!["0123456789abcdef"@[d as int]],
        q > 0 && d < 16 ==> hex_text(16 * q + d) == hex_text(q).push(
            "0123456789abcdef"@[d as int],
        ),
{
    reveal_strlit("0123456789");
    reveal_strlit("0123456789abcdef");
    if q > 0 && d < 10 {
        assert((10 * q + d) / 10 == q && (10 * q + d) % 10 == d);
    }
    if q > 0 && d < 16 {
        assert((16 * q + d) / 16 == q && (16 * q + d) % 16 == d);
    }
}

/// A number that a call wrote in base ten is read back by another, where the bound admits it.
pub proof fn a_written_number_reads_back(n: u64, s: String, t: &str, max: u64, r: Option<u64>)
    requires
        call_ensures(to_decimal, (n,), s),
        t@ == s@,
        call_ensures(parse_unsigned, (t, max), r),
    ensures
        r == if n <= max {
            Some(n)
        } else {
            None
        },
{
    decimal_reads_back(n as nat);
}

/// Calls write a number as its text in base ten and in base sixteen.
pub proof fn calls_write_the_whole_number(n: u64, decimal: String, hex: String)
    requires
        call_ensures(to_decimal, (n,), decimal),
        call_ensures(to_hex, (n,), hex),
    ensures
        decimal@ == decimal_text(n as nat),
        hex@ == hex_text(n as nat),
{
}

} // verus!
