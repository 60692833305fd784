//! Decimal formatting of integers, as `Display` and `Debug` write them.

use vstd::prelude::*;

verus! {

/// The character of a decimal digit `d` (`0 <= d < 10`).
pub open spec fn digit_char(d: nat) -> char {
    (d + 48) as char
}

/// The decimal digits of `n`, most significant first, without leading zeros.
pub open spec fn decimal_nat(n: nat) -> Seq<char>
    decreases n,
{
    if n < 10 {
        seq![digit_char(n)]
    } else {
        decimal_nat(n / 10).push(digit_char(n % 10))
    }
}

/// The decimal text of a signed integer: a minus sign before the digits of its
/// magnitude when it is negative.
pub open spec fn decimal_int(i: int) -> Seq<char> {
    if i < 0 {
        seq!['-'] + decimal_nat((-i) as nat)
    } else {
        decimal_nat(i as nat)
    }
}

/// The number that a string of decimal digits denotes.
pub open spec fn digits_value(s: Seq<char>) -> int
    decreases s.len(),
{
    if s.len() == 0 {
        0
    } else {
        digits_value(s.drop_last()) * 10 + (s.last() as int - 48)
    }
}

/// Whether every character of `s` is a decimal digit.
pub open spec fn all_digits(s: Seq<char>) -> bool {
    forall|i: int| 0 <= i < s.len() ==> '0' <= #[trigger] s[i] <= '9'
}

/// Formatting loses nothing: the decimal text of `n` is a nonempty string of
/// digits, it starts with `0` only when `n` is zero, and it denotes `n`.
pub proof fn decimal_is_faithful(n: nat)
    ensures
        decimal_nat(n).len() >= 1,
        all_digits(decimal_nat(n)),
        digits_value(decimal_nat(n)) == n,
        decimal_nat(n)[0] == '0' <==> n == 0,
    decreases n,
{
    if n >= 10 {
        decimal_is_faithful(n / 10);
        let s = decimal_nat(n);
        assert(s.drop_last() =~= decimal_nat(n / 10));
        assert((n / 10) * 10 + n % 10 == n) by (nonlinear_arith);
        assert(n / 10 >= 1);
        assert(s.last() as int - 48 == n % 10);
    } else {
        let s = decimal_nat(n);
        assert(s.drop_last() =~= Seq::<char>::empty());
        assert(digits_value(s.drop_last()) == 0);
    }
}

/// Whether `s` is a decimal numeral: digits, with a minus sign in front when
/// it is negative.
pub open spec fn is_numeral(s: Seq<char>) -> bool {
    if s.len() > 0 && s[0] == '-' {
        s.len() >= 2 && all_digits(s.drop_first())
    } else {
        s.len() >= 1 && all_digits(s)
    }
}

/// The number a decimal numeral denotes.
pub open spec fn numeral_value(s: Seq<char>) -> int {
    if s.len() > 0 && s[0] == '-' {
        -digits_value(s.drop_first())
    } else {
        digits_value(s)
    }
}

/// Formatting a signed number loses nothing: its text is a numeral that
/// denotes it.
pub proof fn decimal_int_is_faithful(i: int)
    ensures
        is_numeral(decimal_int(i)),
        numeral_value(decimal_int(i)) == i,
{
    if i < 0 {
        decimal_is_faithful((-i) as nat);
        assert(decimal_int(i).drop_first() =~= decimal_nat((-i) as nat));
    } else {
        decimal_is_faithful(i as nat);
        assert('0' <= decimal_nat(i as nat)[0] <= '9');
    }
}

/// Whether `t` is `label`, then a decimal numeral, then `unit`, the numeral
/// denoting `value`.
pub open spec fn shows_number(t: Seq<char>, label: Seq<char>, unit: Seq<char>, value: int) -> bool {
    &&& t.len() >= label.len() + unit.len()
    &&& t.subrange(0, label.len() as int) == label
    &&& t.subrange(t.len() - unit.len(), t.len() as int) == unit
    &&& is_numeral(t.subrange(label.len() as int, t.len() - unit.len()))
    &&& numeral_value(t.subrange(label.len() as int, t.len() - unit.len())) == value
}

pub(crate) proof fn lemma_shows_number(label: Seq<char>, d: Seq<char>, unit: Seq<char>, value: int)
    requires
        is_numeral(d),
        numeral_value(d) == value,
    ensures
        shows_number(label + d + unit, label, unit, value),
{
    let t = label + d + unit;
    assert(t.subrange(0, label.len() as int) =~= label);
    assert(t.subrange(t.len() - unit.len(), t.len() as int) =~= unit);
    assert(t.subrange(label.len() as int, t.len() - unit.len()) =~= d);
}

/// The one-character string of the digit `d`.
fn digit_str(d: u64) -> (s: &'static str)
    requires
        d < 10,
    ensures
        s@ == seq![digit_char(d as nat)],
{
    if d == 0 {
        proof { reveal_strlit("0"); }
        "0"
    } else if d == 1 {
        proof { reveal_strlit("1"); }
        "1"
    } else if d == 2 {
        proof { reveal_strlit("2"); }
        "2"
    } else if d == 3 {
        proof { reveal_strlit("3"); }
        "3"
    } else if d == 4 {
        proof { reveal_strlit("4"); }
        "4"
    } else if d == 5 {
        proof { reveal_strlit("5"); }
        "5"
    } else if d == 6 {
        proof { reveal_strlit("6"); }
        "6"
    } else if d == 7 {
        proof { reveal_strlit("7"); }
        "7"
    } else if d == 8 {
        proof { reveal_strlit("8"); }
        "8"
    } else {
        proof { reveal_strlit("9"); }
        "9"
    }
}

/// The decimal text of an unsigned integer, as `to_string` writes it.
pub fn format_u64(n: u64) -> (s: String)
    ensures
        s@ == decimal_nat(n as nat),
    decreases n,
{
    if n < 10 {
        String::from_str(digit_str(n))
    } else {
        let mut s = format_u64(n / 10);
        s.append(digit_str(n % 10));
        s
    }
}

/// The decimal text of a signed integer, as `to_string` writes it.
pub fn format_i64(n: i64) -> (s: String)
    ensures
        s@ == decimal_int(n as int),
{
    if n < 0 {
        // -(n + 1) cannot overflow; the magnitude is one more.
        let magnitude: u64 = (-(n + 1)) as u64 + 1;
        let digits = format_u64(magnitude);
        let mut s = String::from_str("-");
        proof { reveal_strlit("-"); }
        s.append(digits.as_str());
        s
    } else {
        format_u64(n as u64)
    }
}

} // verus!
