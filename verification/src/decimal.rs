use vstd::prelude::*;

verus! {

/// An ASCII decimal digit.
pub open spec fn is_digit(c: char) -> bool {
    '0' <= c && c <= '9'
}

/// The value of the ASCII digit `c`.
pub open spec fn digit_value(c: char) -> int {
    c as int - '0' as int
}

/// The ASCII digit of value `d`, for `d` below ten.
pub open spec fn digit_char(d: int) -> char {
    ('0' as int + d) as char
}

/// Every character of `s` is an ASCII digit.
pub open spec fn all_digits(s: Seq<char>) -> bool {
    forall|i: int| 0 <= i < s.len() ==> is_digit(#[trigger] s[i])
}

/// The number written in decimal by the digits `s`, most significant first.
pub open spec fn digits_value(s: Seq<char>) -> int
    decreases s.len(),
{
    if s.len() == 0 {
        0
    } else {
        digits_value(s.drop_last()) * 10 + digit_value(s.last())
    }
}

/// `text` without one leading `+`, if it has one.
pub open spec fn strip_plus(text: Seq<char>) -> Seq<char> {
    if text.len() > 0 && text[0] == '+' {
        text.drop_first()
    } else {
        text
    }
}

/// How the standard library reads an unsigned integer type whose largest
/// value is `max` from `text`: an optional `+`, then one or more ASCII digits
/// whose value does not exceed `max`; anything else is refused.
pub open spec fn parse_unsigned(text: Seq<char>, max: int) -> Option<int> {
    let digits = strip_plus(text);
    if digits.len() > 0 && all_digits(digits) && digits_value(digits) <= max {
        Some(digits_value(digits))
    } else {
        None
    }
}

/// The decimal writing of `n`, without leading zeros (`"0"` for zero).
pub open spec fn decimal(n: nat) -> Seq<char>
    decreases n,
{
    if n < 10 {
        seq![digit_char(n as int)]
    } else {
        decimal(n / 10).push(digit_char((n % 10) as int))
    }
}

/// The decimal writing of `n` is made of digits, starts with a digit, and
/// denotes `n`.
pub proof fn lemma_decimal_denotes(n: nat)
    ensures
        decimal(n).len() > 0,
        all_digits(decimal(n)),
        digits_value(decimal(n)) == n,
    decreases n,
{
    if n < 10 {
        let s = decimal(n);
        assert(s.drop_last() =~= Seq::<char>::empty());
        assert(digit_value(digit_char(n as int)) == n);
        assert(digits_value(s) == digits_value(s.drop_last()) * 10 + digit_value(s.last()));
    } else {
        lemma_decimal_denotes(n / 10);
        let s = decimal(n);
        assert(s.drop_last() =~= decimal(n / 10));
        assert(s.last() == digit_char((n % 10) as int));
        assert(digit_value(digit_char((n % 10) as int)) == n % 10);
        assert(digits_value(s) == digits_value(decimal(n / 10)) * 10 + (n % 10));
        assert((n / 10) * 10 + n % 10 == n) by (nonlinear_arith);
        assert forall|i: int| 0 <= i < s.len() implies is_digit(#[trigger] s[i]) by {
            if i < s.len() - 1 {
                assert(s[i] == decimal(n / 10)[i]);
            }
        }
    }
}

/// Reading back the decimal writing of a value that fits gives the value.
pub proof fn lemma_parse_decimal(n: nat, max: int)
    requires
        n <= max,
    ensures
        parse_unsigned(decimal(n), max) == Some(n as int),
{
    lemma_decimal_denotes(n);
    assert(is_digit(decimal(n)[0]));
    assert(strip_plus(decimal(n)) == decimal(n));
}

/// What reading an unsigned integer refuses and gives: the empty text, a
/// lone `+` and any text with a character that is neither a digit nor a
/// leading `+` are refused; a value read never exceeds the maximum; and one
/// leading `+` before digits does not change the value.
pub proof fn lemma_parse_unsigned_shape(t: Seq<char>, max: int)
    ensures
        parse_unsigned(Seq::<char>::empty(), max) is None,
        parse_unsigned(seq!['+'], max) is None,
        forall|i: int|
            0 <= i < t.len() && !is_digit(#[trigger] t[i]) && !(i == 0 && t[i] == '+')
                ==> parse_unsigned(t, max) is None,
        parse_unsigned(t, max) matches Some(v) ==> 0 <= v <= max,
        t.len() > 0 && t[0] != '+' ==> parse_unsigned(seq!['+'] + t, max) == parse_unsigned(t, max),
{
    assert(seq!['+'].drop_first() =~= Seq::<char>::empty());
    if t.len() > 0 && t[0] != '+' {
        assert((seq!['+'] + t).drop_first() =~= t);
    }
    assert forall|i: int|
        0 <= i < t.len() && !is_digit(#[trigger] t[i]) && !(i == 0 && t[i] == '+')
        implies parse_unsigned(t, max) is None by {
        let d = strip_plus(t);
        if t.len() > 0 && t[0] == '+' {
            assert(d[i - 1] == t[i]);
        } else {
            assert(d[i] == t[i]);
        }
    }
    if parse_unsigned(t, max) is Some {
        lemma_digits_value_nonneg(strip_plus(t));
    }
}

/// The number written by digits is not negative.
pub proof fn lemma_digits_value_nonneg(s: Seq<char>)
    requires
        all_digits(s),
    ensures
        digits_value(s) >= 0,
    decreases s.len(),
{
    if s.len() > 0 {
        assert(is_digit(s[s.len() - 1]));
        assert(all_digits(s.drop_last())) by {
            assert forall|i: int| 0 <= i < s.drop_last().len() implies is_digit(#[trigger] s.drop_last()[i]) by {
                assert(s.drop_last()[i] == s[i]);
            }
        }
        lemma_digits_value_nonneg(s.drop_last());
    }
}

} // verus!
