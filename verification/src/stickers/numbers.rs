use vstd::prelude::*;

verus! {

/// The character that writes the digit `d`.
pub open spec fn digit_char(d: nat) -> char {
    if d == 0 {
        '0'
    } else if d == 1 {
        '1'
    } else if d == 2 {
        '2'
    } else if d == 3 {
        '3'
    } else if d == 4 {
        '4'
    } else if d == 5 {
        '5'
    } else if d == 6 {
        '6'
    } else if d == 7 {
        '7'
    } else if d == 8 {
        '8'
    } else {
        '9'
    }
}

/// The digit that `c` writes, if it writes one.
pub open spec fn digit_value(c: char) -> Option<nat> {
    if c == '0' {
        Some(0)
    } else if c == '1' {
        Some(1)
    } else if c == '2' {
        Some(2)
    } else if c == '3' {
        Some(3)
    } else if c == '4' {
        Some(4)
    } else if c == '5' {
        Some(5)
    } else if c == '6' {
        Some(6)
    } else if c == '7' {
        Some(7)
    } else if c == '8' {
        Some(8)
    } else if c == '9' {
        Some(9)
    } else {
        None
    }
}

/// `n` written in decimal, without sign or leading zeros.
pub open spec fn decimal(n: nat) -> Seq<char>
    decreases n,
{
    if n < 10 {
        seq![digit_char(n)]
    } else {
        decimal(n / 10).push(digit_char(n % 10))
    }
}

/// The number that `text` writes in decimal: `None` unless `text` is one or
/// more digits.
pub open spec fn decimal_value(text: Seq<char>) -> Option<nat>
    decreases text.len(),
{
    if text.len() == 0 {
        None
    } else if text.len() == 1 {
        digit_value(text[0])
    } else {
        match (decimal_value(text.drop_last()), digit_value(text.last())) {
            (Some(high), Some(low)) => Some(10 * high + low),
            _ => None,
        }
    }
}

/// Reading a number back from its decimal form gives the number.
pub proof fn lemma_decimal_round_trip(n: nat)
    ensures
        decimal(n).len() >= 1,
        decimal_value(decimal(n)) == Some(n),
    decreases n,
{
    if n >= 10 {
        lemma_decimal_round_trip(n / 10);
        let high: Seq<char> = decimal(n / 10);
        let full: Seq<char> = high.push(digit_char(n % 10));
        assert(full.drop_last() =~= high);
        assert(full.last() == digit_char(n % 10));
    }
}

/// A number written with more digits after it is at least as large.
proof fn lemma_decimal_value_grows(text: Seq<char>, taken: int)
    requires
        1 <= taken <= text.len(),
        decimal_value(text) is Some,
    ensures
        decimal_value(text.take(taken)) is Some,
        decimal_value(text.take(taken))->0 <= decimal_value(text)->0,
    decreases text.len(),
{
    if taken == text.len() {
        assert(text.take(taken) =~= text);
    } else {
        assert(text.len() >= 2);
        lemma_decimal_value_grows(text.drop_last(), taken);
        assert(text.drop_last().take(taken) =~= text.take(taken));
    }
}

/// The one-character text of a digit.
fn digit_str(d: u64) -> (text: &'static str)
    requires
        d < 10,
    ensures
        text@ == seq![digit_char(d as nat)],
{
    proof {
        reveal_strlit("0");
        reveal_strlit("1");
        reveal_strlit("2");
        reveal_strlit("3");
        reveal_strlit("4");
        reveal_strlit("5");
        reveal_strlit("6");
        reveal_strlit("7");
        reveal_strlit("8");
        reveal_strlit("9");
    }
    let text: &'static str = if d == 0 {
        "0"
    } else if d == 1 {
        "1"
    } else if d == 2 {
        "2"
    } else if d == 3 {
        "3"
    } else if d == 4 {
        "4"
    } else if d == 5 {
        "5"
    } else if d == 6 {
        "6"
    } else if d == 7 {
        "7"
    } else if d == 8 {
        "8"
    } else {
        "9"
    };
    assert(text@ =~= seq![digit_char(d as nat)]);
    text
}

/// Write `n` in decimal.
pub fn decimal_string(n: u64) -> (text: String)
    ensures
        text@ == decimal(n as nat),
    decreases n,
{
    if n < 10 {
        String::from_str(digit_str(n))
    } else {
        let mut text: String = decimal_string(n / 10);
        text.append(digit_str(n % 10));
        assert(text@ =~= decimal((n / 10) as nat).push(digit_char((n % 10) as nat)));
        text
    }
}

/// `n` written in decimal, with a minus sign before a negative number.
pub open spec fn signed_decimal(n: int) -> Seq<char> {
    if n < 0 {
        "-"@ + decimal((-n) as nat)
    } else {
        decimal(n as nat)
    }
}

/// Write `n` in decimal, with a minus sign if it is negative.
pub fn signed_decimal_string(n: i64) -> (text: String)
    ensures
        text@ == signed_decimal(n as int),
{
    if n < 0 {
        let magnitude: u64 = (-(n + 1)) as u64 + 1;
        let mut text: String = String::from_str("-");
        text.append(decimal_string(magnitude).as_str());
        text
    } else {
        decimal_string(n as u64)
    }
}

/// The value of the digit `c`, if it is one.
fn digit_of(c: char) -> (digit: Option<u64>)
    ensures
        digit is Some == digit_value(c) is Some,
        digit is Some ==> digit->0 == digit_value(c)->0,
{
    if c == '0' {
        Some(0)
    } else if c == '1' {
        Some(1)
    } else if c == '2' {
        Some(2)
    } else if c == '3' {
        Some(3)
    } else if c == '4' {
        Some(4)
    } else if c == '5' {
        Some(5)
    } else if c == '6' {
        Some(6)
    } else if c == '7' {
        Some(7)
    } else if c == '8' {
        Some(8)
    } else if c == '9' {
        Some(9)
    } else {
        None
    }
}

/// Read a decimal number: `Some` exactly when `text` is one or more digits
/// that write a number no greater than `u64::MAX`.
pub fn parse_decimal(text: &str) -> (number: Option<u64>)
    ensures
        number is Some <==> (decimal_value(text@) is Some && decimal_value(text@)->0
            <= u64::MAX),
        number is Some ==> number->0 == decimal_value(text@)->0,
{
    let len: usize = text.unicode_len();
    if len == 0 {
        return None;
    }
    let mut value: u64 = 0;
    let mut i: usize = 0;
    while i < len
        invariant
            len == text@.len(),
            0 <= i <= len,
            i == 0 ==> value == 0,
            i > 0 ==> decimal_value(text@.take(i as int)) == Some(value as nat),
        decreases len - i,
    {
        let c: char = text.get_char(i);
        let ghost next: Seq<char> = text@.take(i + 1);
        proof {
            assert(next.last() == c);
            if i > 0 {
                assert(next.drop_last() =~= text@.take(i as int));
            }
        }
        let digit: u64 = match digit_of(c) {
            Some(digit) => digit,
            None => {
                proof {
                    assert(decimal_value(next) is None);
                    if decimal_value(text@) is Some {
                        lemma_decimal_value_grows(text@, i + 1);
                    }
                }
                return None;
            },
        };
        if value > (u64::MAX - digit) / 10 {
            proof {
                assert(decimal_value(next) == Some((10 * value + digit) as nat));
                if decimal_value(text@) is Some {
                    lemma_decimal_value_grows(text@, i + 1);
                }
            }
            return None;
        }
        value = 10 * value + digit;
        i = i + 1;
    }
    proof {
        assert(text@.take(len as int) =~= text@);
    }
    Some(value)
}

} // verus!
