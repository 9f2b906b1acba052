//! The pieces of statement text: quoted names and integer literals.

use vstd::prelude::*;

verus! {

/// `name` with every double quote doubled.
pub open spec fn escaped(name: Seq<char>) -> Seq<char>
    decreases name.len(),
{
    if name.len() == 0 {
        Seq::empty()
    } else if name.last() == '"' {
        escaped(name.drop_last()).push('"').push('"')
    } else {
        escaped(name.drop_last()).push(name.last())
    }
}

/// `name` as a quoted identifier: between double quotes, with the double
/// quotes inside it doubled.
pub open spec fn quoted(name: Seq<char>) -> Seq<char> {
    seq!['"'] + escaped(name) + seq!['"']
}

/// Writes `name` as a quoted identifier, so that any name can stand in a
/// statement without being read as anything but a name.
pub fn quote_identifier(name: &str) -> (text: String)
    ensures
        text@ == quoted(name@),
{
    let len = name.unicode_len();
    let mut text = String::from_str("\"");
    proof {
        reveal_strlit("\"");
        reveal_strlit("\"\"");
    }
    let mut i: usize = 0;
    while i < len
        invariant
            i <= len,
            len == name@.len(),
            "\"\""@ == seq!['"', '"'],
            text@ == seq!['"'] + escaped(name@.take(i as int)),
        decreases len - i,
    {
        let c = name.get_char(i);
        assert(name@.take(i + 1).drop_last() =~= name@.take(i as int));
        if c == '"' {
            text.append("\"\"");
        } else {
            text.append(name.substring_char(i, i + 1));
        }
        i += 1;
    }
    assert(name@.take(len as int) =~= name@);
    text.append("\"");
    text
}

/// The character of the decimal digit `d`.
pub open spec fn digit(d: int) -> char {
    if d == 0 {
        '0'
    } else if d == 1 {
        '1'
    } else if d == 2 {
        '2'
    } else if d == 3 {
        '3'
    } else if d == 4 {
        '4'
    } else if d == 5 {
        '5'
    } else if d == 6 {
        '6'
    } else if d == 7 {
        '7'
    } else if d == 8 {
        '8'
    } else {
        '9'
    }
}

/// The decimal digits of `n`, most significant first, without leading zeros.
pub open spec fn digits(n: nat) -> Seq<char>
    decreases n,
{
    if n < 10 {
        seq![digit(n as int)]
    } else {
        digits(n / 10).push(digit((n % 10) as int))
    }
}

/// The decimal literal of `value`, with a minus sign if it is negative.
pub open spec fn decimal(value: int) -> Seq<char> {
    if value < 0 {
        seq!['-'] + digits((-value) as nat)
    } else {
        digits(value as nat)
    }
}

/// The one-character text of the decimal digit `d`.
fn digit_text(d: u64) -> (text: &'static str)
    requires
        d < 10,
    ensures
        text@ == seq![digit(d as int)],
{
    proof {
        reveal_strlit("0");
        reveal_strlit("1");
        reveal_strlit("2");
        reveal_strlit("3");
        reveal_strlit("4");
        reveal_strlit("5");
        reveal_strlit("6");
        reveal_strlit("7");
        reveal_strlit("8");
        reveal_strlit("9");
    }
    if d == 0 {
        "0"
    } else if d == 1 {
        "1"
    } else if d == 2 {
        "2"
    } else if d == 3 {
        "3"
    } else if d == 4 {
        "4"
    } else if d == 5 {
        "5"
    } else if d == 6 {
        "6"
    } else if d == 7 {
        "7"
    } else if d == 8 {
        "8"
    } else {
        "9"
    }
}

/// Writes `value` as a decimal literal.
pub fn render_integer(value: i64) -> (text: String)
    ensures
        text@ == decimal(value as int),
{
    let negative = value < 0;
    let magnitude: u64 = if negative {
        (-(value + 1)) as u64 + 1
    } else {
        value as u64
    };
    let mut rest: u64 = magnitude / 10;
    let mut text = String::from_str(digit_text(magnitude % 10));
    while rest > 0
        invariant
            rest > 0 ==> digits(magnitude as nat) == digits(rest as nat) + text@,
            rest == 0 ==> digits(magnitude as nat) == text@,
        decreases rest,
    {
        let lower = text;
        text = String::from_str(digit_text(rest % 10)).concat(lower.as_str());
        rest = rest / 10;
    }
    if negative {
        proof {
            reveal_strlit("-");
        }
        text = String::from_str("-").concat(text.as_str());
    }
    text
}

} // verus!
