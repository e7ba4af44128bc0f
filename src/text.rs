//! Small text helpers shared by the encoders.
use vstd::prelude::*;

verus! {

/// True when `a` and `b` hold the same characters.
pub fn same_text(a: &str, b: &str) -> (r: bool)
    ensures
        r == (a@ == b@),
{
    a.to_owned() == b.to_owned()
}

/// The decimal digit character for `d < 10`.
pub open spec fn digit_char(d: nat) -> char {
    if d == 0 {
        '0'
    } else if d == 1 {
        '1'
    } else if d == 2 {
        '2'
    } else if d == 3 {
        '3'
    } else if d == 4 {
        '4'
    } else if d == 5 {
        '5'
    } else if d == 6 {
        '6'
    } else if d == 7 {
        '7'
    } else if d == 8 {
        '8'
    } else {
        '9'
    }
}

/// The decimal notation of `n`, without sign or leading zeros.
pub open spec fn decimal(n: nat) -> Seq<char>
    decreases n,
{
    if n < 10 {
        seq![digit_char(n)]
    } else {
        decimal(n / 10).push(digit_char(n % 10))
    }
}

fn digit_str(d: usize) -> (r: &'static str)
    requires
        d < 10,
    ensures
        r@ == seq![digit_char(d as nat)],
{
    proof {
        reveal_strlit("0");
        reveal_strlit("1");
        reveal_strlit("2");
        reveal_strlit("3");
        reveal_strlit("4");
        reveal_strlit("5");
        reveal_strlit("6");
        reveal_strlit("7");
        reveal_strlit("8");
        reveal_strlit("9");
    }
    if d == 0 {
        "0"
    } else if d == 1 {
        "1"
    } else if d == 2 {
        "2"
    } else if d == 3 {
        "3"
    } else if d == 4 {
        "4"
    } else if d == 5 {
        "5"
    } else if d == 6 {
        "6"
    } else if d == 7 {
        "7"
    } else if d == 8 {
        "8"
    } else {
        "9"
    }
}

/// Writes `n` in decimal.
pub fn decimal_string(n: usize) -> (r: String)
    ensures
        r@ == decimal(n as nat),
    decreases n,
{
    if n < 10 {
        String::from_str(digit_str(n))
    } else {
        let mut s = decimal_string(n / 10);
        s.append(digit_str(n % 10));
        s
    }
}

/// A character that a JSON string can hold without an escape.
pub open spec fn json_plain_char(c: char) -> bool {
    c != '"' && c != '\\' && (c as u32) >= 0x20 && (c as u32) != 0x7f
}

/// The JSON string literal that the serializer writes for `s`: the
/// characters in double quotes, with quotes, backslashes and control
/// characters escaped.
pub uninterp spec fn json_quoted(s: Seq<char>) -> Seq<char>;

/// Relies on nanoserde's `SerJson` for `str`: it writes a double quote, each
/// character (escaping quotes, backslashes and control characters) and a
/// closing double quote, and depends on the characters alone.
#[verifier::external_body]
pub(crate) fn json_quote(s: &str) -> (r: String)
    ensures
        r@ == json_quoted(s@),
        (forall|i: int| 0 <= i < s@.len() ==> json_plain_char(#[trigger] s@[i])) ==> r@ == seq!['"']
            + s@ + seq!['"'],
{
    nanoserde::SerJson::serialize_json(s)
}

} // verus!
