//! Canonical decimal text of signed integers.
//!
//! Timestamps and timezone offsets travel to the host as text. The rendering
//! is the usual one: an optional leading minus sign followed by the digits of
//! the magnitude, most significant first, with no padding and no plus sign.

use vstd::prelude::*;
use vstd::string::*;

verus! {

/// The character that stands for the decimal digit `d`.
pub open spec fn digit_char(d: nat) -> char
    recommends
        d < 10,
{
    if d == 0 {
        '0'
    } else if d == 1 {
        '1'
    } else if d == 2 {
        '2'
    } else if d == 3 {
        '3'
    } else if d == 4 {
        '4'
    } else if d == 5 {
        '5'
    } else if d == 6 {
        '6'
    } else if d == 7 {
        '7'
    } else if d == 8 {
        '8'
    } else {
        '9'
    }
}

/// The digits of `n`, most significant first. Zero is the single digit `0`.
pub open spec fn digits_text(n: nat) -> Seq<char>
    decreases n,
{
    if n < 10 {
        seq![digit_char(n)]
    } else {
        digits_text(n / 10).push(digit_char(n % 10))
    }
}

/// The decimal text of `n`: a minus sign for negative numbers, then the
/// digits of the magnitude.
pub open spec fn decimal_text(n: int) -> Seq<char> {
    if n < 0 {
        seq!['-'] + digits_text((-n) as nat)
    } else {
        digits_text(n as nat)
    }
}

/// Number of digits of `n`.
pub open spec fn digit_count(n: nat) -> nat
    decreases n,
{
    if n < 10 {
        1
    } else {
        digit_count(n / 10) + 1
    }
}

/// The digit text has one character per digit and is never empty.
pub proof fn lemma_digits_text_len(n: nat)
    ensures
        digits_text(n).len() == digit_count(n),
        digits_text(n).len() >= 1,
    decreases n,
{
    if n >= 10 {
        lemma_digits_text_len(n / 10);
    }
}

/// Every character of the digit text is a decimal digit.
pub proof fn lemma_digits_text_chars(n: nat, i: int)
    requires
        0 <= i < digits_text(n).len(),
    ensures
        '0' <= digits_text(n)[i] <= '9',
    decreases n,
{
    if n >= 10 {
        if i < digits_text(n / 10).len() {
            lemma_digits_text_chars(n / 10, i);
        }
    }
}

/// The value that a digit character stands for.
pub open spec fn digit_value(c: char) -> nat {
    if c == '1' {
        1
    } else if c == '2' {
        2
    } else if c == '3' {
        3
    } else if c == '4' {
        4
    } else if c == '5' {
        5
    } else if c == '6' {
        6
    } else if c == '7' {
        7
    } else if c == '8' {
        8
    } else if c == '9' {
        9
    } else {
        0
    }
}

/// The number that a sequence of digit characters denotes.
pub open spec fn digits_value(text: Seq<char>) -> nat
    decreases text.len(),
{
    if text.len() == 0 {
        0
    } else {
        digits_value(text.drop_last()) * 10 + digit_value(text.last())
    }
}

/// Reading the digit text back gives the number it was made from, so two
/// different numbers never share a text.
pub proof fn lemma_digits_text_round_trip(n: nat)
    ensures
        digits_value(digits_text(n)) == n,
    decreases n,
{
    if n < 10 {
        let t = digits_text(n);
        assert(t.drop_last() =~= Seq::<char>::empty());
        assert(digits_value(t.drop_last()) == 0);
    } else {
        lemma_digits_text_round_trip(n / 10);
        let t = digits_text(n);
        assert(t.drop_last() =~= digits_text(n / 10));
        assert(t.last() == digit_char(n % 10));
    }
}

/// Different integers have different decimal texts.
pub proof fn lemma_decimal_text_injective(a: int, b: int)
    requires
        decimal_text(a) == decimal_text(b),
    ensures
        a == b,
{
    let ta = decimal_text(a);
    let tb = decimal_text(b);
    if a < 0 {
        let da = digits_text((-a) as nat);
        assert(ta[0] == '-');
        if b >= 0 {
            lemma_digits_text_len(b as nat);
            lemma_digits_text_chars(b as nat, 0);
            assert(false);
        }
        let db = digits_text((-b) as nat);
        assert(da =~= ta.subrange(1, ta.len() as int));
        assert(db =~= tb.subrange(1, tb.len() as int));
        lemma_digits_text_round_trip((-a) as nat);
        lemma_digits_text_round_trip((-b) as nat);
    } else {
        if b < 0 {
            assert(tb[0] == '-');
            lemma_digits_text_len(a as nat);
            lemma_digits_text_chars(a as nat, 0);
            assert(false);
        }
        lemma_digits_text_round_trip(a as nat);
        lemma_digits_text_round_trip(b as nat);
    }
}

/// The one-character string of a decimal digit.
fn digit_str(d: u64) -> (s: &'static str)
    requires
        d < 10,
    ensures
        s@ == seq![digit_char(d as nat)],
{
    proof {
        reveal_strlit("0");
        reveal_strlit("1");
        reveal_strlit("2");
        reveal_strlit("3");
        reveal_strlit("4");
        reveal_strlit("5");
        reveal_strlit("6");
        reveal_strlit("7");
        reveal_strlit("8");
        reveal_strlit("9");
    }
    let s = if d == 0 {
        "0"
    } else if d == 1 {
        "1"
    } else if d == 2 {
        "2"
    } else if d == 3 {
        "3"
    } else if d == 4 {
        "4"
    } else if d == 5 {
        "5"
    } else if d == 6 {
        "6"
    } else if d == 7 {
        "7"
    } else if d == 8 {
        "8"
    } else {
        "9"
    };
    assert(s@ =~= seq![digit_char(d as nat)]);
    s
}

/// Appends the digits of `n` to `out`.
fn append_digits(out: &mut String, n: u64)
    ensures
        final(out)@ == old(out)@ + digits_text(n as nat),
    decreases n,
{
    if n >= 10 {
        append_digits(out, n / 10);
    }
    out.append(digit_str(n % 10));
    assert(out@ =~= old(out)@ + digits_text(n as nat));
}

/// Renders `n` as decimal text.
pub fn decimal_string(n: i64) -> (s: String)
    ensures
        s@ == decimal_text(n as int),
{
    let mut out = String::new();
    if n < 0 {
        proof {
            reveal_strlit("-");
        }
        out.append("-");
        let below: i64 = -(n + 1);
        let magnitude: u64 = below as u64 + 1;
        append_digits(&mut out, magnitude);
        assert(out@ =~= decimal_text(n as int));
    } else {
        append_digits(&mut out, n as u64);
        assert(out@ =~= decimal_text(n as int));
    }
    out
}

} // verus!
