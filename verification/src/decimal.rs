//! Decimal notation for unsigned integers: what a text denotes and how a
//! number is written.

use vstd::prelude::*;

verus! {

/// `c` is one of the ten ASCII digits.
pub open spec fn is_digit(c: char) -> bool {
    '0' <= c <= '9'
}

/// The number from 0 to 9 that a digit stands for.
pub open spec fn digit_value(c: char) -> nat
    recommends
        is_digit(c),
{
    (c as int - '0' as int) as nat
}

/// Every character of `s` is a digit.
pub open spec fn all_digits(s: Seq<char>) -> bool {
    forall|i: int| 0 <= i < s.len() ==> is_digit(#[trigger] s[i])
}

/// The number that a run of digits denotes, most significant digit first.
/// The empty run denotes 0.
pub open spec fn digits_value(s: Seq<char>) -> nat
    decreases s.len(),
{
    if s.len() == 0 {
        0
    } else {
        digits_value(s.drop_last()) * 10 + digit_value(s.last())
    }
}

/// The digits of a decimal text: the text itself, or what follows a leading
/// plus sign.
pub open spec fn unsigned_part(s: Seq<char>) -> Seq<char> {
    if s.len() > 0 && s[0] == '+' {
        s.skip(1)
    } else {
        s
    }
}

/// The number that a decimal text denotes: an optional plus sign, then one or
/// more digits whose value is at most `u64::MAX`. Any other text denotes
/// nothing.
pub open spec fn decimal_value(s: Seq<char>) -> Option<u64> {
    let digits = unsigned_part(s);
    if digits.len() > 0 && all_digits(digits) && digits_value(digits) <= u64::MAX {
        Some(digits_value(digits) as u64)
    } else {
        None
    }
}

/// The digit that stands for a number from 0 to 9.
pub open spec fn digit_char(d: nat) -> char
    recommends
        d < 10,
{
    ('0' as nat + d) as char
}

/// How a number is written: its decimal digits, most significant first, with
/// no sign and no leading zero (0 itself is written `0`).
pub open spec fn decimal_text(n: nat) -> Seq<char>
    decreases n,
{
    if n < 10 {
        seq![digit_char(n)]
    } else {
        decimal_text(n / 10).push(digit_char(n % 10))
    }
}

/// A longer run of digits denotes at least what any of its beginnings denotes.
proof fn lemma_digits_value_grows(s: Seq<char>, k: int)
    requires
        0 <= k <= s.len(),
    ensures
        digits_value(s.take(k)) <= digits_value(s),
    decreases s.len() - k,
{
    if k == s.len() {
        assert(s.take(k) =~= s);
    } else {
        lemma_digits_value_grows(s, k + 1);
        assert(s.take(k + 1).drop_last() =~= s.take(k));
    }
}

/// Reading one more digit multiplies what was read by ten and adds the digit.
proof fn lemma_digits_value_step(s: Seq<char>, k: int)
    requires
        0 <= k < s.len(),
    ensures
        digits_value(s.take(k + 1)) == digits_value(s.take(k)) * 10 + digit_value(s[k]),
{
    assert(s.take(k + 1).drop_last() =~= s.take(k));
}

fn digit_of(c: char) -> (d: u64)
    requires
        is_digit(c),
    ensures
        d == digit_value(c),
        d < 10,
{
    (c as u32 - '0' as u32) as u64
}

/// Reads the first `len` characters of `text` as a decimal number.
pub(crate) fn parse_decimal_prefix(text: &str, len: usize) -> (value: Option<u64>)
    requires
        len <= text@.len(),
    ensures
        value == decimal_value(text@.take(len as int)),
{
    let ghost prefix = text@.take(len as int);
    let ghost digits = unsigned_part(prefix);
    let mut pos: usize = 0;
    let mut acc: u64 = 0;
    let mut signed: bool = false;
    let mut valid: bool = true;
    for c in it: text.chars()
        invariant
            it.seq() == text@,
            len <= text@.len(),
            prefix == text@.take(len as int),
            digits == unsigned_part(prefix),
            pos == if it.index() <= len { it.index() } else { len as int },
            signed <==> pos > 0 && prefix[0] == '+',
            valid ==> {
                let seen = if signed { pos - 1 } else { pos as int };
                &&& seen <= digits.len()
                &&& all_digits(digits.take(seen))
                &&& acc == digits_value(digits.take(seen))
            },
            !valid ==> decimal_value(prefix) is None,
    {
        if pos < len {
            if pos == 0 && c == '+' {
                signed = true;
            } else if valid {
                let ghost seen = if signed { pos - 1 } else { pos as int };
                if '0' <= c && c <= '9' {
                    proof {
                        lemma_digits_value_step(digits, seen);
                        lemma_digits_value_grows(digits, seen + 1);
                    }
                    let d = digit_of(c);
                    if acc <= (u64::MAX - d) / 10 {
                        acc = acc * 10 + d;
                    } else {
                        valid = false;
                    }
                } else {
                    valid = false;
                }
            }
            pos = pos + 1;
        }
    }
    let count = if signed { len - 1 } else { len };
    assert(digits.take(count as int) =~= digits);
    if valid && count > 0 {
        Some(acc)
    } else {
        None
    }
}

/// Reads a whole text as a decimal number.
pub fn parse_decimal(text: &str) -> (value: Option<u64>)
    ensures
        value == decimal_value(text@),
{
    let len = text.unicode_len();
    assert(text@.take(len as int) =~= text@);
    parse_decimal_prefix(text, len)
}

/// `String::push` appends one character to a string. Taken on trust: that
/// the string is then what it was, followed by that character.
pub assume_specification[ String::push ](s: &mut String, ch: char)
    ensures
        final(s)@ == old(s)@.push(ch),
;

fn char_of_digit(d: u64) -> (c: char)
    requires
        d < 10,
    ensures
        c == digit_char(d as nat),
        is_digit(c),
        digit_value(c) == d,
{
    (d as u8 + 48u8) as char
}

/// Appends the decimal notation of `n` to `out`.
pub fn push_decimal(out: &mut String, n: u64)
    ensures
        final(out)@ == old(out)@ + decimal_text(n as nat),
    decreases n,
{
    if n >= 10 {
        push_decimal(out, n / 10);
    }
    out.push(char_of_digit(n % 10));
}

/// Writes `n` in decimal notation.
pub fn render_decimal(n: u64) -> (text: String)
    ensures
        text@ == decimal_text(n as nat),
{
    let mut text = String::new();
    push_decimal(&mut text, n);
    text
}

/// What is written for a number is a non-empty run of digits that denotes
/// the number.
pub proof fn lemma_decimal_text_digits(n: nat)
    ensures
        decimal_text(n).len() > 0,
        all_digits(decimal_text(n)),
        digits_value(decimal_text(n)) == n,
    decreases n,
{
    let t = decimal_text(n);
    if n < 10 {
        assert(digits_value(t.drop_last()) == 0);
    } else {
        lemma_decimal_text_digits(n / 10);
        assert(t.drop_last() =~= decimal_text(n / 10));
    }
}

/// Reading back what was written for a number gives the number.
pub proof fn lemma_decimal_round_trip(n: u64)
    ensures
        decimal_value(decimal_text(n as nat)) == Some(n),
{
    lemma_decimal_text_digits(n as nat);
}

} // verus!
