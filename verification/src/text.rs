//! Decimal numbers as text: writing a count, and reading the value of an option.

use vstd::prelude::*;
use vstd::string::StringExecFns;
use vstd::string::StrSliceExecFns;

verus! {

/// The character that stands for the digit `digit`.
pub open spec fn digit_char(digit: int) -> char
    recommends
        0 <= digit <= 9,
{
    ('0' as int + digit) as char
}

/// Whether `c` is one of the ten decimal digits.
pub open spec fn is_digit(c: char) -> bool {
    '0' <= c <= '9'
}

/// The value of the digit `c`.
pub open spec fn digit_value(c: char) -> nat
    recommends
        is_digit(c),
{
    (c as int - '0' as int) as nat
}

/// `n` in base ten, most significant digit first, without leading zeros.
pub open spec fn decimal_text(n: nat) -> Seq<char>
    decreases n,
{
    if n < 10 {
        seq![digit_char(n as int)]
    } else {
        decimal_text(n / 10).push(digit_char((n % 10) as int))
    }
}

/// Whether `text` is made of decimal digits only; the empty text is.
pub open spec fn all_digits(text: Seq<char>) -> bool {
    forall|i: int| 0 <= i < text.len() ==> is_digit(#[trigger] text[i])
}

/// The number that a text of decimal digits denotes; 0 for the empty text.
pub open spec fn digits_value(digits: Seq<char>) -> nat
    decreases digits.len(),
{
    if digits.len() == 0 {
        0
    } else {
        digits_value(digits.drop_last()) * 10 + digit_value(digits.last())
    }
}

/// What is left of `text` once one leading plus sign is taken off.
pub open spec fn unsigned_part(text: Seq<char>) -> Seq<char> {
    if text.len() > 0 && text[0] == '+' {
        text.skip(1)
    } else {
        text
    }
}

/// Whether `text` is a number in base ten: at least one digit and nothing
/// else, but for one plus sign that may stand in front.
pub open spec fn is_number(text: Seq<char>) -> bool {
    unsigned_part(text).len() > 0 && all_digits(unsigned_part(text))
}

/// The value of `text` as a `usize`, where `text` is a number that fits.
pub open spec fn parsed_number(text: Seq<char>) -> Option<usize> {
    if is_number(text) && digits_value(unsigned_part(text)) <= usize::MAX {
        Some(digits_value(unsigned_part(text)) as usize)
    } else {
        None
    }
}

/// A longer text of digits denotes no smaller a number than its beginning.
pub proof fn lemma_digits_value_grows(digits: Seq<char>, k: int)
    requires
        0 <= k <= digits.len(),
    ensures
        digits_value(digits.take(k)) <= digits_value(digits),
    decreases digits.len(),
{
    if k == digits.len() {
        assert(digits.take(k) == digits);
    } else {
        lemma_digits_value_grows(digits.drop_last(), k);
        assert(digits.drop_last().take(k) == digits.take(k));
    }
}

/// A number written in base ten reads back as itself: its text is made of
/// digits, at least one, and denotes the number.
pub proof fn lemma_decimal_text_denotes(n: nat)
    ensures
        decimal_text(n).len() > 0,
        all_digits(decimal_text(n)),
        digits_value(decimal_text(n)) == n,
    decreases n,
{
    if n < 10 {
        let text = decimal_text(n);
        assert(text.drop_last() == Seq::<char>::empty());
        assert(digits_value(text.drop_last()) == 0);
    } else {
        lemma_decimal_text_denotes(n / 10);
        let text = decimal_text(n);
        assert(text.drop_last() == decimal_text(n / 10));
    }
}

/// What `decimal` writes for a number, `parse_number` reads as that number.
pub proof fn lemma_decimal_round_trip(n: usize)
    ensures
        is_number(decimal_text(n as nat)),
        parsed_number(decimal_text(n as nat)) == Some(n),
{
    lemma_decimal_text_denotes(n as nat);
    assert(decimal_text(n as nat)[0] != '+');
}

/// Writes `n` in base ten at the end of `out`.
pub fn push_decimal(out: &mut String, n: usize)
    ensures
        final(out)@ == old(out)@ + decimal_text(n as nat),
    decreases n,
{
    if n >= 10 {
        push_decimal(out, n / 10);
    }
    let digit: usize = n % 10;
    let digits = "0123456789";
    proof {
        reveal_strlit("0123456789");
    }
    out.append(digits.substring_ascii(digit, digit + 1));
    assert(digits@.subrange(digit as int, digit + 1) == seq![digit_char(digit as int)]);
}

/// `n` in base ten.
pub fn decimal(n: usize) -> (text: String)
    ensures
        text@ == decimal_text(n as nat),
{
    let mut text = String::new();
    push_decimal(&mut text, n);
    text
}

/// Reads `text` as a number in base ten. `None` where `text` is not such a
/// number, or is one that a `usize` cannot hold.
pub fn parse_number(text: &str) -> (value: Option<usize>)
    ensures
        value == parsed_number(text@),
{
    let len = text.unicode_len();
    let start: usize = if len > 0 && text.get_char(0) == '+' { 1 } else { 0 };
    if start == len {
        return None;
    }
    let ghost digits = unsigned_part(text@);
    let mut value: usize = 0;
    let mut i: usize = start;
    while i < len
        invariant
            start <= i <= len,
            len == text@.len(),
            start == text@.len() - digits.len(),
            digits == unsigned_part(text@),
            digits == text@.skip(start as int),
            all_digits(digits.take(i - start)),
            value == digits_value(digits.take(i - start)),
        decreases len - i,
    {
        let c = text.get_char(i);
        assert(c == digits[i - start]);
        if !('0' <= c && c <= '9') {
            return None;
        }
        let digit: usize = (c as u8 - '0' as u8) as usize;
        proof {
            let longer = digits.take(i - start + 1);
            assert(longer.drop_last() == digits.take(i - start));
            assert(longer.last() == c);
            assert(digits_value(longer) == value * 10 + digit);
            lemma_digits_value_grows(digits, i - start + 1);
        }
        value = match value.checked_mul(10) {
            Some(tens) => match tens.checked_add(digit) {
                Some(sum) => sum,
                None => { return None; },
            },
            None => { return None; },
        };
        i += 1;
    }
    assert(digits.take(i - start) == digits);
    Some(value)
}

} // verus!
