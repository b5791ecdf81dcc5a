//! Decimal notation for integers: what a text stands for, and the text that
//! stands for a number.

use vstd::prelude::*;

verus! {

/// One of the characters `0` to `9`.
pub open spec fn is_digit(c: char) -> bool {
    '0' <= c && c <= '9'
}

/// The number that a digit stands for.
pub open spec fn digit_value(c: char) -> int {
    (c as u8) - 48
}

/// The digit that stands for a number below ten.
pub open spec fn digit_char(d: int) -> char {
    ((48 + d) as u8) as char
}

/// Whether a text holds digits only.
pub open spec fn all_digits(s: Seq<char>) -> bool {
    forall|i: int| 0 <= i < s.len() ==> is_digit(#[trigger] s[i])
}

/// The number that a run of digits stands for, the first digit counting most.
pub open spec fn digits_value(s: Seq<char>) -> int
    decreases s.len(),
{
    if s.len() == 0 {
        0
    } else {
        digits_value(s.drop_last()) * 10 + digit_value(s.last())
    }
}

/// The digits of a number, without leading zeros; zero is a single `0`.
pub open spec fn digits(n: int) -> Seq<char>
    decreases n,
{
    if n < 10 {
        seq![digit_char(n)]
    } else {
        digits(n / 10).push(digit_char(n % 10))
    }
}

/// The text of a number: its digits, behind a minus sign where it is
/// negative.
pub open spec fn decimal_text(v: int) -> Seq<char> {
    if v < 0 {
        seq!['-'] + digits(-v)
    } else {
        digits(v)
    }
}

/// Whether a text begins with a sign.
pub open spec fn has_sign(text: Seq<char>) -> bool {
    text.len() > 0 && (text[0] == '-' || text[0] == '+')
}

/// A text without its sign, if it has one.
pub open spec fn unsigned_part(text: Seq<char>) -> Seq<char> {
    if has_sign(text) {
        text.skip(1)
    } else {
        text
    }
}

/// The number that a text stands for: an optional sign, then one digit or
/// more and nothing else. Any other text stands for none.
pub open spec fn decimal_value(text: Seq<char>) -> Option<int> {
    let body = unsigned_part(text);
    if body.len() > 0 && all_digits(body) {
        if text[0] == '-' {
            Some(-digits_value(body))
        } else {
            Some(digits_value(body))
        }
    } else {
        None
    }
}

/// The 32-bit number that a text stands for, if it stands for a number and
/// the number fits.
pub open spec fn decimal_i32(text: Seq<char>) -> Option<i32> {
    match decimal_value(text) {
        Some(v) => if i32::MIN <= v && v <= i32::MAX {
            Some(v as i32)
        } else {
            None
        },
        None => None,
    }
}

/// The digits of a number are digits, at least one, and stand for the
/// number.
pub proof fn digits_read_back(n: int)
    requires
        0 <= n,
    ensures
        digits(n).len() > 0,
        all_digits(digits(n)),
        digits_value(digits(n)) == n,
    decreases n,
{
    if n < 10 {
        let s = digits(n);
        assert(s.drop_last() =~= Seq::<char>::empty());
        assert(digits_value(s.drop_last()) == 0);
        assert(digit_value(s.last()) == n);
    } else {
        digits_read_back(n / 10);
        let head = digits(n / 10);
        let s = digits(n);
        assert(s.drop_last() =~= head);
        assert(digit_value(s.last()) == n % 10);
        assert(is_digit(s.last()));
        assert forall|i: int| 0 <= i < s.len() implies is_digit(#[trigger] s[i]) by {
            if i < head.len() {
                assert(s[i] == head[i]);
            }
        }
    }
}

/// The text of a number stands for that number.
pub proof fn text_reads_back(v: int)
    ensures
        decimal_value(decimal_text(v)) == Some(v),
{
    let text = decimal_text(v);
    if v < 0 {
        digits_read_back(-v);
        assert(text.skip(1) =~= digits(-v));
    } else {
        digits_read_back(v);
        assert(is_digit(text[0]));
    }
}

/// The text of a 32-bit number stands for that number.
pub proof fn text_reads_back_i32(v: i32)
    ensures
        decimal_i32(decimal_text(v as int)) == Some(v),
{
    text_reads_back(v as int);
}

} // verus!
