//! Small text-building helpers shared by the widgets: turning an owned
//! character sequence into a `String`, and decimal rendering of the small
//! numbers the fake data uses.

use vstd::prelude::*;

verus! {

/// Relies on std's `FromIterator<char> for String`: collecting characters
/// yields the string of exactly those characters in order.
#[verifier::external_body]
pub(crate) fn chars_to_string(chars: &Vec<char>) -> (r: String)
    ensures
        r@ == chars@,
{
    chars.iter().collect()
}

/// The character for one decimal digit.
pub open spec fn spec_digit(d: int) -> char {
    ((0x30 + d) as u8) as char
}

/// The decimal rendering of `n`, for `0 <= n < 100`.
pub open spec fn spec_decimal(n: int) -> Seq<char> {
    if n < 10 {
        seq![spec_digit(n)]
    } else {
        seq![spec_digit(n / 10), spec_digit(n % 10)]
    }
}

fn digit_char(d: u32) -> (r: char)
    requires
        d < 10,
    ensures
        r == spec_digit(d as int),
{
    (0x30 + d as u8) as char
}

/// Decimal rendering of a small number, as the fake message ids use.
pub fn decimal_string(n: u32) -> (r: String)
    requires
        n < 100,
    ensures
        r@ == spec_decimal(n as int),
{
    let mut chars: Vec<char> = Vec::new();
    if n >= 10 {
        chars.push(digit_char(n / 10));
    }
    chars.push(digit_char(n % 10));
    chars_to_string(&chars)
}

} // verus!
