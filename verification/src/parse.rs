//! Decimal and boolean decoding of textual invoke inputs, and the textual
//! renderings that error messages embed.

use vstd::prelude::*;
use crate::text::push_char;

verus! {

pub open spec fn is_digit(c: char) -> bool {
    '0' <= c && c <= '9'
}

pub open spec fn digit_value(c: char) -> nat {
    (c as nat - '0' as nat) as nat
}

/// The number written by a string of decimal digits (most significant first).
pub open spec fn digits_value(s: Seq<char>) -> nat
    decreases s.len(),
{
    if s.len() == 0 {
        0
    } else {
        digits_value(s.drop_last()) * 10 + digit_value(s.last())
    }
}

/// The digits of an unsigned decimal literal: an optional leading `+` is dropped.
pub open spec fn unsigned_digits(s: Seq<char>) -> Seq<char> {
    if s.len() > 0 && s[0] == '+' {
        s.drop_first()
    } else {
        s
    }
}

/// An unsigned decimal literal: an optional `+` followed by one or more ASCII digits.
pub open spec fn is_unsigned_decimal(s: Seq<char>) -> bool {
    let d = unsigned_digits(s);
    d.len() > 0 && forall|i: int| 0 <= i < d.len() ==> is_digit(#[trigger] d[i])
}

/// The value of an unsigned decimal literal.
pub open spec fn decimal_value(s: Seq<char>) -> nat {
    digits_value(unsigned_digits(s))
}

/// The shortest decimal rendering of a natural number.
pub open spec fn decimal_text(n: nat) -> Seq<char>
    decreases n,
{
    if n < 10 {
        seq![digit_char(n)]
    } else {
        decimal_text(n / 10).push(digit_char(n % 10))
    }
}

pub open spec fn digit_char(d: nat) -> char {
    if d == 0 { '0' }
    else if d == 1 { '1' }
    else if d == 2 { '2' }
    else if d == 3 { '3' }
    else if d == 4 { '4' }
    else if d == 5 { '5' }
    else if d == 6 { '6' }
    else if d == 7 { '7' }
    else if d == 8 { '8' }
    else { '9' }
}

/// The message of the error `u8::from_str` reports for `s`.
pub uninterp spec fn u8_parse_error_text(s: Seq<char>) -> Seq<char>;

/// The message of the error `u32::from_str` reports for `s`.
pub uninterp spec fn u32_parse_error_text(s: Seq<char>) -> Seq<char>;

/// The message of the error `u64::from_str` reports for `s`.
pub uninterp spec fn u64_parse_error_text(s: Seq<char>) -> Seq<char>;

/// The message of the error `usize::from_str` reports for `s`.
pub uninterp spec fn usize_parse_error_text(s: Seq<char>) -> Seq<char>;

/// The message of the error `bool::from_str` reports for `s`.
pub uninterp spec fn bool_parse_error_text(s: Seq<char>) -> Seq<char>;

/// The `{:?}` rendering of a text: quoted, with special characters escaped.
pub uninterp spec fn debug_text(s: Seq<char>) -> Seq<char>;

/// `<u8 as FromStr>::from_str`: succeeds exactly on unsigned decimal
/// literals whose value fits in `u8`, with that value; the error's message
/// is named.
#[verifier::external_body]
pub(crate) fn parse_u8(s: &str) -> (r: Result<u8, String>)
    ensures
        r is Ok <==> (is_unsigned_decimal(s@) && decimal_value(s@) <= u8::MAX),
        r matches Ok(v) ==> v == decimal_value(s@),
        r matches Err(e) ==> e@ == u8_parse_error_text(s@),
{
    s.parse::<u8>().map_err(|error| error.to_string())
}

/// `<u32 as FromStr>::from_str`, as `parse_u8` for the `u32` range.
#[verifier::external_body]
pub(crate) fn parse_u32(s: &str) -> (r: Result<u32, String>)
    ensures
        r is Ok <==> (is_unsigned_decimal(s@) && decimal_value(s@) <= u32::MAX),
        r matches Ok(v) ==> v == decimal_value(s@),
        r matches Err(e) ==> e@ == u32_parse_error_text(s@),
{
    s.parse::<u32>().map_err(|error| error.to_string())
}

/// `<u64 as FromStr>::from_str`, as `parse_u8` for the `u64` range.
#[verifier::external_body]
pub(crate) fn parse_u64(s: &str) -> (r: Result<u64, String>)
    ensures
        r is Ok <==> (is_unsigned_decimal(s@) && decimal_value(s@) <= u64::MAX),
        r matches Ok(v) ==> v == decimal_value(s@),
        r matches Err(e) ==> e@ == u64_parse_error_text(s@),
{
    s.parse::<u64>().map_err(|error| error.to_string())
}

/// `<usize as FromStr>::from_str`, as `parse_u8` for the `usize` range.
#[verifier::external_body]
pub(crate) fn parse_usize(s: &str) -> (r: Result<usize, String>)
    ensures
        r is Ok <==> (is_unsigned_decimal(s@) && decimal_value(s@) <= usize::MAX),
        r matches Ok(v) ==> v == decimal_value(s@),
        r matches Err(e) ==> e@ == usize_parse_error_text(s@),
{
    s.parse::<usize>().map_err(|error| error.to_string())
}

/// `<bool as FromStr>::from_str`: exactly `"true"` and `"false"` parse.
#[verifier::external_body]
pub(crate) fn parse_bool(s: &str) -> (r: Result<bool, String>)
    ensures
        r is Ok <==> (s@ == "true"@ || s@ == "false"@),
        r matches Ok(b) ==> (b <==> s@ == "true"@),
        r matches Err(e) ==> e@ == bool_parse_error_text(s@),
{
    s.parse::<bool>().map_err(|error| error.to_string())
}

/// `format!("{:?}", s)` for a text.
#[verifier::external_body]
pub(crate) fn debug_quoted(s: &str) -> (r: String)
    ensures
        r@ == debug_text(s@),
{
    format!("{s:?}")
}

/// The character of one decimal digit.
fn digit(d: u64) -> (c: char)
    requires
        d < 10,
    ensures
        c == digit_char(d as nat),
{
    if d == 0 { '0' }
    else if d == 1 { '1' }
    else if d == 2 { '2' }
    else if d == 3 { '3' }
    else if d == 4 { '4' }
    else if d == 5 { '5' }
    else if d == 6 { '6' }
    else if d == 7 { '7' }
    else if d == 8 { '8' }
    else { '9' }
}

/// The shortest decimal rendering of an unsigned integer, as `ToString`
/// gives it.
pub(crate) fn u64_text(n: u64) -> (r: String)
    ensures
        r@ == decimal_text(n as nat),
    decreases n,
{
    if n < 10 {
        let mut text = String::new();
        push_char(&mut text, digit(n));
        text
    } else {
        let mut text = u64_text(n / 10);
        push_char(&mut text, digit(n % 10));
        text
    }
}

} // verus!
