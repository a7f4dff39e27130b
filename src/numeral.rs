//! Numerals given on the command line: decimal, or hexadecimal, octal and
//! binary with a `0x`, `0o` or `0b` prefix.

use vstd::prelude::*;

verus! {

/// Declares std's integer parse error so that it can be returned as it is.
#[verifier::external_type_specification]
#[verifier::external_body]
pub struct ExParseIntError(std::num::ParseIntError);

/// The value of one digit in the given radix (at most 16), if it is one.
pub open spec fn digit_value(c: char, radix: nat) -> Option<nat> {
    let v: int = if '0' <= c && c <= '9' {
        c as int - '0' as int
    } else if 'a' <= c && c <= 'f' {
        c as int - 'a' as int + 10
    } else if 'A' <= c && c <= 'F' {
        c as int - 'A' as int + 10
    } else {
        radix as int
    };
    if 0 <= v < radix {
        Some(v as nat)
    } else {
        None
    }
}

/// A non-empty run of digits of the radix.
pub open spec fn is_digits(s: Seq<char>, radix: nat) -> bool {
    s.len() > 0 && forall|i: int| 0 <= i < s.len() ==> (#[trigger] digit_value(s[i], radix)) is Some
}

/// The value of a run of digits, most significant first.
pub open spec fn digits_value(s: Seq<char>, radix: nat) -> nat
    decreases s.len(),
{
    if s.len() == 0 {
        0
    } else {
        digits_value(s.drop_last(), radix) * radix + match digit_value(s.last(), radix) {
            Some(d) => d,
            None => 0,
        }
    }
}

/// The value of a run of digits in the radix, or `None` if it is not one.
pub open spec fn run_value(s: Seq<char>, radix: nat) -> Option<nat> {
    if is_digits(s, radix) {
        Some(digits_value(s, radix))
    } else {
        None
    }
}

/// Whether `s` starts with `0` followed by the character `p`.
pub open spec fn has_prefix(s: Seq<char>, p: char) -> bool {
    s.len() >= 2 && s[0] == '0' && s[1] == p
}

/// The value of a plain numeral: no sign, no separators, no surrounding
/// blanks. `0x`, `0b` and `0o` select the radix, anything else is decimal.
/// `None` where the text is no plain numeral.
pub open spec fn plain_numeral(s: Seq<char>) -> Option<nat> {
    if has_prefix(s, 'x') {
        run_value(s.skip(2), 16)
    } else if has_prefix(s, 'b') {
        run_value(s.skip(2), 2)
    } else if has_prefix(s, 'o') {
        run_value(s.skip(2), 8)
    } else {
        run_value(s, 10)
    }
}

/// Relies on parse_int::parse::<u32>: it picks the radix from a `0x`, `0b` or
/// `0o` prefix (decimal otherwise) and hands the digits to u32::from_str_radix,
/// which fails where the value does not fit in 32 bits. Underscores and
/// surrounding blanks, which it also accepts, are left unstated.
#[verifier::external_body]
fn parse_numeral(input: &str) -> (r: Result<u32, std::num::ParseIntError>)
    ensures
        plain_numeral(input@) is Some ==> (r is Ok <==> plain_numeral(input@)->0 <= u32::MAX),
        plain_numeral(input@) is Some && r is Ok ==> r->Ok_0 == plain_numeral(input@)->0,
{
    parse_int::parse::<u32>(input)
}

/// Reads a 32-bit numeral given on the command line. A plain numeral parses
/// to its value where that fits in 32 bits and fails otherwise.
pub fn parse_u32(input: &str) -> (r: Result<u32, std::num::ParseIntError>)
    ensures
        plain_numeral(input@) matches Some(v) ==> match r {
            Ok(n) => v <= u32::MAX && n == v,
            Err(_) => v > u32::MAX,
        },
{
    parse_numeral(input)
}

} // verus!
