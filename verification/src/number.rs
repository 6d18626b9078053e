//! Number and address literals as the command shell writes them: hexadecimal
//! after the marker `0x`, decimal otherwise.

use vstd::prelude::*;
use vstd::string::StrSliceExecFns;

verus! {

/// Why a text is not a number.
#[derive(Clone, Copy, Debug, PartialEq, Eq, Structural)]
pub enum NumberError {
    /// There is no text where the number should stand.
    Empty,
    /// A character is not a digit of the radix, or a sign stands alone.
    InvalidDigit,
    /// The text is a number, but a larger one than the result can hold.
    TooLarge,
}

/// The value of `c` as a digit in `radix`, if it is one. Letters count from
/// ten, in either case.
pub open spec fn digit_value(c: char, radix: nat) -> Option<nat> {
    let d: nat = if '0' <= c <= '9' {
        (c as int - '0' as int) as nat
    } else if 'a' <= c <= 'z' {
        (c as int - 'a' as int + 10) as nat
    } else if 'A' <= c <= 'Z' {
        (c as int - 'A' as int + 10) as nat
    } else {
        radix
    };
    if d < radix {
        Some(d)
    } else {
        None
    }
}

/// Whether every character of `s` is a digit in `radix`.
pub open spec fn all_digits(s: Seq<char>, radix: nat) -> bool {
    forall|i: int| 0 <= i < s.len() ==> (#[trigger] digit_value(s[i], radix)) is Some
}

/// The number that the digits `s` write in `radix`, most significant first.
pub open spec fn digits_value(s: Seq<char>, radix: nat) -> nat
    decreases s.len(),
{
    if s.len() == 0 {
        0
    } else {
        digits_value(s.drop_last(), radix) * radix + match digit_value(s.last(), radix) {
            Some(d) => d,
            None => 0,
        }
    }
}

/// The number that `s` writes in `radix`: an optional `+`, then at least one
/// digit, and nothing else.
pub open spec fn spec_parse_radix(s: Seq<char>, radix: nat) -> Result<nat, NumberError> {
    let digits = if s.len() > 0 && s[0] == '+' {
        s.subrange(1, s.len() as int)
    } else {
        s
    };
    if s.len() == 0 {
        Err(NumberError::Empty)
    } else if digits.len() == 0 || !all_digits(digits, radix) {
        Err(NumberError::InvalidDigit)
    } else {
        Ok(digits_value(digits, radix))
    }
}

/// Whether `s` starts with the marker of a hexadecimal literal, `0x`.
pub open spec fn has_hex_marker(s: Seq<char>) -> bool {
    s.len() >= 2 && s[0] == '0' && s[1] == 'x'
}

/// The number that the literal `s` writes: hexadecimal after the marker
/// `0x`, decimal without it.
pub open spec fn spec_parse_number(s: Seq<char>) -> Result<nat, NumberError> {
    if has_hex_marker(s) {
        spec_parse_radix(s.subrange(2, s.len() as int), 16)
    } else {
        spec_parse_radix(s, 10)
    }
}

/// The number that the literal `s` writes, if it is at most `max`.
pub open spec fn spec_parse_bounded(s: Seq<char>, max: nat) -> Result<nat, NumberError> {
    match spec_parse_number(s) {
        Ok(v) => if v <= max {
            Ok(v)
        } else {
            Err(NumberError::TooLarge)
        },
        Err(e) => Err(e),
    }
}

/// The value of `c` as a digit in `radix`.
fn digit_of(c: char, radix: u32) -> (d: Option<u32>)
    requires
        radix == 10 || radix == 16,
    ensures
        match digit_value(c, radix as nat) {
            Some(v) => d == Some(v as u32),
            None => d is None,
        },
{
    let code: u32 = c as u32;
    let d: u32 = if '0' <= c && c <= '9' {
        code - '0' as u32
    } else if 'a' <= c && c <= 'z' {
        code - 'a' as u32 + 10
    } else if 'A' <= c && c <= 'Z' {
        code - 'A' as u32 + 10
    } else {
        radix
    };
    if d < radix {
        Some(d)
    } else {
        None
    }
}

/// The value `value` with the digit `d` appended in `radix`, if it fits.
fn append_digit(value: usize, d: u32, radix: u32) -> (next: Option<usize>)
    requires
        radix == 10 || radix == 16,
        d < radix,
    ensures
        match next {
            Some(v) => v == value * radix + d,
            None => value * radix + d > usize::MAX,
        },
{
    let scaled = if radix == 16 {
        value.checked_mul(16)
    } else {
        value.checked_mul(10)
    };
    match scaled {
        Some(scaled) => scaled.checked_add(d as usize),
        None => None,
    }
}

/// Appending a digit to digits multiplies their value by the radix and adds
/// the digit, so the value never shrinks.
proof fn lemma_digits_value_push(s: Seq<char>, c: char, radix: nat)
    requires
        radix >= 1,
        all_digits(s, radix),
        digit_value(c, radix) is Some,
    ensures
        all_digits(s.push(c), radix),
        digits_value(s.push(c), radix) == digits_value(s, radix) * radix + digit_value(
            c,
            radix,
        )->0,
        digits_value(s.push(c), radix) >= digits_value(s, radix),
{
    assert(s.push(c).drop_last() =~= s);
    let v = digits_value(s, radix);
    assert(v * radix >= v) by (nonlinear_arith)
        requires
            v >= 0,
            radix >= 1,
    ;
}

/// Parses the characters of `s` from `start` on as a number in `radix`.
fn parse_radix(s: &str, start: usize, radix: u32) -> (r: Result<usize, NumberError>)
    requires
        radix == 10 || radix == 16,
        start <= s@.len(),
    ensures
        match spec_parse_radix(s@.subrange(start as int, s@.len() as int), radix as nat) {
            Ok(v) => if v <= usize::MAX {
                r == Ok::<usize, NumberError>(v as usize)
            } else {
                r == Err::<usize, NumberError>(NumberError::TooLarge)
            },
            Err(e) => r == Err::<usize, NumberError>(e),
        },
{
    let len = s.unicode_len();
    let ghost text = s@.subrange(start as int, len as int);
    if start == len {
        return Err(NumberError::Empty);
    }
    let first: usize = if s.get_char(start) == '+' {
        start + 1
    } else {
        start
    };
    let ghost digits = s@.subrange(first as int, len as int);
    if first == len {
        return Err(NumberError::InvalidDigit);
    }
    let mut value: usize = 0;
    let mut too_large = false;
    let mut i: usize = first;
    let ghost mut seen: Seq<char> = Seq::empty();
    while i < len
        invariant
            radix == 10 || radix == 16,
            first <= i <= len,
            len == s@.len(),
            start <= first,
            text == s@.subrange(start as int, len as int),
            digits == s@.subrange(first as int, len as int),
            digits == if text[0] == '+' {
                text.subrange(1, text.len() as int)
            } else {
                text
            },
            seen == digits.take(i - first),
            all_digits(seen, radix as nat),
            !too_large ==> value == digits_value(seen, radix as nat),
            too_large ==> digits_value(seen, radix as nat) > usize::MAX,
        decreases len - i,
    {
        let c = s.get_char(i);
        assert(digits[i - first] == c);
        match digit_of(c, radix) {
            None => {
                return Err(NumberError::InvalidDigit);
            },
            Some(d) => {
                proof {
                    lemma_digits_value_push(seen, c, radix as nat);
                }
                if !too_large {
                    match append_digit(value, d, radix) {
                        Some(v) => {
                            value = v;
                        },
                        None => {
                            too_large = true;
                        },
                    }
                }
                proof {
                    seen = seen.push(c);
                }
            },
        }
        i += 1;
    }
    assert(seen =~= digits);
    if too_large {
        Err(NumberError::TooLarge)
    } else {
        Ok(value)
    }
}

/// Parses a number literal: hexadecimal digits after the marker `0x`,
/// decimal digits otherwise. As in Rust's own integer parsing, one `+` may
/// stand before the digits. Text that is not such a literal, or a number
/// beyond `usize`, is an error.
pub fn parse_number_string(s: &str) -> (r: Result<usize, NumberError>)
    ensures
        match spec_parse_bounded(s@, usize::MAX as nat) {
            Ok(v) => r == Ok::<usize, NumberError>(v as usize),
            Err(e) => r == Err::<usize, NumberError>(e),
        },
{
    let len = s.unicode_len();
    if len >= 2 && s.get_char(0) == '0' && s.get_char(1) == 'x' {
        parse_radix(s, 2, 16)
    } else {
        assert(s@.subrange(0, len as int) =~= s@);
        parse_radix(s, 0, 10)
    }
}

/// Parses the literal of a flat 16-bit address, in the format of
/// `parse_number_string`. A number beyond the last address is an error.
pub fn parse_address(s: &str) -> (r: Result<u16, NumberError>)
    ensures
        match spec_parse_bounded(s@, 0xFFFF) {
            Ok(v) => r == Ok::<u16, NumberError>(v as u16),
            Err(e) => r == Err::<u16, NumberError>(e),
        },
{
    match parse_number_string(s) {
        Ok(v) => if v <= 0xFFFF {
            Ok(v as u16)
        } else {
            Err(NumberError::TooLarge)
        },
        Err(e) => Err(e),
    }
}

} // verus!
