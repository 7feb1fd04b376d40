//! Text helpers: comparison, case folding and decimal numerals.

use vstd::prelude::*;
use vstd::string::*;

verus! {

#[verifier::external_type_specification]
#[verifier::external_body]
pub struct ExParseIntError(core::num::ParseIntError);

/// Whether two string slices hold the same characters.
pub fn str_eq(a: &str, b: &str) -> (same: bool)
    ensures
        same == (a@ == b@),
{
    let x = String::from_str(a);
    let y = String::from_str(b);
    x == y
}

/// The lowercase form of a string, as `str::to_lowercase` computes it.
pub uninterp spec fn lowercase(s: Seq<char>) -> Seq<char>;

/// Calls `str::to_lowercase`. The contract only gives the result its name,
/// `lowercase`: Unicode case folding is not spelled out here.
#[verifier::external_body]
pub(crate) fn to_lowercase(s: &str) -> (folded: String)
    ensures
        folded@ == lowercase(s@),
{
    s.to_lowercase()
}

/// Whether `c` is one of the ten ASCII decimal digits.
pub open spec fn is_decimal_digit(c: char) -> bool {
    '0' <= c <= '9'
}

/// The decimal digit that stands for `d`, for `d` below ten.
pub open spec fn digit_char(d: nat) -> char {
    if d == 0 {
        '0'
    } else if d == 1 {
        '1'
    } else if d == 2 {
        '2'
    } else if d == 3 {
        '3'
    } else if d == 4 {
        '4'
    } else if d == 5 {
        '5'
    } else if d == 6 {
        '6'
    } else if d == 7 {
        '7'
    } else if d == 8 {
        '8'
    } else {
        '9'
    }
}

/// The number that a decimal digit stands for.
pub open spec fn digit_value(c: char) -> nat {
    (c as nat - '0' as nat) as nat
}

/// The number that a sequence of decimal digits denotes, most significant
/// digit first. Leading zeros do not count; the empty sequence denotes zero.
pub open spec fn digits_value(s: Seq<char>) -> nat
    decreases s.len(),
{
    if s.len() == 0 {
        0
    } else {
        digits_value(s.drop_last()) * 10 + digit_value(s.last())
    }
}

/// Whether every character of `s` is a decimal digit.
pub open spec fn all_decimal_digits(s: Seq<char>) -> bool {
    forall|i: int| 0 <= i < s.len() ==> is_decimal_digit(#[trigger] s[i])
}

/// A numeral without its optional leading plus sign.
pub open spec fn unsigned_digits(s: Seq<char>) -> Seq<char> {
    if s.len() > 0 && s[0] == '+' {
        s.subrange(1, s.len() as int)
    } else {
        s
    }
}

/// The value of an unsigned decimal numeral that is at most `max`: an
/// optional plus sign, then one or more decimal digits and nothing else.
/// `None` for any other text and for a value above `max`.
pub open spec fn parse_unsigned(s: Seq<char>, max: nat) -> Option<nat> {
    let digits = unsigned_digits(s);
    if digits.len() > 0 && all_decimal_digits(digits) && digits_value(digits) <= max {
        Some(digits_value(digits))
    } else {
        None
    }
}

/// The error that `u64::from_str` gives for a text that it does not take.
pub uninterp spec fn u64_parse_error(s: Seq<char>) -> core::num::ParseIntError;

/// The error that `u8::from_str` gives for a text that it does not take.
pub uninterp spec fn u8_parse_error(s: Seq<char>) -> core::num::ParseIntError;

/// Calls `u64::from_str`. Trusted: it succeeds exactly on an optional plus
/// sign followed by one or more decimal digits whose value fits in 64 bits,
/// and then returns that value. For any other text the contract only gives
/// the error its name, `u64_parse_error`.
#[verifier::external_body]
pub(crate) fn parse_u64(s: &str) -> (r: Result<u64, core::num::ParseIntError>)
    ensures
        r is Ok <==> parse_unsigned(s@, u64::MAX as nat) is Some,
        r matches Ok(n) ==> parse_unsigned(s@, u64::MAX as nat) == Some(n as nat),
        r matches Err(e) ==> e == u64_parse_error(s@),
{
    <u64 as std::str::FromStr>::from_str(s)
}

/// Calls `u8::from_str`. Trusted: it succeeds exactly on an optional plus
/// sign followed by one or more decimal digits whose value fits in 8 bits,
/// and then returns that value. For any other text the contract only gives
/// the error its name, `u8_parse_error`.
#[verifier::external_body]
pub(crate) fn parse_u8(s: &str) -> (r: Result<u8, core::num::ParseIntError>)
    ensures
        r is Ok <==> parse_unsigned(s@, u8::MAX as nat) is Some,
        r matches Ok(n) ==> parse_unsigned(s@, u8::MAX as nat) == Some(n as nat),
        r matches Err(e) ==> e == u8_parse_error(s@),
{
    <u8 as std::str::FromStr>::from_str(s)
}

/// What reading `s` as a number of 64 bits gives.
pub open spec fn u64_of(s: Seq<char>) -> Result<u64, core::num::ParseIntError> {
    match parse_unsigned(s, u64::MAX as nat) {
        Some(n) => Ok(n as u64),
        None => Err(u64_parse_error(s)),
    }
}

/// What reading `s` as a number of 8 bits gives.
pub open spec fn u8_of(s: Seq<char>) -> Result<u8, core::num::ParseIntError> {
    match parse_unsigned(s, u8::MAX as nat) {
        Some(n) => Ok(n as u8),
        None => Err(u8_parse_error(s)),
    }
}

/// The decimal numeral of `n`, without sign or leading zeros.
pub open spec fn decimal_digits(n: nat) -> Seq<char>
    decreases n,
{
    if n < 10 {
        seq![digit_char(n)]
    } else {
        decimal_digits(n / 10).push(digit_char(n % 10))
    }
}

fn digit_str(d: u64) -> (s: &'static str)
    requires
        d < 10,
    ensures
        s@ == seq![digit_char(d as nat)],
{
    proof {
        reveal_strlit("0");
        reveal_strlit("1");
        reveal_strlit("2");
        reveal_strlit("3");
        reveal_strlit("4");
        reveal_strlit("5");
        reveal_strlit("6");
        reveal_strlit("7");
        reveal_strlit("8");
        reveal_strlit("9");
    }
    let s = if d == 0 {
        "0"
    } else if d == 1 {
        "1"
    } else if d == 2 {
        "2"
    } else if d == 3 {
        "3"
    } else if d == 4 {
        "4"
    } else if d == 5 {
        "5"
    } else if d == 6 {
        "6"
    } else if d == 7 {
        "7"
    } else if d == 8 {
        "8"
    } else {
        "9"
    };
    assert(s@ =~= seq![digit_char(d as nat)]);
    s
}

/// Writes `n` as a decimal numeral.
pub fn decimal_string(n: u64) -> (text: String)
    ensures
        text@ == decimal_digits(n as nat),
{
    let mut rest: u64 = n / 10;
    let mut text = String::from_str(digit_str(n % 10));
    while rest > 0
        invariant
            decimal_digits(n as nat) == (if rest == 0 {
                text@
            } else {
                decimal_digits(rest as nat) + text@
            }),
        decreases rest,
    {
        let ghost before = text@;
        let digit = digit_str(rest % 10);
        text = String::from_str(digit).concat(text.as_str());
        proof {
            let lead = seq![digit_char((rest % 10) as nat)];
            assert(text@ == lead + before);
            if rest >= 10 {
                assert(decimal_digits(rest as nat) + before =~= decimal_digits((rest / 10) as nat)
                    + text@);
            } else {
                assert(decimal_digits(rest as nat) =~= lead);
            }
        }
        rest = rest / 10;
    }
    text
}

} // verus!
