//! Server settings read from the environment: the listening port.

use vstd::prelude::*;

use crate::text::chars_of;

verus! {

/// Host to listen on when none is configured.
pub const DEFAULT_HOST: &'static str = "0.0.0.0";

/// Port to listen on when none is configured.
pub const DEFAULT_PORT: &'static str = "8080";

/// Why a port number was refused, with the kinds `u16::from_str` reports.
#[derive(PartialEq, Eq, Structural, Clone, Copy, Debug)]
pub enum PortError {
    /// Nothing was given.
    Empty,
    /// A character is not a decimal digit (or there are no digits).
    InvalidDigit,
    /// The number is above 65535.
    PosOverflow,
}

/// An ASCII decimal digit.
pub open spec fn is_decimal_digit(c: char) -> bool {
    '0' <= c && c <= '9'
}

/// The value of a decimal digit.
pub open spec fn digit_value(c: char) -> int {
    (c as int) - ('0' as int)
}

/// Reads the digits `s` onto the value `acc`, left to right, stopping at
/// the first character that is no digit or that would take the value past
/// `u16::MAX`.
pub open spec fn read_digits(s: Seq<char>, acc: int) -> Result<int, PortError>
    decreases s.len(),
{
    if s.len() == 0 {
        Ok(acc)
    } else if !is_decimal_digit(s[0]) {
        Err(PortError::InvalidDigit)
    } else if acc * 10 + digit_value(s[0]) > 65535 {
        Err(PortError::PosOverflow)
    } else {
        read_digits(s.drop_first(), acc * 10 + digit_value(s[0]))
    }
}

/// The port that the text `s` names: an optional `+`, then decimal digits.
pub open spec fn port_of(s: Seq<char>) -> Result<int, PortError> {
    if s.len() == 0 {
        Err(PortError::Empty)
    } else if (s[0] == '+' || s[0] == '-') && s.len() == 1 {
        Err(PortError::InvalidDigit)
    } else if s[0] == '+' {
        read_digits(s.drop_first(), 0)
    } else {
        read_digits(s, 0)
    }
}

proof fn lemma_read_digits_bound(s: Seq<char>, acc: int)
    requires
        0 <= acc <= 65535,
    ensures
        read_digits(s, acc) matches Ok(v) ==> 0 <= v <= 65535,
    decreases s.len(),
{
    if s.len() > 0 && is_decimal_digit(s[0]) && acc * 10 + digit_value(s[0]) <= 65535 {
        lemma_read_digits_bound(s.drop_first(), acc * 10 + digit_value(s[0]));
    }
}

/// Reads a port number as `u16::from_str` does.
pub fn parse_port(raw: &str) -> (r: Result<u16, PortError>)
    ensures
        match port_of(raw@) {
            Ok(v) => r == Ok::<u16, PortError>(v as u16),
            Err(e) => r == Err::<u16, PortError>(e),
        },
{
    let s = chars_of(raw);
    let n = s.len();
    if n == 0 {
        return Err(PortError::Empty);
    }
    if (s[0] == '+' || s[0] == '-') && n == 1 {
        return Err(PortError::InvalidDigit);
    }
    let start: usize = if s[0] == '+' {
        1
    } else {
        0
    };
    let ghost digits = if s@[0] == '+' {
        s@.drop_first()
    } else {
        s@
    };
    assert(digits =~= s@.skip(start as int));
    assert(port_of(raw@) == read_digits(digits, 0));
    let mut acc: u32 = 0;
    let mut i = start;
    while i < n
        invariant
            start <= i <= n == s.len(),
            s@ == raw@,
            digits == s@.skip(start as int),
            port_of(raw@) == read_digits(digits, 0),
            acc <= 65535,
            read_digits(digits, 0) == read_digits(s@.skip(i as int), acc as int),
        decreases n - i,
    {
        let c = s[i];
        assert(s@.skip(i as int)[0] == c);
        assert(s@.skip(i as int).drop_first() =~= s@.skip(i + 1));
        if !('0' <= c && c <= '9') {
            assert(read_digits(s@.skip(i as int), acc as int) == Err::<int, PortError>(
                PortError::InvalidDigit,
            ));
            return Err(PortError::InvalidDigit);
        }
        let d = (c as u32) - ('0' as u32);
        assert(d == digit_value(c));
        if acc * 10 + d > 65535 {
            assert(read_digits(s@.skip(i as int), acc as int) == Err::<int, PortError>(
                PortError::PosOverflow,
            ));
            return Err(PortError::PosOverflow);
        }
        acc = acc * 10 + d;
        i = i + 1;
    }
    assert(s@.skip(i as int).len() == 0);
    proof {
        lemma_read_digits_bound(digits, 0);
    }
    Ok(acc as u16)
}

impl PortError {
    /// The words `ParseIntError` uses for this kind of failure.
    pub fn message(&self) -> (r: &'static str)
        ensures
            r@ == match *self {
                PortError::Empty => "cannot parse integer from empty string"@,
                PortError::InvalidDigit => "invalid digit found in string"@,
                PortError::PosOverflow => "number too large to fit in target type"@,
            },
    {
        match self {
            PortError::Empty => "cannot parse integer from empty string",
            PortError::InvalidDigit => "invalid digit found in string",
            PortError::PosOverflow => "number too large to fit in target type",
        }
    }
}

} // verus!
