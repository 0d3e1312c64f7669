//! Port numbers written as decimal text.

use vstd::prelude::*;
use vstd::string::StringSliceAdditionalSpecFns;

verus! {

/// Why a text is not a port number.
#[derive(Clone, Copy, Debug, PartialEq, Eq, Structural)]
pub enum PortError {
    /// The text has no characters.
    Empty,
    /// A byte other than an ASCII digit comes before any overflow.
    InvalidCharacter,
    /// The leading digits already exceed 65535.
    TooLarge,
    /// The text is made of digits and denotes zero.
    Zero,
}

/// Whether `b` is one of the ASCII digits `0` to `9`.
pub open spec fn is_digit(b: u8) -> bool {
    0x30 <= b <= 0x39
}

/// Whether every byte of `s` is an ASCII digit.
pub open spec fn all_digits(s: Seq<u8>) -> bool {
    forall|i: int| 0 <= i < s.len() ==> is_digit(#[trigger] s[i])
}

/// The number that the digits of `s` denote in base ten.
pub open spec fn decimal_value(s: Seq<u8>) -> nat
    decreases s.len(),
{
    if s.len() == 0 {
        0
    } else {
        decimal_value(s.drop_last()) * 10 + (s.last() - 0x30) as nat
    }
}

/// Whether some run of leading digits of `s` denotes more than 65535.
pub open spec fn overflows(s: Seq<u8>) -> bool {
    exists|n: int|
        0 <= n <= s.len() && all_digits(#[trigger] s.take(n)) && decimal_value(s.take(n))
            > u16::MAX
}

/// The port that the text `s` denotes, or why it denotes none.
///
/// The text is read from the left, so of two faults the one met first is
/// reported: digits that overflow before a stray byte give `TooLarge`, a
/// stray byte before any overflow gives `InvalidCharacter`.
pub open spec fn port_of(s: Seq<u8>) -> Result<u16, PortError> {
    if overflows(s) {
        Err(PortError::TooLarge)
    } else if !all_digits(s) {
        Err(PortError::InvalidCharacter)
    } else if s.len() == 0 {
        Err(PortError::Empty)
    } else if decimal_value(s) == 0 {
        Err(PortError::Zero)
    } else {
        Ok(decimal_value(s) as u16)
    }
}

/// Appending a digit multiplies the value by ten and adds the digit.
proof fn lemma_value_step(s: Seq<u8>, i: int)
    requires
        0 <= i < s.len(),
    ensures
        decimal_value(s.take(i + 1)) == decimal_value(s.take(i)) * 10 + (s[i] - 0x30) as nat,
{
    assert(s.take(i + 1).drop_last() =~= s.take(i));
}

/// A longer run of leading digits never denotes less than a shorter one.
proof fn lemma_value_monotonic(s: Seq<u8>, m: int, n: int)
    requires
        0 <= m <= n <= s.len(),
        all_digits(s.take(n)),
    ensures
        decimal_value(s.take(m)) <= decimal_value(s.take(n)),
    decreases n - m,
{
    if m < n {
        assert(s.take(n).take(n - 1) =~= s.take(n - 1));
        assert forall|i: int| 0 <= i < n - 1 implies is_digit(#[trigger] s.take(n - 1)[i]) by {
            assert(s.take(n - 1)[i] == s.take(n)[i]);
        }
        lemma_value_monotonic(s, m, n - 1);
        lemma_value_step(s, n - 1);
        assert(is_digit(s.take(n)[n - 1]));
    }
}

/// Reads a port number from decimal text.
///
/// Succeeds exactly on a non-empty run of ASCII digits that denotes a number
/// from 1 to 65535; leading zeros are allowed.
pub fn parse_port(s: &str) -> (r: Result<u16, PortError>)
    ensures
        r == port_of(s.spec_bytes()),
        r matches Ok(port) ==> 1 <= port && port == decimal_value(s.spec_bytes()) && all_digits(
            s.spec_bytes(),
        ),
{
    let bytes = s.as_bytes();
    let mut result: u16 = 0;
    let mut i: usize = 0;
    while i < bytes.len()
        invariant
            bytes@ == s.spec_bytes(),
            i <= bytes@.len(),
            all_digits(bytes@.take(i as int)),
            result == decimal_value(bytes@.take(i as int)),
        decreases bytes.len() - i,
    {
        let b: u8 = bytes[i];
        if b < 0x30 || b > 0x39 {
            proof {
                assert(!is_digit(bytes@[i as int]));
                assert forall|n: int|
                    0 <= n <= bytes@.len() && all_digits(#[trigger] bytes@.take(n)) implies
                    decimal_value(bytes@.take(n)) <= u16::MAX by {
                    if n > i {
                        assert(bytes@.take(n)[i as int] == bytes@[i as int]);
                    }
                    lemma_value_monotonic(bytes@, n, i as int);
                }
            }
            return Err(PortError::InvalidCharacter);
        }
        let digit: u16 = (b - 0x30) as u16;
        proof {
            lemma_value_step(bytes@, i as int);
            assert forall|k: int| 0 <= k < i + 1 implies is_digit(
                #[trigger] bytes@.take(i + 1)[k],
            ) by {
                if k < i {
                    assert(bytes@.take(i + 1)[k] == bytes@.take(i as int)[k]);
                }
            }
        }
        if result > u16::MAX / 10 || result * 10 > u16::MAX - digit {
            return Err(PortError::TooLarge);
        }
        result = result * 10 + digit;
        i += 1;
    }
    proof {
        assert(bytes@.take(i as int) =~= bytes@);
        assert forall|n: int|
            0 <= n <= bytes@.len() && all_digits(#[trigger] bytes@.take(n)) implies decimal_value(
            bytes@.take(n),
        ) <= u16::MAX by {
            lemma_value_monotonic(bytes@, n, i as int);
        }
    }
    if i == 0 {
        return Err(PortError::Empty);
    }
    if result == 0 {
        return Err(PortError::Zero);
    }
    Ok(result)
}

/// Reads a port number from text that is known to hold one.
pub fn str_to_u16(s: &str) -> (port: u16)
    requires
        port_of(s.spec_bytes()) is Ok,
    ensures
        port_of(s.spec_bytes()) == Ok::<u16, PortError>(port),
        1 <= port,
        port == decimal_value(s.spec_bytes()),
{
    let bytes = s.as_bytes();
    let mut result: u16 = 0;
    let mut i: usize = 0;
    while i < bytes.len()
        invariant
            bytes@ == s.spec_bytes(),
            port_of(bytes@) is Ok,
            i <= bytes@.len(),
            result == decimal_value(bytes@.take(i as int)),
        decreases bytes.len() - i,
    {
        proof {
            lemma_value_step(bytes@, i as int);
            assert forall|k: int| 0 <= k < i + 1 implies is_digit(
                #[trigger] bytes@.take(i + 1)[k],
            ) by {
                assert(bytes@.take(i + 1)[k] == bytes@[k]);
            }
            assert(all_digits(bytes@.take(i + 1)));
        }
        result = result * 10 + (bytes[i] - 0x30) as u16;
        i += 1;
    }
    proof {
        assert(bytes@.take(i as int) =~= bytes@);
    }
    result
}

impl PortError {
    /// The wording of the complaint, as characters.
    pub open spec fn text(self) -> Seq<char> {
        match self {
            PortError::Empty => "Empty port string"@,
            PortError::InvalidCharacter => "Invalid character in port number"@,
            PortError::TooLarge => "Port number too large"@,
            PortError::Zero => "Port cannot be 0"@,
        }
    }

    /// A sentence that names the fault.
    pub fn message(&self) -> (text: &'static str)
        ensures
            text@ == self.text(),
    {
        match self {
            PortError::Empty => "Empty port string",
            PortError::InvalidCharacter => "Invalid character in port number",
            PortError::TooLarge => "Port number too large",
            PortError::Zero => "Port cannot be 0",
        }
    }
}

} // verus!
