//! Reading an energy level that was typed in.
//!
//! A level is written as decimal digits, with a plus sign in front if one
//! likes. Nothing else is taken: no blanks, no minus sign, no digit
//! separators, and no number beyond 32 bits.

use vstd::prelude::*;
use vstd::string::*;

verus! {

/// Why a text is not a level.
pub enum ParseFault {
    /// The text is empty.
    Empty,
    /// The text holds something that is no digit, or a sign and nothing else.
    InvalidDigit,
    /// The number does not fit in 32 bits.
    TooLarge,
}

/// The digit that a character stands for.
pub open spec fn digit_value(c: char) -> Option<nat> {
    if '0' <= c <= '9' {
        Some((c as u32 - '0' as u32) as nat)
    } else {
        None
    }
}

/// The number that a run of digits stands for, read from the left. The first
/// character that is no digit, or the first digit with which the number
/// outgrows 32 bits, decides the fault.
pub open spec fn digits_value(digits: Seq<char>) -> Result<nat, ParseFault>
    decreases digits.len(),
{
    if digits.len() == 0 {
        Ok(0)
    } else {
        match digits_value(digits.drop_last()) {
            Err(fault) => Err(fault),
            Ok(value) => match digit_value(digits.last()) {
                None => Err(ParseFault::InvalidDigit),
                Some(digit) => if value * 10 + digit > u32::MAX {
                    Err(ParseFault::TooLarge)
                } else {
                    Ok(value * 10 + digit)
                },
            },
        }
    }
}

/// The level that a text stands for.
pub open spec fn parsed_level(text: Seq<char>) -> Result<nat, ParseFault> {
    if text.len() == 0 {
        Err(ParseFault::Empty)
    } else {
        let digits = if text[0] == '+' {
            text.skip(1)
        } else {
            text
        };
        if digits.len() == 0 {
            Err(ParseFault::InvalidDigit)
        } else {
            digits_value(digits)
        }
    }
}

/// What is reported for a fault.
pub open spec fn fault_message(fault: ParseFault) -> Seq<char> {
    match fault {
        ParseFault::Empty => "Failed to parse u32: cannot parse integer from empty string"@,
        ParseFault::InvalidDigit => "Failed to parse u32: invalid digit found in string"@,
        ParseFault::TooLarge => "Failed to parse u32: number too large to fit in target type"@,
    }
}

/// A fault that was met among the first digits stays the fault of the whole.
proof fn lemma_fault_stays(digits: Seq<char>, met: int)
    requires
        0 <= met <= digits.len(),
        digits_value(digits.take(met)) is Err,
    ensures
        digits_value(digits) == digits_value(digits.take(met)),
    decreases digits.len() - met,
{
    if met < digits.len() {
        assert(digits.take(met + 1).drop_last() =~= digits.take(met));
        lemma_fault_stays(digits, met + 1);
    } else {
        assert(digits.take(met) =~= digits);
    }
}

/// Reads a level from a text. A text that is no level is answered with a
/// message that says why.
pub fn parse_i32(str: &str) -> (result: Result<u32, String>)
    ensures
        match parsed_level(str@) {
            Ok(level) => result matches Ok(found) && found == level,
            Err(fault) => result is Err && result->Err_0@ == fault_message(fault),
        },
{
    let len: usize = str.unicode_len();
    if len == 0 {
        return Err(
            String::from_str("Failed to parse u32: cannot parse integer from empty string"),
        );
    }
    let first: usize = if str.get_char(0) == '+' {
        1
    } else {
        0
    };
    if first == len {
        return Err(String::from_str("Failed to parse u32: invalid digit found in string"));
    }
    let ghost digits = str@.skip(first as int);
    proof {
        assert(str@.skip(0) =~= str@);
        assert(digits.take(0) =~= Seq::<char>::empty());
        assert(parsed_level(str@) == digits_value(digits));
    }
    let mut value: u32 = 0;
    let mut i: usize = first;
    while i < len
        invariant
            first <= i <= len,
            len == str@.len(),
            digits == str@.skip(first as int),
            parsed_level(str@) == digits_value(digits),
            digits_value(digits.take(i - first)) == Ok::<nat, ParseFault>(value as nat),
        decreases len - i,
    {
        let c: char = str.get_char(i);
        proof {
            assert(digits.take(i - first + 1).drop_last() =~= digits.take(i - first));
            assert(digits.take(i - first + 1).last() == c);
        }
        if c < '0' || c > '9' {
            proof {
                assert(digit_value(c) is None);
                assert(digits_value(digits.take(i - first + 1)) == Err::<nat, ParseFault>(
                    ParseFault::InvalidDigit,
                ));
                lemma_fault_stays(digits, i - first + 1);
            }
            return Err(String::from_str("Failed to parse u32: invalid digit found in string"));
        }
        let digit: u32 = c as u32 - '0' as u32;
        assert(digit_value(c) == Some(digit as nat));
        if value > (u32::MAX - digit) / 10 {
            proof {
                assert(value * 10 + digit > u32::MAX);
                assert(digits_value(digits.take(i - first + 1)) == Err::<nat, ParseFault>(
                    ParseFault::TooLarge,
                ));
                lemma_fault_stays(digits, i - first + 1);
            }
            return Err(
                String::from_str("Failed to parse u32: number too large to fit in target type"),
            );
        }
        value = value * 10 + digit;
        i += 1;
    }
    proof {
        assert(digits.take(len - first) =~= digits);
    }
    Ok(value)
}

} // verus!
