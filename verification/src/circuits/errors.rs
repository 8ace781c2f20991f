//! The errors of the circuit types, and the text of their messages.

use vstd::prelude::*;
use vstd::string::StringExecFns;

verus! {

/// A sequence of words does not describe the type it is converted to.
#[derive(Clone, Debug, PartialEq, Eq)]
pub struct TypeConversionError(pub String);

/// A value could not be brought into, or read back from, an MPC network.
#[derive(Clone, Debug, PartialEq, Eq)]
pub enum MpcError {
    /// Values that came out of the network do not have the expected shape.
    SerializationError(String),
    /// The network failed to share a value.
    SharingError(String),
}

/// The decimal digit of a number below ten.
pub open spec fn digit(d: nat) -> char {
    (d + '0' as nat) as char
}

/// The decimal notation of a number, without leading zeros.
pub open spec fn decimal(n: nat) -> Seq<char>
    decreases n,
{
    if n < 10 {
        seq![digit(n)]
    } else {
        decimal(n / 10).push(digit(n % 10))
    }
}

fn digit_text(d: u64) -> (text: &'static str)
    requires
        d < 10,
    ensures
        text@ == seq![digit(d as nat)],
{
    proof {
        reveal_strlit("0");
        reveal_strlit("1");
        reveal_strlit("2");
        reveal_strlit("3");
        reveal_strlit("4");
        reveal_strlit("5");
        reveal_strlit("6");
        reveal_strlit("7");
        reveal_strlit("8");
        reveal_strlit("9");
    }
    match d {
        0 => "0",
        1 => "1",
        2 => "2",
        3 => "3",
        4 => "4",
        5 => "5",
        6 => "6",
        7 => "7",
        8 => "8",
        _ => "9",
    }
}

/// Appends the decimal notation of `n` to `text`.
pub(crate) fn append_decimal(text: &mut String, n: u64)
    ensures
        final(text)@ == old(text)@ + decimal(n as nat),
    decreases n,
{
    if n < 10 {
        text.append(digit_text(n));
    } else {
        append_decimal(text, n / 10);
        text.append(digit_text(n % 10));
        assert(final(text)@ =~= old(text)@ + decimal(n as nat));
    }
}

/// The text `prefix` followed by the decimal notation of `n`.
pub(crate) fn counted(prefix: &str, n: u64) -> (text: String)
    ensures
        text@ == prefix@ + decimal(n as nat),
{
    let mut text: String = String::from_str(prefix);
    append_decimal(&mut text, n);
    text
}

/// A number below ten is written as its one digit. The notation of a larger
/// number ends in its last digit, and what stands before that is the notation
/// of the number without it.
pub proof fn law_decimal_ends_in_the_last_digit(n: nat)
    ensures
        decimal(n).len() > 0,
        decimal(n).last() as int == '0' as int + n % 10,
        n < 10 <==> decimal(n).len() == 1,
        n >= 10 ==> decimal(n).drop_last() == decimal(n / 10),
    decreases n,
{
    if n >= 10 {
        law_decimal_ends_in_the_last_digit(n / 10);
        assert(decimal(n).drop_last() =~= decimal(n / 10));
    }
}

/// Every character of a notation is a decimal digit, and the first is zero for
/// the number zero alone.
pub proof fn law_decimal_is_made_of_digits(n: nat, i: int)
    requires
        0 <= i < decimal(n).len(),
    ensures
        '0' <= decimal(n)[i] <= '9',
        decimal(n)[0] == '0' <==> n == 0,
    decreases n,
{
    if n >= 10 {
        law_decimal_ends_in_the_last_digit(n);
        law_decimal_ends_in_the_last_digit(n / 10);
        law_decimal_is_made_of_digits(n / 10, 0);
        if i < decimal(n).len() - 1 {
            law_decimal_is_made_of_digits(n / 10, i);
        }
    }
}

} // verus!
