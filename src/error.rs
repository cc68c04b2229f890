use vstd::prelude::*;
use vstd::string::StringExecFns;

verus! {

/// Why a message box could not be shown, or what it returned instead of a
/// button.
#[derive(Debug)]
pub enum MBError<T> {
    /// A string holds the null character, so the host cannot be handed it;
    /// carries the string.
    InvalidString(T),
    /// The host returned a code that names no button; carries the code and a
    /// fixed message.
    ErroneousReturnValue(i32, &'static str),
}

/// The character of a decimal digit.
pub open spec fn digit_char(d: int) -> char {
    ('0' as int + d) as char
}

/// The decimal digits of a natural number, most significant first.
pub open spec fn decimal_digits(n: nat) -> Seq<char>
    decreases n,
{
    if n < 10 {
        seq![digit_char(n as int)]
    } else {
        decimal_digits(n / 10).push(digit_char((n % 10) as int))
    }
}

/// The decimal form of an integer, with a leading minus sign when negative.
pub open spec fn decimal(n: int) -> Seq<char> {
    if n < 0 {
        seq!['-'] + decimal_digits((-n) as nat)
    } else {
        decimal_digits(n as nat)
    }
}

/// Relies on `i32`'s `to_string`, which writes the value in decimal with a
/// leading '-' when it is negative.
#[verifier::external_body]
fn decimal_text(n: i32) -> (r: String)
    ensures
        r@ == decimal(n as int),
{
    n.to_string()
}

/// The text that describes an error: the offending string itself, or the
/// message, a colon and a space, and the returned code in decimal.
pub open spec fn description(e: MBError<&str>) -> Seq<char> {
    match e {
        MBError::InvalidString(s) => s@,
        MBError::ErroneousReturnValue(code, msg) => msg@ + ": "@ + decimal(code as int),
    }
}

impl<'a> MBError<&'a str> {
    /// Describes the error in words.
    pub fn describe(&self) -> (r: String)
        ensures
            r@ == description(*self),
    {
        match self {
            MBError::InvalidString(s) => (*s).to_owned(),
            MBError::ErroneousReturnValue(code, msg) => {
                let mut r: String = (*msg).to_owned();
                r.append(": ");
                let digits = decimal_text(*code);
                r.append(digits.as_str());
                r
            },
        }
    }
}

} // verus!
