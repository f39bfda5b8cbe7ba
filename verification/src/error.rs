//! The error vocabulary shared by every fallible operation of the tray core.

use vstd::prelude::*;
use vstd::string::StringExecFns;

verus! {

/// Failure variants carried by every fallible tray operation.
///
/// `OsError` carries a detail string naming the originating operation and,
/// where the platform provides one, its error code or message. The remaining
/// variants carry no payload: `ShowIconWithoutSetError` reports the one
/// protocol misuse the core detects itself (re-showing before any resource
/// was ever configured).
#[derive(Clone, Debug)]
pub enum SystrayError {
    OsError(String),
    NotImplementedError,
    UnknownError,
    ShowIconWithoutSetError,
}

/// The decimal digit for one value below ten.
pub open spec fn spec_digit(d: nat) -> char {
    if d == 0 {
        '0'
    } else if d == 1 {
        '1'
    } else if d == 2 {
        '2'
    } else if d == 3 {
        '3'
    } else if d == 4 {
        '4'
    } else if d == 5 {
        '5'
    } else if d == 6 {
        '6'
    } else if d == 7 {
        '7'
    } else if d == 8 {
        '8'
    } else {
        '9'
    }
}

/// `n` written in decimal, most significant digit first, no leading zeros
/// (a single zero for zero itself).
pub open spec fn spec_decimal(n: nat) -> Seq<char>
    decreases n,
{
    if n < 10 {
        seq![spec_digit(n)]
    } else {
        spec_decimal(n / 10) + seq![spec_digit(n % 10)]
    }
}

/// The decimal digit for `d`, as a borrowed one-character text.
fn digit_str(d: u32) -> (r: &'static str)
    requires
        d < 10,
    ensures
        r@ == seq![spec_digit(d as nat)],
{
    proof {
        reveal_strlit("0");
        reveal_strlit("1");
        reveal_strlit("2");
        reveal_strlit("3");
        reveal_strlit("4");
        reveal_strlit("5");
        reveal_strlit("6");
        reveal_strlit("7");
        reveal_strlit("8");
        reveal_strlit("9");
    }
    match d {
        0 => "0",
        1 => "1",
        2 => "2",
        3 => "3",
        4 => "4",
        5 => "5",
        6 => "6",
        7 => "7",
        8 => "8",
        _ => "9",
    }
}

/// Appends `n` in decimal to `s`.
fn push_decimal(s: &mut String, n: u32)
    ensures
        final(s)@ == old(s)@ + spec_decimal(n as nat),
    decreases n,
{
    if n >= 10 {
        push_decimal(s, n / 10);
    }
    s.append(digit_str(n % 10));
    proof {
        assert(s@ =~= old(s)@ + spec_decimal(n as nat));
    }
}

/// Builds the `OsError` for one failed native operation: the operation's
/// name, then the platform error code in decimal, the shape
/// `message` renders as `OsError: <operation>: <code>`.
pub fn os_error(operation: &str, code: u32) -> (e: SystrayError)
    ensures
        e matches SystrayError::OsError(d) && d@ == operation@ + ": "@ + spec_decimal(
            code as nat,
        ),
{
    let mut detail = operation.to_owned();
    detail.append(": ");
    push_decimal(&mut detail, code);
    proof {
        assert(detail@ =~= operation@ + ": "@ + spec_decimal(code as nat));
    }
    SystrayError::OsError(detail)
}

impl SystrayError {
    /// The text that a `Display` implementation would print for this error.
    pub open spec fn spec_message(&self) -> Seq<char> {
        match self {
            SystrayError::OsError(detail) => "OsError: "@ + detail@,
            SystrayError::NotImplementedError => "Functionality is not implemented yet"@,
            SystrayError::UnknownError => "Unknown error occurred"@,
            SystrayError::ShowIconWithoutSetError => "want show icon but icon is none"@,
        }
    }

    /// Renders the error as one human-readable line.
    pub fn message(&self) -> (r: String)
        ensures
            r@ == self.spec_message(),
    {
        match self {
            SystrayError::OsError(detail) => {
                let mut s = "OsError: ".to_owned();
                s.append(detail.as_str());
                s
            },
            SystrayError::NotImplementedError => "Functionality is not implemented yet".to_owned(),
            SystrayError::UnknownError => "Unknown error occurred".to_owned(),
            SystrayError::ShowIconWithoutSetError => "want show icon but icon is none".to_owned(),
        }
    }
}

} // verus!
