//! HTTP status codes.
use crate::text::{decimal_bytes, decimal_text};
use vstd::prelude::*;

verus! {

/// The reason that `http::StatusCode` displays after the number of a status
/// code: its canonical reason phrase, or a note that the code is not known.
pub uninterp spec fn status_reason(code: u16) -> Seq<char>;

/// A status code as text: the number in decimal digits, a space, and the
/// reason.
pub open spec fn status_display(code: u16) -> Seq<char> {
    decimal_text(code as nat) + seq![' '] + status_reason(code)
}

/// The character of a decimal digit.
pub open spec fn digit_char(digit: int) -> char {
    ((0x30 + digit) as u8) as char
}

/// A status code displays as its three digits, a space, and the reason.
pub proof fn lemma_display_starts_with_the_number(code: u16)
    requires
        100 <= code <= 999,
    ensures
        status_display(code) == seq![
            digit_char(code as int / 100),
            digit_char(code as int / 10 % 10),
            digit_char(code as int % 10),
            ' ',
        ] + status_reason(code),
{
    reveal_with_fuel(decimal_bytes, 3);
    let digits = decimal_bytes(code as nat);
    assert(digits =~= seq![
        (0x30 + code as int / 100) as u8,
        (0x30 + code as int / 10 % 10) as u8,
        (0x30 + code as int % 10) as u8,
    ]);
    assert(decimal_text(code as nat) =~= seq![
        digit_char(code as int / 100),
        digit_char(code as int / 10 % 10),
        digit_char(code as int % 10),
    ]);
    assert(status_display(code) =~= seq![
        digit_char(code as int / 100),
        digit_char(code as int / 10 % 10),
        digit_char(code as int % 10),
        ' ',
    ] + status_reason(code));
}

/// Calls `http::StatusCode::from_u16` and the `Display` impl of the result.
///
/// `from_u16` accepts exactly the codes from 100 to 999. For those, `Display`
/// writes the number of the code, a space, and the reason.
#[verifier::external_body]
fn display_status(code: u16) -> (text: String)
    requires
        100 <= code <= 999,
    ensures
        text@ == decimal_text(code as nat) + seq![' '] + status_reason(code),
{
    http::StatusCode::from_u16(code).map(|status| status.to_string()).unwrap_or_default()
}

/// A three digit HTTP status code.
#[derive(Clone, Copy, Debug, PartialEq, Eq)]
pub struct StatusCode {
    code: u16,
}

impl StatusCode {
    #[verifier::type_invariant]
    spec fn in_range(self) -> bool {
        100 <= self.code <= 999
    }

    /// The number of this status code.
    pub closed spec fn number(self) -> u16 {
        self.code
    }

    /// Whether `code` is a number that a status code can have.
    pub open spec fn is_valid(code: u16) -> bool {
        100 <= code <= 999
    }

    /// Whether `code` stands for success.
    pub open spec fn is_success_code(code: u16) -> bool {
        200 <= code <= 299
    }

    /// The status code with the given number, if there is one.
    pub fn from_u16(code: u16) -> (status: Option<StatusCode>)
        ensures
            status is Some <==> Self::is_valid(code),
            status matches Some(s) ==> s.number() == code,
    {
        if 100 <= code && code <= 999 {
            Some(StatusCode { code })
        } else {
            None
        }
    }

    /// The number of this status code.
    pub fn as_u16(&self) -> (code: u16)
        ensures
            code == self.number(),
            Self::is_valid(code),
    {
        proof {
            use_type_invariant(self);
        }
        self.code
    }

    /// Whether the status is within 200-299.
    pub fn is_success(&self) -> (ok: bool)
        ensures
            ok == Self::is_success_code(self.number()),
    {
        200 <= self.code && self.code <= 299
    }

    /// The status as text: the number and its canonical reason.
    pub fn to_string(&self) -> (text: String)
        ensures
            text@ == status_display(self.number()),
    {
        proof {
            use_type_invariant(self);
        }
        display_status(self.code)
    }
}

} // verus!
