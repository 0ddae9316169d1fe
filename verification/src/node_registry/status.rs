//! The status that a refused request is answered with.

use crate::text::quoted_text;
use vstd::prelude::*;
use vstd::string::*;

verus! {

/// The codes that requests are answered with.
#[derive(Debug, Clone, Copy, PartialEq, Eq, Structural)]
pub enum Code {
    InvalidArgument,
    NotFound,
    FailedPrecondition,
    Unimplemented,
    Unavailable,
}

/// The wire number of a code.
pub open spec fn code_number(code: Code) -> i32 {
    match code {
        Code::InvalidArgument => 3,
        Code::NotFound => 5,
        Code::FailedPrecondition => 9,
        Code::Unimplemented => 12,
        Code::Unavailable => 14,
    }
}

impl Code {
    /// The wire number of the code.
    pub fn number(&self) -> (r: i32)
        ensures
            r == code_number(*self),
    {
        match self {
            Code::InvalidArgument => 3,
            Code::NotFound => 5,
            Code::FailedPrecondition => 9,
            Code::Unimplemented => 12,
            Code::Unavailable => 14,
        }
    }
}

/// A refusal: its code and what it says.
#[derive(Debug)]
pub struct Status {
    pub code: Code,
    pub message: String,
}

/// `s` has this code and says this.
pub open spec fn is_status(s: Status, code: Code, message: Seq<char>) -> bool {
    s.code == code && s.message@ == message
}

/// What a code's number stands for, in words.
pub open spec fn code_description(number: i32) -> Option<Seq<char>> {
    if number == 3 {
        Some("Client specified an invalid argument"@)
    } else if number == 5 {
        Some("Some requested entity was not found"@)
    } else if number == 9 {
        Some("The system is not in a state required for the operation's execution"@)
    } else if number == 12 {
        Some("Operation is not implemented or not supported"@)
    } else if number == 14 {
        Some("The service is currently unavailable"@)
    } else {
        None
    }
}

/// What a status of this code and message displays: the code in words, and the message in quotes
/// where there is one.
pub open spec fn status_text(number: i32, message: Seq<char>) -> Seq<char> {
    let code = "code: '"@ + code_description(number)->0 + "'"@;
    if message.len() == 0 {
        code
    } else {
        code + ", message: "@ + quoted_text(message)
    }
}

/// `tonic::Status`'s `Display` on a status made of a code number and a message and nothing else:
/// the code's description in single quotes and, unless it is empty, the message as `str`'s `Debug`
/// shows it. Stated of the codes that the library answers with.
#[verifier::external_body]
fn display_status(number: i32, message: &str) -> (r: String)
    requires
        code_description(number) is Some,
    ensures
        r@ == status_text(number, message@),
{
    tonic::Status::new(tonic::Code::from_i32(number), message).to_string()
}

impl Status {
    /// A status of this code that says this.
    pub fn new(code: Code, message: &str) -> (r: Status)
        ensures
            is_status(r, code, message@),
    {
        Status { code, message: message.to_owned() }
    }

    /// A status of this code that says the one text and then the other.
    pub fn joined(code: Code, head: &str, tail: &str) -> (r: Status)
        ensures
            is_status(r, code, head@ + tail@),
    {
        let mut message = head.to_owned();
        message.append(tail);
        Status { code, message }
    }

    /// The status as it is displayed.
    pub fn text(&self) -> (r: String)
        ensures
            r@ == status_text(code_number(self.code), self.message@),
    {
        display_status(self.code.number(), self.message.as_str())
    }
}

} // verus!
