//! The error type: a message describing what failed.

use vstd::prelude::*;

verus! {

/// The `std::io::Error` type, declared so conversions can take it.
#[verifier::external_type_specification]
#[verifier::external_body]
pub struct ExIoError(std::io::Error);

/// The error type.
#[derive(Debug)]
pub struct Error(String);

impl View for Error {
    type V = Seq<char>;

    /// The message.
    closed spec fn view(&self) -> Seq<char> {
        self.0@
    }
}

/// Relies on the `Display` implementation of `std::io::Error`: renders the
/// error as its message.
#[verifier::external_body]
fn io_error_message(err: std::io::Error) -> (m: String) {
    err.to_string()
}

impl Error {
    /// The message of the error.
    pub fn message(&self) -> (m: &str)
        ensures
            m@ == self@,
    {
        self.0.as_str()
    }
}

impl<'a> From<&'a str> for Error {
    /// Wraps the message in an error.
    fn from(msg: &'a str) -> (e: Error)
        ensures
            e@ == msg@,
    {
        Error(msg.to_owned())
    }
}

/// The conversion is specified by the added `ensures` on `from`, not by
/// a specification value.
impl<'a> vstd::std_specs::convert::FromSpecImpl<&'a str> for Error {
    open spec fn obeys_from_spec() -> bool {
        false
    }

    open spec fn from_spec(msg: &'a str) -> Error {
        arbitrary()
    }
}

impl From<std::io::Error> for Error {
    /// Wraps the message of an I/O error in an error.
    fn from(err: std::io::Error) -> (e: Error) {
        Error(io_error_message(err))
    }
}

/// What the message of an I/O error is stays unspecified.
impl vstd::std_specs::convert::FromSpecImpl<std::io::Error> for Error {
    open spec fn obeys_from_spec() -> bool {
        false
    }

    open spec fn from_spec(err: std::io::Error) -> Error {
        arbitrary()
    }
}

} // verus!
