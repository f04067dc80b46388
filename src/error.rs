//! The library's errors.
use vstd::prelude::*;

verus! {

/// `std::io::Error`, carried unopened in `Error::Io`.
#[verifier::external_type_specification]
#[verifier::external_body]
pub struct ExIoError(std::io::Error);

/// A file or directory that could not be read, or a bad option value.
#[derive(Debug)]
pub enum Error {
    Io(std::io::Error),
    InvalidArg(String),
}

impl From<std::io::Error> for Error {
    fn from(err: std::io::Error) -> (r: Self)
        ensures
            r == Error::Io(err),
    {
        Error::Io(err)
    }
}

impl vstd::std_specs::convert::FromSpecImpl<std::io::Error> for Error {
    open spec fn obeys_from_spec() -> bool {
        true
    }

    open spec fn from_spec(err: std::io::Error) -> Self {
        Error::Io(err)
    }
}

impl Error {
    /// The text that tells a user what went wrong.
    pub fn message(&self) -> (r: String)
        ensures
            self is InvalidArg ==> r@ == "invalid argument: "@ + self->InvalidArg_0@,
    {
        match self {
            Error::Io(err) => err.to_string(),
            Error::InvalidArg(s) => {
                let mut m = String::from_str("invalid argument: ");
                m.append(s.as_str());
                m
            },
        }
    }
}

} // verus!
