//! The errors that decoding a value can end in.

use serde_json::Error as JsonError;
use vstd::prelude::*;

verus! {

/// `serde_json::Error`, carried through as an opaque value.
#[verifier::external_type_specification]
#[verifier::external_body]
pub struct ExJsonError(JsonError);

/// Why a value could not be decoded.
#[derive(Debug)]
pub enum Error {
    /// A message raised by the consumer of the decoded data.
    Msg(String),
    /// A value was asked for where none was left.
    Blank,
    /// The value does not have the shape that was asked for.
    TypeMismatch,
    /// The named kind of request is not supported.
    NotSupported(&'static str),
    /// An error of the JSON text decoder.
    Serde(JsonError),
}

impl From<JsonError> for Error {
    fn from(e: JsonError) -> (r: Self) {
        Error::Serde(e)
    }
}

impl vstd::std_specs::convert::FromSpecImpl<JsonError> for Error {
    open spec fn obeys_from_spec() -> bool {
        true
    }

    open spec fn from_spec(e: JsonError) -> Self {
        Error::Serde(e)
    }
}

impl Error {
    /// The human-readable message of the error.
    pub fn message(&self) -> (r: String)
        ensures
            self matches Error::Msg(s) ==> r@ == s@,
            self is Blank ==> r@ == "Not be able to deserialize from blank"@,
            self is TypeMismatch ==> r@ == "Incorrect type"@,
            self matches Error::NotSupported(name) ==> r@ == name@ + " isn't supported"@,
            self matches Error::Serde(e) ==> vstd::string::to_string_from_display_ensures::<JsonError>(e, r),
    {
        match self {
            Error::Msg(s) => s.clone(),
            Error::Blank => String::from_str("Not be able to deserialize from blank"),
            Error::TypeMismatch => String::from_str("Incorrect type"),
            Error::NotSupported(name) => String::from_str(name).concat(" isn't supported"),
            Error::Serde(e) => e.to_string(),
        }
    }
}

} // verus!
