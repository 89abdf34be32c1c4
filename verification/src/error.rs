//! The error taxonomy of the gateway: client-input faults, backend faults,
//! and structural parse faults, each carrying a human-readable message.

use vstd::prelude::*;

verus! {

/// A request fails in one of three ways: the backend call failed or
/// answered unusably (`QuickwitError`), the client input was rejected
/// (`ValidationError`), or a well-formed backend response was missing an
/// expected structural field (`ParseError`).
#[derive(Debug)]
pub enum AppError {
    QuickwitError(String),
    ValidationError(String),
    ParseError(String),
}

/// The full text of an error, with its kind spelled out.
pub open spec fn spec_message(e: AppError) -> Seq<char> {
    match e {
        AppError::QuickwitError(m) => "Quickwit error: "@ + m@,
        AppError::ValidationError(m) => "Validation error: "@ + m@,
        AppError::ParseError(m) => "Parse error: "@ + m@,
    }
}

impl AppError {
    /// Renders the error as text, naming its kind before the message.
    pub fn message(&self) -> (r: String)
        ensures
            r@ == spec_message(*self),
    {
        match self {
            AppError::QuickwitError(m) => String::from_str("Quickwit error: ").concat(m.as_str()),
            AppError::ValidationError(m) => String::from_str("Validation error: ").concat(
                m.as_str(),
            ),
            AppError::ParseError(m) => String::from_str("Parse error: ").concat(m.as_str()),
        }
    }

    /// The HTTP status code the error is reported with.
    pub fn status_code(&self) -> (r: u16)
        ensures
            r == spec_status_code(*self),
    {
        match self {
            AppError::QuickwitError(_) => 502,
            AppError::ValidationError(_) => 400,
            AppError::ParseError(_) => 500,
        }
    }
}

/// The HTTP status each kind is reported with: a client error for rejected
/// input, a bad gateway for a backend fault, an internal error for a
/// structural parse fault.
pub open spec fn spec_status_code(e: AppError) -> u16 {
    match e {
        AppError::QuickwitError(_) => 502,
        AppError::ValidationError(_) => 400,
        AppError::ParseError(_) => 500,
    }
}

impl From<String> for AppError {
    /// A bare message is a client-input fault.
    fn from(s: String) -> (r: AppError) {
        AppError::ValidationError(s)
    }
}

impl vstd::std_specs::convert::FromSpecImpl<String> for AppError {
    open spec fn obeys_from_spec() -> bool {
        true
    }

    open spec fn from_spec(s: String) -> AppError {
        AppError::ValidationError(s)
    }
}

} // verus!
