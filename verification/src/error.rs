//! The library's error type.
use vstd::prelude::*;
use crate::text::{concat, decimal_spec, decimal_string};

verus! {

/// Every way an operation of the library can fail.
#[derive(Debug)]
pub enum AppError {
    ConfigError(String),
    /// A transport failure; the payload is the transport's own description.
    NetworkError(String),
    InputError(String),
    AudioError(String),
    /// A non-success HTTP status and the response body.
    HttpError(u16, String),
    InternalError(String),
}

impl AppError {
    /// The human-readable description of the error.
    pub open spec fn describe_spec(&self) -> Seq<char> {
        match self {
            AppError::ConfigError(m) => "Configuration error: "@ + m@,
            AppError::NetworkError(m) => "Network error: "@ + m@,
            AppError::InputError(m) => "Input event error: "@ + m@,
            AppError::AudioError(m) => "Audio system error: "@ + m@,
            AppError::HttpError(code, body) => "HTTP error "@ + decimal_spec(*code as nat) + ": "@
                + body@,
            AppError::InternalError(m) => "Internal application error: "@ + m@,
        }
    }

    /// Renders the error as text (the library's stand-in for `Display`).
    pub fn describe(&self) -> (res: String)
        ensures
            res@ == self.describe_spec(),
    {
        match self {
            AppError::ConfigError(m) => concat("Configuration error: ", m.as_str()),
            AppError::NetworkError(m) => concat("Network error: ", m.as_str()),
            AppError::InputError(m) => concat("Input event error: ", m.as_str()),
            AppError::AudioError(m) => concat("Audio system error: ", m.as_str()),
            AppError::HttpError(code, body) => {
                let head = concat("HTTP error ", decimal_string(*code).as_str());
                let head = concat(head.as_str(), ": ");
                concat(head.as_str(), body.as_str())
            },
            AppError::InternalError(m) => concat("Internal application error: ", m.as_str()),
        }
    }
}

} // verus!
