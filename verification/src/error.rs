use vstd::prelude::*;
use vstd::string::StringExecFns;

use crate::render::{decimal_digits, u64_to_decimal};

verus! {

/// The closed set of failures a search can end in. Every variant carries
/// enough structured data that its classification can be derived again from
/// the value alone.
#[derive(Debug)]
pub enum SearchError {
    /// A malformed caller request; never produced by a backend.
    InvalidInput(String),
    /// A transport-level failure reported by a backend.
    HttpError { status_code: Option<u16>, message: String, response_body: Option<String> },
    /// A backend exceeded its own deadline.
    Timeout { timeout_ms: u64 },
    /// A backend response could not be decoded into the normalized shape.
    ParseError(String),
    /// The orchestrator's envelope around a failed provider call; the only
    /// variant the orchestrator itself produces when a provider fails.
    ProviderError(String),
    /// A backend-specific failure with no dedicated variant.
    Other(String),
}

/// The display text of an error, variant by variant.
pub open spec fn error_text(e: SearchError) -> Seq<char> {
    match e {
        SearchError::InvalidInput(m) => "Invalid input: "@ + m@,
        SearchError::HttpError { status_code, message, .. } => match status_code {
            Some(c) => "HTTP error "@ + decimal_digits(c as nat) + ": "@ + message@,
            None => "HTTP error: "@ + message@,
        },
        SearchError::Timeout { timeout_ms } => "Request timed out after "@ + decimal_digits(
            timeout_ms as nat,
        ) + " ms"@,
        SearchError::ParseError(m) => "Failed to parse response: "@ + m@,
        SearchError::ProviderError(m) => "Provider error: "@ + m@,
        SearchError::Other(m) => m@,
    }
}

impl Clone for SearchError {
    /// A clone equals the original, so anything derived from the error —
    /// its classification above all — can be derived again from the copy.
    fn clone(&self) -> (r: Self)
        ensures
            r == *self,
    {
        match self {
            SearchError::InvalidInput(m) => SearchError::InvalidInput(m.clone()),
            SearchError::HttpError { status_code, message, response_body } => {
                SearchError::HttpError {
                    status_code: *status_code,
                    message: message.clone(),
                    response_body: match response_body {
                        Some(b) => Some(b.clone()),
                        None => None,
                    },
                }
            },
            SearchError::Timeout { timeout_ms } => SearchError::Timeout {
                timeout_ms: *timeout_ms,
            },
            SearchError::ParseError(m) => SearchError::ParseError(m.clone()),
            SearchError::ProviderError(m) => SearchError::ProviderError(m.clone()),
            SearchError::Other(m) => SearchError::Other(m.clone()),
        }
    }
}

impl SearchError {
    /// Renders the error for display; classification stays independent of
    /// this presentation.
    pub fn message(&self) -> (r: String)
        ensures
            r@ == error_text(*self),
    {
        match self {
            SearchError::InvalidInput(m) => "Invalid input: ".to_owned().concat(m.as_str()),
            SearchError::HttpError { status_code, message, .. } => match status_code {
                Some(c) => "HTTP error ".to_owned().concat(
                    u64_to_decimal(*c as u64).as_str(),
                ).concat(": ").concat(message.as_str()),
                None => "HTTP error: ".to_owned().concat(message.as_str()),
            },
            SearchError::Timeout { timeout_ms } => "Request timed out after ".to_owned().concat(
                u64_to_decimal(*timeout_ms).as_str(),
            ).concat(" ms"),
            SearchError::ParseError(m) => "Failed to parse response: ".to_owned().concat(
                m.as_str(),
            ),
            SearchError::ProviderError(m) => "Provider error: ".to_owned().concat(m.as_str()),
            SearchError::Other(m) => m.clone(),
        }
    }
}

} // verus!
