use vstd::prelude::*;
use std::io::Write;

use crate::types::DebugOptions;

verus! {

/// Relies on `std::io::Stderr::write_fmt` (through `writeln!`): writes one
/// line of diagnostic text to standard error; a write failure is ignored, so
/// emission never fails the call.
#[verifier::external_body]
fn emit(label: &str, detail: &str) {
    let _ = writeln!(std::io::stderr(), "[websearch] {}: {}", label, detail);
}

/// Emits one diagnostic entry when diagnostics are enabled; with no gate
/// open, nothing happens.
pub(crate) fn log(debug: &Option<DebugOptions>, label: &str, detail: &str) {
    match debug {
        Some(d) => {
            if d.enabled {
                emit(label, detail);
            }
        },
        None => {},
    }
}

/// Echoes the full request parameters, when diagnostics are enabled and
/// request logging is on.
pub(crate) fn log_request(debug: &Option<DebugOptions>, detail: &str) {
    match debug {
        Some(d) => {
            if d.enabled && d.log_requests {
                emit("Request parameters", detail);
            }
        },
        None => {},
    }
}

/// Reports on a successful response, when diagnostics are enabled and
/// response logging is on.
pub(crate) fn log_response(debug: &Option<DebugOptions>, detail: &str) {
    match debug {
        Some(d) => {
            if d.enabled && d.log_responses {
                emit("Search response", detail);
            }
        },
        None => {},
    }
}

} // verus!
