//! A uniform call surface over heterogeneous search backends: a provider
//! contract every backend satisfies, an orchestrator that validates a
//! request, delegates to the bound provider and normalizes the outcome,
//! and a pure classifier that turns raw failures into troubleshooting
//! hints.

use vstd::prelude::*;
use vstd::string::StringExecFns;

mod debug;
pub mod error;
pub mod laws;
pub mod render;
pub mod types;

pub use error::SearchError;
pub use types::{
    DebugOptions, SafeSearch, SearchOptions, SearchProvider, SearchResult, SortBy, SortOrder,
};

use crate::error::error_text;
use crate::render::{decimal_digits, u64_to_decimal};

verus! {

/// The message of the one validation error the orchestrator produces.
pub open spec fn invalid_input_text() -> Seq<char> {
    "A search query or ID list (for Arxiv) is required"@
}

/// Whether a request passes the orchestrator's validation: a non-empty
/// query, or a non-empty ID list in its place. This is the only validation
/// the core performs; every other field is the provider's to interpret.
pub open spec fn options_are_valid<P: SearchProvider>(options: SearchOptions<P>) -> bool {
    options.query@.len() > 0 || (options.id_list matches Some(ids) && ids@.len() > 0)
}

/// The hint for an authentication failure (status 401 or 403).
pub open spec fn auth_hint() -> Seq<char> {
    "This is likely an authentication issue. Check your API key and make sure it's valid and has the correct permissions."@
}

/// The hint for a malformed request (status 400).
pub open spec fn parameters_hint() -> Seq<char> {
    "This is likely due to invalid request parameters. Check your query and other search options."@
}

/// The hint for an exhausted rate limit (status 429).
pub open spec fn rate_limit_hint() -> Seq<char> {
    "You've exceeded the rate limit for this API. Try again later or reduce your request frequency."@
}

/// The hint for a backend server failure (status 500 through 599).
pub open spec fn server_hint() -> Seq<char> {
    "The search provider is experiencing server issues. Try again later."@
}

/// The static hint for the scraped HTML engine.
pub open spec fn duckduckgo_hint() -> Seq<char> {
    "You may be making too many requests to DuckDuckGo. Try adding a delay between requests or reduce your request frequency."@
}

/// The static hint for the academic-paper API.
pub open spec fn arxiv_hint() -> Seq<char> {
    "ArXiv may be temporarily unavailable. Try again later or reduce your request frequency."@
}

/// The generic hint for a provider the classifier does not know by name.
pub open spec fn generic_hint(name: Seq<char>) -> Seq<char> {
    "Check your "@ + name + " configuration and make sure your search request is valid."@
}

/// The status code of a transport-level failure; anything else has none.
pub open spec fn http_status(e: SearchError) -> Option<u16> {
    match e {
        SearchError::HttpError { status_code, .. } => status_code,
        _ => None,
    }
}

/// The per-provider hint an error falls back to when its status settles
/// nothing: exact known names get a tailored message, unknown names the
/// generic one with the name interpolated.
pub open spec fn provider_hint(name: Seq<char>) -> Seq<char> {
    if name == "duckduckgo"@ {
        duckduckgo_hint()
    } else if name == "arxiv"@ {
        arxiv_hint()
    } else {
        generic_hint(name)
    }
}

/// The troubleshooting hint for an error under a named provider, first
/// match winning: authentication (401, 403), malformed parameters (400),
/// rate limit (429), server issues (500 through 599), then the per-provider
/// fallback. It depends on the two inputs alone.
pub open spec fn troubleshooting_text(name: Seq<char>, e: SearchError) -> Seq<char> {
    match http_status(e) {
        Some(c) => if c == 401 || c == 403 {
            auth_hint()
        } else if c == 400 {
            parameters_hint()
        } else if c == 429 {
            rate_limit_hint()
        } else if 500 <= c && c <= 599 {
            server_hint()
        } else {
            provider_hint(name)
        },
        None => provider_hint(name),
    }
}

/// The composite message of the provider-error envelope: the provider's
/// name, the original error's display text, and the troubleshooting hint,
/// concatenated deterministically.
pub open spec fn provider_failure_text(name: Seq<char>, cause: SearchError) -> Seq<char> {
    "Search with provider '"@ + name + "' failed: "@ + error_text(cause)
        + "\n\nTroubleshooting: "@ + troubleshooting_text(name, cause)
}

/// How a provider's outcome settles into the orchestrator's result: a
/// success passes through unchanged — no truncation, filtering or
/// re-sorting — and a failure becomes the provider-error envelope carrying
/// the composite message.
pub open spec fn search_settles(
    name: Seq<char>,
    outcome: Result<Vec<SearchResult>, SearchError>,
    r: Result<Vec<SearchResult>, SearchError>,
) -> bool {
    match outcome {
        Ok(results) => r == Ok::<Vec<SearchResult>, SearchError>(results),
        Err(cause) => match r {
            Err(SearchError::ProviderError(m)) => m@ == provider_failure_text(name, cause),
            _ => false,
        },
    }
}

/// The per-provider fallback hint, for errors whose status settles nothing.
fn fallback_hint(provider_name: &str) -> (r: String)
    ensures
        r@ == provider_hint(provider_name@),
{
    let name = provider_name.to_owned();
    if name == "duckduckgo".to_owned() {
        "You may be making too many requests to DuckDuckGo. Try adding a delay between requests or reduce your request frequency.".to_owned()
    } else if name == "arxiv".to_owned() {
        "ArXiv may be temporarily unavailable. Try again later or reduce your request frequency.".to_owned()
    } else {
        "Check your ".to_owned().concat(provider_name).concat(
            " configuration and make sure your search request is valid.",
        )
    }
}

/// The troubleshooting hint for an error under a named provider; consulted
/// only on failure, and a pure function of its two arguments.
pub fn get_troubleshooting_info(provider_name: &str, error: &SearchError) -> (r: String)
    ensures
        r@ == troubleshooting_text(provider_name@, *error),
{
    let status: Option<u16> = match error {
        SearchError::HttpError { status_code, .. } => *status_code,
        _ => None,
    };
    match status {
        Some(c) => {
            if c == 401 || c == 403 {
                "This is likely an authentication issue. Check your API key and make sure it's valid and has the correct permissions.".to_owned()
            } else if c == 400 {
                "This is likely due to invalid request parameters. Check your query and other search options.".to_owned()
            } else if c == 429 {
                "You've exceeded the rate limit for this API. Try again later or reduce your request frequency.".to_owned()
            } else if 500 <= c && c <= 599 {
                "The search provider is experiencing server issues. Try again later.".to_owned()
            } else {
                fallback_hint(provider_name)
            }
        },
        None => fallback_hint(provider_name),
    }
}

/// Settles a provider's outcome: a success is returned exactly as produced,
/// a failure is classified once and wrapped in the provider-error envelope.
/// At most one diagnostic is emitted, gated by the debug options.
pub fn finish_search(
    provider_name: &str,
    outcome: Result<Vec<SearchResult>, SearchError>,
    debug_options: &Option<DebugOptions>,
) -> (r: Result<Vec<SearchResult>, SearchError>)
    ensures
        search_settles(provider_name@, outcome, r),
{
    match outcome {
        Ok(results) => {
            let line = "Received ".to_owned().concat(
                u64_to_decimal(results.len() as u64).as_str(),
            ).concat(" results");
            debug::log_response(debug_options, line.as_str());
            Ok(results)
        },
        Err(cause) => {
            let info = get_troubleshooting_info(provider_name, &cause);
            let msg = "Search with provider '".to_owned().concat(provider_name).concat(
                "' failed: ",
            ).concat(cause.message().as_str()).concat("\n\nTroubleshooting: ").concat(
                info.as_str(),
            );
            debug::log(debug_options, "Search error", msg.as_str());
            Err(SearchError::ProviderError(msg))
        },
    }
}

/// Queries the provider bound to the options and returns its results
/// normalized: an invalid request fails up front with `InvalidInput`; a
/// valid one is handed to the provider unmodified, its success passed
/// through exactly, its failure wrapped — once — in the provider-error
/// envelope.
pub fn web_search<P: SearchProvider>(options: SearchOptions<P>) -> (r: Result<
    Vec<SearchResult>,
    SearchError,
>)
    ensures
        r is Ok ==> options_are_valid(options),
        !options_are_valid(options) ==> match r {
            Err(SearchError::InvalidInput(m)) => m@ == invalid_input_text(),
            _ => false,
        },
        options_are_valid(options) && r is Err ==> match r {
            Err(SearchError::ProviderError(m)) => exists|name: Seq<char>, cause: SearchError|
                m@ == provider_failure_text(name, cause),
            _ => false,
        },
{
    let has_ids = match &options.id_list {
        Some(ids) => !ids.as_str().is_empty(),
        None => false,
    };
    if options.query.as_str().is_empty() && !has_ids {
        return Err(
            SearchError::InvalidInput("A search query or ID list (for Arxiv) is required".to_owned()),
        );
    }
    let name = options.provider.name();
    let line = "provider: ".to_owned().concat(name).concat(", query: ").concat(
        options.query.as_str(),
    );
    debug::log(&options.debug, "Performing search", line.as_str());
    debug::log_request(&options.debug, request_parameters_text(&options).as_str());
    let outcome = options.provider.search(&options);
    finish_search(name, outcome, &options.debug)
}

/// The text of an optional string, `none` when absent.
pub open spec fn opt_text(o: Option<String>) -> Seq<char> {
    match o {
        Some(s) => s@,
        None => "none"@,
    }
}

/// The full request parameters of an options value, as the diagnostics echo
/// them: every field but the provider, absent ones spelled `none`.
pub open spec fn request_parameters<P: SearchProvider>(options: SearchOptions<P>) -> Seq<char> {
    "query: "@ + options.query@ + ", id_list: "@ + opt_text(options.id_list)
        + ", max_results: "@ + (match options.max_results {
        Some(n) => decimal_digits(n as nat),
        None => "none"@,
    }) + ", language: "@ + opt_text(options.language) + ", region: "@ + opt_text(options.region)
        + ", safe_search: "@ + (match options.safe_search {
        Some(s) => types::safe_search_label(s),
        None => "none"@,
    }) + ", sort_by: "@ + (match options.sort_by {
        Some(s) => types::sort_by_label(s),
        None => "none"@,
    }) + ", sort_order: "@ + (match options.sort_order {
        Some(s) => types::sort_order_label(s),
        None => "none"@,
    })
}

/// Renders the request parameters for the diagnostics sink.
fn request_parameters_text<P: SearchProvider>(options: &SearchOptions<P>) -> (r: String)
    ensures
        r@ == request_parameters(*options),
{
    let max_text: String = match options.max_results {
        Some(n) => u64_to_decimal(n as u64),
        None => "none".to_owned(),
    };
    "query: ".to_owned().concat(options.query.as_str()).concat(", id_list: ").concat(
        match &options.id_list {
            Some(s) => s.as_str(),
            None => "none",
        },
    ).concat(", max_results: ").concat(max_text.as_str()).concat(", language: ").concat(
        match &options.language {
            Some(s) => s.as_str(),
            None => "none",
        },
    ).concat(", region: ").concat(
        match &options.region {
            Some(s) => s.as_str(),
            None => "none",
        },
    ).concat(", safe_search: ").concat(
        match &options.safe_search {
            Some(s) => s.label(),
            None => "none",
        },
    ).concat(", sort_by: ").concat(
        match &options.sort_by {
            Some(s) => s.label(),
            None => "none",
        },
    ).concat(", sort_order: ").concat(
        match &options.sort_order {
            Some(s) => s.label(),
            None => "none",
        },
    )
}

} // verus!
