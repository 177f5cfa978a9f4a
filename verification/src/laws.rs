use vstd::prelude::*;

use crate::error::{error_text, SearchError};
use crate::types::{SearchOptions, SearchProvider, SearchResult};
use crate::{
    auth_hint, generic_hint, http_status, invalid_input_text, options_are_valid, parameters_hint,
    provider_failure_text, rate_limit_hint, search_settles, server_hint, troubleshooting_text,
};

verus! {

/// Whether `needle` occurs in `hay` as one contiguous run.
pub open spec fn contains_text(hay: Seq<char>, needle: Seq<char>) -> bool {
    exists|i: int|
        0 <= i && i + needle.len() <= hay.len() && #[trigger] hay.subrange(
            i,
            i + needle.len() as int,
        ) == needle
}

/// A run found at a concrete position is an occurrence.
pub proof fn lemma_contains_at(hay: Seq<char>, needle: Seq<char>, i: int)
    requires
        0 <= i,
        i + needle.len() <= hay.len(),
        hay.subrange(i, i + needle.len() as int) == needle,
    ensures
        contains_text(hay, needle),
{
}

/// The validation error names what was missing: its message speaks of a
/// search query or ID list.
pub proof fn lemma_invalid_input_names_requirements()
    ensures
        contains_text(invalid_input_text(), "search query or ID list"@),
{
    reveal_strlit("A search query or ID list (for Arxiv) is required");
    reveal_strlit("search query or ID list");
    assert(invalid_input_text().subrange(2, 2 + "search query or ID list"@.len() as int)
        =~= "search query or ID list"@);
    lemma_contains_at(invalid_input_text(), "search query or ID list"@, 2);
}

/// Validation looks only at whether the query and the ID list are empty,
/// never at their content: two requests that agree on that much agree on
/// validity, whatever characters they carry.
pub proof fn lemma_validation_ignores_content<P: SearchProvider, Q: SearchProvider>(
    a: SearchOptions<P>,
    b: SearchOptions<Q>,
)
    requires
        (a.query@.len() == 0) == (b.query@.len() == 0),
        (a.id_list matches Some(x) && x@.len() > 0) == (b.id_list matches Some(y) && y@.len()
            > 0),
    ensures
        options_are_valid(a) == options_are_valid(b),
{
}

/// An HTTP failure classifies by its status alone: authentication for 401
/// and 403, request parameters for 400, rate limiting for 429, server
/// issues for 500 through 599 — whatever the provider's name.
pub proof fn lemma_http_failure_hints(name: Seq<char>, e: SearchError)
    requires
        http_status(e) is Some,
    ensures
        http_status(e) == Some(401u16) || http_status(e) == Some(403u16)
            ==> troubleshooting_text(name, e) == auth_hint(),
        http_status(e) == Some(400u16) ==> troubleshooting_text(name, e) == parameters_hint(),
        http_status(e) == Some(429u16) ==> troubleshooting_text(name, e) == rate_limit_hint(),
        http_status(e) matches Some(c) && 500 <= c && c <= 599 ==> troubleshooting_text(name, e)
            == server_hint(),
{
}

/// Each status-derived hint names its subject phrase.
pub proof fn lemma_hint_phrases()
    ensures
        contains_text(auth_hint(), "authentication issue"@),
        contains_text(parameters_hint(), "invalid request parameters"@),
        contains_text(rate_limit_hint(), "rate limit"@),
        contains_text(server_hint(), "server issues"@),
{
    reveal_strlit(
        "This is likely an authentication issue. Check your API key and make sure it's valid and has the correct permissions.",
    );
    reveal_strlit("authentication issue");
    assert(auth_hint().subrange(18, 18 + "authentication issue"@.len() as int)
        =~= "authentication issue"@);
    lemma_contains_at(auth_hint(), "authentication issue"@, 18);
    reveal_strlit(
        "This is likely due to invalid request parameters. Check your query and other search options.",
    );
    reveal_strlit("invalid request parameters");
    assert(parameters_hint().subrange(22, 22 + "invalid request parameters"@.len() as int)
        =~= "invalid request parameters"@);
    lemma_contains_at(parameters_hint(), "invalid request parameters"@, 22);
    reveal_strlit(
        "You've exceeded the rate limit for this API. Try again later or reduce your request frequency.",
    );
    reveal_strlit("rate limit");
    assert(rate_limit_hint().subrange(20, 20 + "rate limit"@.len() as int) =~= "rate limit"@);
    lemma_contains_at(rate_limit_hint(), "rate limit"@, 20);
    reveal_strlit("The search provider is experiencing server issues. Try again later.");
    reveal_strlit("server issues");
    assert(server_hint().subrange(36, 36 + "server issues"@.len() as int) =~= "server issues"@);
    lemma_contains_at(server_hint(), "server issues"@, 36);
}

/// A failed search's composite message names the provider, mentions the
/// failure, and carries the troubleshooting hint whole.
pub proof fn lemma_failure_message_parts(name: Seq<char>, cause: SearchError)
    ensures
        contains_text(provider_failure_text(name, cause), name),
        contains_text(provider_failure_text(name, cause), "failed"@),
        contains_text(provider_failure_text(name, cause), troubleshooting_text(name, cause)),
{
    reveal_strlit("Search with provider '");
    reveal_strlit("' failed: ");
    reveal_strlit("\n\nTroubleshooting: ");
    reveal_strlit("failed");
    let t = provider_failure_text(name, cause);
    assert(t.subrange(22, 22 + name.len() as int) =~= name);
    lemma_contains_at(t, name, 22);
    let k: int = 24 + name.len() as int;
    assert(t.subrange(k, k + "failed"@.len() as int) =~= "failed"@);
    lemma_contains_at(t, "failed"@, k);
    let h = troubleshooting_text(name, cause);
    let i: int = t.len() - h.len();
    assert(t.subrange(i, i + h.len() as int) =~= h);
    lemma_contains_at(t, h, i);
}

/// Settling is a function of the provider's name and its outcome alone: two
/// settlements of one outcome agree — same results on success, provider
/// error envelopes with the same message on failure.
pub proof fn lemma_settlement_deterministic(
    name: Seq<char>,
    outcome: Result<Vec<SearchResult>, SearchError>,
    r1: Result<Vec<SearchResult>, SearchError>,
    r2: Result<Vec<SearchResult>, SearchError>,
)
    requires
        search_settles(name, outcome, r1),
        search_settles(name, outcome, r2),
    ensures
        r1 is Ok <==> r2 is Ok,
        r1 matches Ok(a) ==> r2 matches Ok(b) && a == b,
        r1 matches Err(SearchError::ProviderError(m1)) ==> r2 matches Err(
            SearchError::ProviderError(m2),
        ) && m1@ == m2@,
        r1 matches Err(e1) ==> r2 matches Err(e2) && error_text(e1) == error_text(e2),
{
}

/// For a provider the classifier does not know by name, an error without a
/// special status falls back to the generic hint, with the name
/// interpolated.
pub proof fn lemma_unknown_provider_fallback(name: Seq<char>, e: SearchError)
    requires
        !(http_status(e) matches Some(c) && (c == 400 || c == 401 || c == 403 || c == 429 || (500
            <= c && c <= 599))),
        name != "duckduckgo"@,
        name != "arxiv"@,
    ensures
        troubleshooting_text(name, e) == generic_hint(name),
        contains_text(troubleshooting_text(name, e), name),
{
    reveal_strlit("Check your ");
    assert(generic_hint(name).subrange(11, 11 + name.len() as int) =~= name);
    lemma_contains_at(generic_hint(name), name, 11);
}

} // verus!
