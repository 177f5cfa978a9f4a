use vstd::prelude::*;

use crate::error::SearchError;

verus! {

/// `serde_json::Value` carries a backend's raw payload through the core
/// untouched; the core never looks inside it.
#[verifier::external_type_specification]
#[verifier::external_body]
pub struct ExValue(serde_json::Value);

/// Relies on `serde_json::Value::clone` (a derived `Clone`): the copy equals
/// the original.
pub assume_specification[ <serde_json::Value as Clone>::clone ](v: &serde_json::Value) -> (r:
    serde_json::Value)
    ensures
        r == *v,
;

/// One normalized search hit, backend-agnostic in shape. The `url` is kept
/// verbatim: the core neither validates nor rejects it.
#[derive(Debug)]
pub struct SearchResult {
    /// The hit's title.
    pub title: String,
    /// The hit's address, exactly as the backend produced it.
    pub url: String,
    /// A short extract, when the backend offers one.
    pub snippet: Option<String>,
    /// The site the hit points into.
    pub domain: Option<String>,
    /// A publication date in the backend's own format; opaque to the core.
    pub published_date: Option<String>,
    /// A tag naming the backend the hit came from.
    pub provider: Option<String>,
    /// The backend-native payload, retained for diagnostics.
    pub raw: Option<serde_json::Value>,
}

impl Clone for SearchResult {
    /// A clone equals the original in every field.
    fn clone(&self) -> (r: Self)
        ensures
            r == *self,
    {
        SearchResult {
            title: self.title.clone(),
            url: self.url.clone(),
            snippet: match &self.snippet {
                Some(s) => Some(s.clone()),
                None => None,
            },
            domain: match &self.domain {
                Some(s) => Some(s.clone()),
                None => None,
            },
            published_date: match &self.published_date {
                Some(s) => Some(s.clone()),
                None => None,
            },
            provider: match &self.provider {
                Some(s) => Some(s.clone()),
                None => None,
            },
            raw: match &self.raw {
                Some(v) => Some(v.clone()),
                None => None,
            },
        }
    }
}

/// How strongly a backend should filter explicit material.
#[derive(Clone, Copy, Debug, PartialEq, Eq, Structural)]
pub enum SafeSearch {
    Off,
    Moderate,
    Strict,
}

/// The label of a filtering level, as diagnostics spell it.
pub open spec fn safe_search_label(s: SafeSearch) -> Seq<char> {
    match s {
        SafeSearch::Off => "off"@,
        SafeSearch::Moderate => "moderate"@,
        SafeSearch::Strict => "strict"@,
    }
}

impl SafeSearch {
    /// The level's label.
    pub fn label(&self) -> (r: &'static str)
        ensures
            r@ == safe_search_label(*self),
    {
        match self {
            SafeSearch::Off => "off",
            SafeSearch::Moderate => "moderate",
            SafeSearch::Strict => "strict",
        }
    }
}

/// The field a backend should order its results by.
#[derive(Clone, Copy, Debug, PartialEq, Eq, Structural)]
pub enum SortBy {
    Relevance,
    SubmittedDate,
    LastUpdatedDate,
}

/// The label of a sort field, as diagnostics spell it.
pub open spec fn sort_by_label(s: SortBy) -> Seq<char> {
    match s {
        SortBy::Relevance => "relevance"@,
        SortBy::SubmittedDate => "submitted_date"@,
        SortBy::LastUpdatedDate => "last_updated_date"@,
    }
}

impl SortBy {
    /// The field's label.
    pub fn label(&self) -> (r: &'static str)
        ensures
            r@ == sort_by_label(*self),
    {
        match self {
            SortBy::Relevance => "relevance",
            SortBy::SubmittedDate => "submitted_date",
            SortBy::LastUpdatedDate => "last_updated_date",
        }
    }
}

/// The direction of that order.
#[derive(Clone, Copy, Debug, PartialEq, Eq, Structural)]
pub enum SortOrder {
    Ascending,
    Descending,
}

/// The label of a sort direction, as diagnostics spell it.
pub open spec fn sort_order_label(s: SortOrder) -> Seq<char> {
    match s {
        SortOrder::Ascending => "ascending"@,
        SortOrder::Descending => "descending"@,
    }
}

impl SortOrder {
    /// The direction's label.
    pub fn label(&self) -> (r: &'static str)
        ensures
            r@ == sort_order_label(*self),
    {
        match self {
            SortOrder::Ascending => "ascending",
            SortOrder::Descending => "descending",
        }
    }
}

/// The gates on diagnostic emission. With `enabled` false, no diagnostic is
/// emitted, whatever the other two flags say.
#[derive(Clone, Copy, Debug, PartialEq, Eq, Structural)]
pub struct DebugOptions {
    /// The master gate for all diagnostic emission.
    pub enabled: bool,
    /// Also echo the full request parameters.
    pub log_requests: bool,
    /// Also report the result count of a successful call.
    pub log_responses: bool,
}

impl Default for DebugOptions {
    /// Every gate starts closed.
    fn default() -> (r: Self)
        ensures
            !r.enabled,
            !r.log_requests,
            !r.log_responses,
    {
        DebugOptions { enabled: false, log_requests: false, log_responses: false }
    }
}

/// One search request: the query (or a comma-separated ID list for backends
/// that look items up by ID), tuning knobs a backend may ignore, and the
/// bound provider instance, owned by the request for the duration of the
/// call.
pub struct SearchOptions<P: SearchProvider> {
    /// Free-text query; may be empty only when `id_list` is present and
    /// non-empty.
    pub query: String,
    /// Comma-separated identifiers, with provider-specific meaning.
    pub id_list: Option<String>,
    /// A bound on the result count; enforcing it is the provider's business,
    /// not the orchestrator's.
    pub max_results: Option<u32>,
    /// A locale hint, provider-specific.
    pub language: Option<String>,
    /// A locale hint, provider-specific.
    pub region: Option<String>,
    /// The filtering level, for backends that filter.
    pub safe_search: Option<SafeSearch>,
    /// The sort field, for backends that sort.
    pub sort_by: Option<SortBy>,
    /// The sort direction, for backends that sort.
    pub sort_order: Option<SortOrder>,
    /// The gates on diagnostic emission.
    pub debug: Option<DebugOptions>,
    /// The backend this request is bound to; exactly one per call.
    pub provider: P,
}

impl<P: SearchProvider> SearchOptions<P> {
    /// A request carrying the two required pieces, every tuning knob unset.
    pub fn new(query: String, provider: P) -> (r: Self)
        ensures
            r.query == query,
            r.id_list is None,
            r.max_results is None,
            r.language is None,
            r.region is None,
            r.safe_search is None,
            r.sort_by is None,
            r.sort_order is None,
            r.debug is None,
            r.provider == provider,
    {
        SearchOptions {
            query,
            id_list: None,
            max_results: None,
            language: None,
            region: None,
            safe_search: None,
            sort_by: None,
            sort_order: None,
            debug: None,
            provider,
        }
    }
}

/// The capability a search backend implements: a stable identity and one
/// search operation. A backend may ignore option fields it does not support;
/// a backend that cannot look items up by ID must reject an ID-only request
/// with an error rather than silently return nothing.
pub trait SearchProvider: Sized {
    /// A stable lowercase identifier, used for diagnostics and for the
    /// troubleshooting lookup; it must not change across calls on one
    /// instance.
    fn name(&self) -> (r: &str);

    /// Runs one search. The options are read, never changed; any timeout is
    /// the backend's own business — the core imposes none.
    fn search(&self, options: &SearchOptions<Self>) -> (r: Result<
        Vec<SearchResult>,
        SearchError,
    >);
}

} // verus!
