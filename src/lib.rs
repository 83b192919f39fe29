//! A small client for the Sanity.io HTTP API: it prepares authenticated GET
//! requests against the query endpoint and the document endpoint.
use std::sync::Arc;
use vstd::prelude::*;

mod config;
mod documents;
mod encode;
mod json;
mod laws;
mod query;

pub use config::{
    authorization_of, base_url_of, bearer_value, build_base_url, cdn_set, endpoint_name,
    request_of, request_url_of, token_acceptable, token_is_valid, token_set, ConfigView,
    Configuration, Endpoint, PreparedRequest, RequestView,
};
pub use documents::{documents_request, ids_view, join_ids, DocumentsBuilder, DocumentsView};
pub use encode::{encode_component, encode_text, percent_encode};
pub use json::ApiResponse;
pub use laws::{lemma_cdn_idempotent, lemma_token_propagates, lemma_no_token_no_header};
pub use query::{
    lemma_upsert_keeps_keys_unique, params_suffix, query_request, query_string, upsert,
    QueryBuilder, QueryView,
};

verus! {

/// The entry point: a configuration shared with the request builders made
/// from it. Changing the host choice or the token makes a new client.
#[derive(Clone)]
pub struct SanityClient {
    inner: Arc<Configuration>,
}

impl View for SanityClient {
    type V = ConfigView;

    closed spec fn view(&self) -> ConfigView {
        self.inner@
    }
}

impl SanityClient {
    /// A client of a project, a dataset and an API version, on the live API
    /// and without a token.
    pub fn new(project: &str, dataset: &str, api: &str) -> (r: SanityClient)
        ensures
            r@ == (ConfigView { project: project@, dataset: dataset@, api: api@, cdn: false, token: None }),
    {
        SanityClient { inner: Arc::new(Configuration::new(project, dataset, api)) }
    }

    /// A client whose requests carry `Authorization: Bearer {token}`.
    pub fn token(self, token: &str) -> (r: SanityClient)
        requires
            token_acceptable(token@),
        ensures
            r@ == token_set(self@, token@),
    {
        SanityClient { inner: Arc::new(self.inner.with_token(token)) }
    }

    /// A client that uses the API CDN, or not.
    pub fn cdn(self, use_cdn: bool) -> (r: SanityClient)
        ensures
            r@ == cdn_set(self@, use_cdn),
    {
        SanityClient { inner: Arc::new(self.inner.with_cdn(use_cdn)) }
    }

    /// A builder of a GROQ query, with no parameters yet.
    pub fn query(&self, query: &str) -> (r: QueryBuilder)
        ensures
            r@ == (QueryView { config: self@, query: query@, params: Seq::empty() }),
            r.wf(),
    {
        QueryBuilder::new(self.inner.clone(), query)
    }

    /// A builder that fetches documents by id.
    pub fn documents(&self, ids: &[&str]) -> (r: DocumentsBuilder)
        ensures
            r@ == (DocumentsView { config: self@, ids: ids_view(ids@) }),
    {
        DocumentsBuilder::new(self.inner.clone(), ids)
    }

    /// A builder that fetches one document by id.
    pub fn document(&self, id: &str) -> (r: DocumentsBuilder)
        ensures
            r@ == (DocumentsView { config: self@, ids: seq![id@] }),
    {
        let ids = [id];
        let r = DocumentsBuilder::new(self.inner.clone(), &ids);
        proof {
            assert(ids_view(ids@) =~= seq![id@]);
        }
        r
    }

    /// The configuration of this client.
    pub fn config(&self) -> (r: &Configuration)
        ensures
            r@ == self@,
    {
        &self.inner
    }
}

} // verus!
