use vstd::prelude::*;

use crate::config::{bearer_value, cdn_set, token_set, ConfigView};
use crate::documents::{documents_request, DocumentsView};
use crate::query::{query_request, ParamsView, QueryView};

verus! {

/// Choosing the same host twice gives the configuration that choosing it
/// once gives.
pub proof fn lemma_cdn_idempotent(c: ConfigView, use_cdn: bool)
    ensures
        cdn_set(cdn_set(c, use_cdn), use_cdn) == cdn_set(c, use_cdn),
{
}

/// Once a token is set, every query request and every documents request
/// built from that configuration carries `Authorization: Bearer {token}`,
/// whatever is chosen for the host afterwards.
pub proof fn lemma_token_propagates(
    c: ConfigView,
    token: Seq<char>,
    use_cdn: bool,
    query: Seq<char>,
    params: ParamsView,
    ids: Seq<Seq<char>>,
)
    ensures
        query_request(QueryView { config: token_set(c, token), query, params }).authorization
            == Some(bearer_value(token)),
        documents_request(DocumentsView { config: token_set(c, token), ids }).authorization
            == Some(bearer_value(token)),
        query_request(
            QueryView { config: cdn_set(token_set(c, token), use_cdn), query, params },
        ).authorization == Some(bearer_value(token)),
        documents_request(
            DocumentsView { config: cdn_set(token_set(c, token), use_cdn), ids },
        ).authorization == Some(bearer_value(token)),
{
}

/// A configuration without a token gives requests without an
/// `Authorization` header.
pub proof fn lemma_no_token_no_header(
    c: ConfigView,
    query: Seq<char>,
    params: ParamsView,
    ids: Seq<Seq<char>>,
)
    requires
        c.token is None,
    ensures
        query_request(QueryView { config: c, query, params }).authorization is None,
        documents_request(DocumentsView { config: c, ids }).authorization is None,
{
}

} // verus!
