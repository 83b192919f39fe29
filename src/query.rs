use std::sync::Arc;
use vstd::prelude::*;
use vstd::string::StringExecFns;

use crate::config::{request_of, ConfigView, Configuration, Endpoint, PreparedRequest, RequestView};
use crate::encode::{encode_text, push_encoded};

verus! {

/// Query parameters as pairs of key and value.
pub type ParamsView = Seq<(Seq<char>, Seq<char>)>;

/// No key stands twice.
pub open spec fn keys_unique(ps: ParamsView) -> bool {
    forall|i: int, j: int| 0 <= i < ps.len() && 0 <= j < ps.len() && i != j ==> #[trigger] ps[i].0 != #[trigger] ps[j].0
}

pub open spec fn has_key(ps: ParamsView, k: Seq<char>) -> bool {
    exists|i: int| 0 <= i < ps.len() && #[trigger] ps[i].0 == k
}

/// Sets the value of a key: the entry of that key is replaced where there
/// is one, else a new entry is added at the end.
pub open spec fn upsert(ps: ParamsView, k: Seq<char>, v: Seq<char>) -> ParamsView {
    if has_key(ps, k) {
        ps.update(choose|i: int| 0 <= i < ps.len() && #[trigger] ps[i].0 == k, (k, v))
    } else {
        ps.push((k, v))
    }
}

/// Setting a parameter keeps each key once.
pub proof fn lemma_upsert_keeps_keys_unique(ps: ParamsView, k: Seq<char>, v: Seq<char>)
    requires
        keys_unique(ps),
    ensures
        keys_unique(upsert(ps, k, v)),
        has_key(upsert(ps, k, v), k),
{
    let r = upsert(ps, k, v);
    if has_key(ps, k) {
        let c = choose|i: int| 0 <= i < ps.len() && #[trigger] ps[i].0 == k;
        assert(r[c].0 == k);
    } else {
        assert(r[ps.len() as int].0 == k);
    }
}

/// `&{key}={value}` for each parameter, in order, encoded.
pub open spec fn params_suffix(ps: ParamsView) -> Seq<char>
    decreases ps.len(),
{
    if ps.len() == 0 {
        Seq::empty()
    } else {
        params_suffix(ps.drop_last()) + "&"@ + encode_text(ps.last().0) + "="@ + encode_text(
            ps.last().1,
        )
    }
}

/// `query={query}` followed by the parameters.
pub open spec fn query_string(query: Seq<char>, ps: ParamsView) -> Seq<char> {
    "query="@ + encode_text(query) + params_suffix(ps)
}

/// What a query builder holds.
pub struct QueryView {
    pub config: ConfigView,
    pub query: Seq<char>,
    pub params: ParamsView,
}

/// The request of a query: the query endpoint with an empty path, then the
/// query string.
pub open spec fn query_request(q: QueryView) -> RequestView {
    let base = request_of(q.config, Endpoint::Query, Seq::empty());
    RequestView { url: base.url + "?"@ + query_string(q.query, q.params), ..base }
}

/// Builds a request to the query endpoint from a GROQ query and parameters.
pub struct QueryBuilder {
    config: Arc<Configuration>,
    query: String,
    params: Vec<(String, String)>,
}

pub open spec fn pair_view(p: (String, String)) -> (Seq<char>, Seq<char>) {
    (p.0@, p.1@)
}

impl View for QueryBuilder {
    type V = QueryView;

    closed spec fn view(&self) -> QueryView {
        QueryView {
            config: self.config@,
            query: self.query@,
            params: self.params@.map_values(|p: (String, String)| pair_view(p)),
        }
    }
}

impl QueryBuilder {
    /// The parameters hold each key once.
    pub open spec fn wf(&self) -> bool {
        keys_unique(self@.params)
    }

    pub(crate) fn new(config: Arc<Configuration>, query: &str) -> (r: QueryBuilder)
        ensures
            r@ == (QueryView { config: config@, query: query@, params: Seq::empty() }),
            r.wf(),
    {
        let r = QueryBuilder { config, query: String::from_str(query), params: Vec::new() };
        proof {
            assert(r.params@.map_values(|p: (String, String)| pair_view(p)) =~= Seq::empty());
        }
        r
    }

    /// Sets a query parameter; the last value given for a key wins.
    pub fn param(&mut self, k: &str, v: &str)
        requires
            old(self).wf(),
        ensures
            final(self)@ == (QueryView { params: upsert(old(self)@.params, k@, v@), ..old(self)@ }),
            final(self).wf(),
    {
        let ghost ps = old(self)@.params;
        let ks = String::from_str(k);
        let vs = String::from_str(v);
        let mut i: usize = 0;
        while i < self.params.len()
            invariant
                0 <= i <= self.params@.len(),
                *self == *old(self),
                ps == self.params@.map_values(|p: (String, String)| pair_view(p)),
                keys_unique(ps),
                ks@ == k@,
                vs@ == v@,
                forall|j: int| 0 <= j < i ==> #[trigger] ps[j].0 != k@,
            decreases self.params@.len() - i,
        {
            if self.params[i].0.eq(&ks) {
                proof {
                    assert(ps[i as int].0 == k@);
                    assert(has_key(ps, k@));
                    let c = choose|j: int| 0 <= j < ps.len() && #[trigger] ps[j].0 == k@;
                    assert(c == i);
                }
                self.params.set(i, (ks, vs));
                proof {
                    assert(self.params@.map_values(|p: (String, String)| pair_view(p)) =~= upsert(ps, k@, v@));
                    lemma_upsert_keeps_keys_unique(ps, k@, v@);
                }
                return;
            }
            i += 1;
        }
        assert(!has_key(ps, k@));
        self.params.push((ks, vs));
        proof {
            assert(self.params@.map_values(|p: (String, String)| pair_view(p)) =~= upsert(ps, k@, v@));
            lemma_upsert_keeps_keys_unique(ps, k@, v@);
        }
    }

    /// The request of this query: `{base}/query/{dataset}/?query={query}`,
    /// then `&{key}={value}` for each parameter, all encoded.
    pub fn build(&self) -> (r: PreparedRequest)
        ensures
            r@ == query_request(self@),
    {
        let mut r = self.config.build_request(Endpoint::Query, "");
        proof {
            reveal_strlit("");
            assert(""@ =~= Seq::<char>::empty());
        }
        let ghost base = r.url@;
        let ghost auth = r.authorization;
        r.url.append("?query=");
        push_encoded(&mut r.url, self.query.as_str());
        let ghost ps = self@.params;
        let mut i: usize = 0;
        while i < self.params.len()
            invariant
                0 <= i <= self.params@.len(),
                ps == self.params@.map_values(|p: (String, String)| pair_view(p)),
                r.authorization == auth,
                r.url@ == base + "?query="@ + encode_text(self.query@) + params_suffix(ps.subrange(0, i as int)),
            decreases self.params@.len() - i,
        {
            r.url.append("&");
            push_encoded(&mut r.url, self.params[i].0.as_str());
            r.url.append("=");
            push_encoded(&mut r.url, self.params[i].1.as_str());
            proof {
                assert(ps.subrange(0, i + 1).drop_last() =~= ps.subrange(0, i as int));
                assert(r.url@ =~= base + "?query="@ + encode_text(self.query@) + params_suffix(ps.subrange(0, i + 1)));
            }
            i += 1;
        }
        proof {
            assert(ps.subrange(0, ps.len() as int) =~= ps);
            reveal_strlit("?query=");
            reveal_strlit("?");
            reveal_strlit("query=");
            assert(r.url@ =~= query_request(self@).url);
        }
        r
    }
}

} // verus!
