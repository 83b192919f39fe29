use std::sync::Arc;
use vstd::prelude::*;
use vstd::string::StringExecFns;

use crate::config::{request_of, ConfigView, Configuration, Endpoint, PreparedRequest, RequestView};

verus! {

/// The ids joined with `,`; no ids give the empty path.
pub open spec fn join_ids(ids: Seq<Seq<char>>) -> Seq<char>
    decreases ids.len(),
{
    if ids.len() == 0 {
        Seq::empty()
    } else if ids.len() == 1 {
        ids[0]
    } else {
        join_ids(ids.drop_last()) + ","@ + ids.last()
    }
}

/// The views of a slice of ids.
pub open spec fn ids_view(ids: Seq<&str>) -> Seq<Seq<char>> {
    ids.map_values(|s: &str| s@)
}

/// What a documents builder holds.
pub struct DocumentsView {
    pub config: ConfigView,
    pub ids: Seq<Seq<char>>,
}

/// The request of a documents builder: the doc endpoint, with the ids as
/// the path.
pub open spec fn documents_request(d: DocumentsView) -> RequestView {
    request_of(d.config, Endpoint::Doc, join_ids(d.ids))
}

/// Builds a request to the doc endpoint for a list of document ids.
pub struct DocumentsBuilder {
    config: Arc<Configuration>,
    document_ids: Vec<String>,
}

impl View for DocumentsBuilder {
    type V = DocumentsView;

    closed spec fn view(&self) -> DocumentsView {
        DocumentsView {
            config: self.config@,
            ids: self.document_ids@.map_values(|s: String| s@),
        }
    }
}

impl DocumentsBuilder {
    pub(crate) fn new(config: Arc<Configuration>, ids: &[&str]) -> (r: DocumentsBuilder)
        ensures
            r@ == (DocumentsView { config: config@, ids: ids_view(ids@) }),
    {
        let mut r = DocumentsBuilder { config, document_ids: Vec::new() };
        proof {
            assert(r@.ids =~= Seq::<Seq<char>>::empty());
            assert(Seq::<Seq<char>>::empty() + ids_view(ids@) =~= ids_view(ids@));
        }
        r.documents(ids);
        r
    }

    /// Adds document ids to fetch, after those already there.
    pub fn documents(&mut self, ids: &[&str])
        ensures
            final(self)@ == (DocumentsView { ids: old(self)@.ids + ids_view(ids@), ..old(self)@ }),
    {
        let ghost start = old(self)@.ids;
        let mut i: usize = 0;
        while i < ids.len()
            invariant
                0 <= i <= ids@.len(),
                self.config == old(self).config,
                self@.ids == start + ids_view(ids@.subrange(0, i as int)),
            decreases ids@.len() - i,
        {
            let ghost before = self.document_ids@;
            let s = String::from_str(ids[i]);
            self.document_ids.push(s);
            proof {
                assert(self.document_ids@ == before.push(s));
                assert(self.document_ids@.map_values(|s: String| s@) =~= before.map_values(|s: String| s@).push(ids@[i as int]@));
                assert(ids_view(ids@.subrange(0, i + 1)) =~= ids_view(ids@.subrange(0, i as int)).push(ids@[i as int]@));
                assert(self@.ids =~= start + ids_view(ids@.subrange(0, i + 1)));
            }
            i += 1;
        }
        proof {
            assert(ids@.subrange(0, ids@.len() as int) =~= ids@);
        }
    }

    /// Adds one document id to fetch, after those already there.
    pub fn document(&mut self, id: &str)
        ensures
            final(self)@ == (DocumentsView { ids: old(self)@.ids.push(id@), ..old(self)@ }),
    {
        self.document_ids.push(String::from_str(id));
        proof {
            assert(self@.ids =~= old(self)@.ids.push(id@));
        }
    }

    /// The request to `{base}/doc/{dataset}/{id1},{id2},...`.
    pub fn build(&self) -> (r: PreparedRequest)
        ensures
            r@ == documents_request(self@),
    {
        let ghost ids = self@.ids;
        let mut path = String::new();
        let mut i: usize = 0;
        while i < self.document_ids.len()
            invariant
                0 <= i <= self.document_ids@.len(),
                ids == self.document_ids@.map_values(|s: String| s@),
                path@ == join_ids(ids.subrange(0, i as int)),
            decreases self.document_ids@.len() - i,
        {
            if i > 0 {
                path.append(",");
            }
            path.append(self.document_ids[i].as_str());
            proof {
                assert(ids.subrange(0, i + 1).drop_last() =~= ids.subrange(0, i as int));
                if i == 0 {
                    assert(path@ =~= join_ids(ids.subrange(0, 1)));
                } else {
                    assert(path@ =~= join_ids(ids.subrange(0, i + 1)));
                }
            }
            i += 1;
        }
        proof {
            assert(ids.subrange(0, ids.len() as int) =~= ids);
        }
        self.config.build_request(Endpoint::Doc, path.as_str())
    }
}

} // verus!
