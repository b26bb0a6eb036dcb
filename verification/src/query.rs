//! The query model: search criteria and their deterministic translation
//! into an absolute request URL against the fixed search endpoint.
use vstd::prelude::*;
use vstd::string::StrSliceExecFns;
use vstd::string::StringExecFns;
use vstd::utf8::decode_utf8;
use vstd::utf8::encode_utf8;

use crate::errors::SearchError;
use crate::percent::decode_chars;
use crate::percent::lemma_percent_round_trip;
use crate::percent::percent_encode;
use crate::percent::percent_encoding_of;
use crate::text::dec_str;
use crate::text::i64_to_dec_string;

verus! {

/// User intent for one search. At least one of `group_id`/`artifact_id`
/// must be present for the query to resolve to a request URL; this is
/// enforced at resolution time, not at construction time.
#[derive(Debug)]
pub struct SearchQuery {
    pub group_id: Option<String>,
    pub artifact_id: Option<String>,
    pub packaging: String,
    pub rows: i32,
    pub format: String,
}

/// The view of an optional string as an optional character sequence.
pub open spec fn opt_str_view(o: Option<String>) -> Option<Seq<char>> {
    match o {
        Some(s) => Some(s@),
        None => None,
    }
}

/// The raw Solr filter expression for a pair of optional coordinates:
/// one of three templates, or nothing when neither field is present.
pub open spec fn filter_spec(g: Option<Seq<char>>, a: Option<Seq<char>>) -> Option<Seq<char>> {
    match (g, a) {
        (Some(gv), Some(av)) => Some("g:\""@ + gv + "\" AND a:\""@ + av + "\""@),
        (Some(gv), None) => Some("g:\""@ + gv + "\""@),
        (None, Some(av)) => Some("a:\""@ + av + "\""@),
        (None, None) => None,
    }
}

/// The filter expression of a query.
pub open spec fn query_filter(q: &SearchQuery) -> Option<Seq<char>> {
    filter_spec(opt_str_view(q.group_id), opt_str_view(q.artifact_id))
}

/// The fixed base search endpoint.
pub open spec fn api_base() -> Seq<char> {
    "http://search.maven.org/solrsearch/select"@
}

/// The request URL of a query whose filter is present: the base endpoint
/// followed by `q`, `rows` and `wt`, in that order.
pub open spec fn url_spec(q: &SearchQuery) -> Seq<char>
    recommends
        query_filter(q) is Some,
{
    api_base() + "?q="@ + percent_encoding_of(query_filter(q)->0) + "&rows="@ + dec_str(
        q.rows as int,
    ) + "&wt="@ + percent_encoding_of(q.format@)
}

impl Default for SearchQuery {
    /// A query with no coordinates, `jar` packaging, one row, and the
    /// `json` wire format.
    fn default() -> (q: SearchQuery)
        ensures
            q.group_id is None,
            q.artifact_id is None,
            q.packaging@ == "jar"@,
            q.rows == 1i32,
            q.format@ == "json"@,
    {
        SearchQuery {
            group_id: None,
            artifact_id: None,
            packaging: String::from_str("jar"),
            rows: 1,
            format: String::from_str("json"),
        }
    }
}

impl SearchQuery {
    /// A query for the given coordinates, with the other fields at their
    /// defaults.
    pub fn new(group_id: &str, artifact_id: &str) -> (q: SearchQuery)
        ensures
            q.group_id is Some && q.group_id->0@ == group_id@,
            q.artifact_id is Some && q.artifact_id->0@ == artifact_id@,
            q.packaging@ == "jar"@,
            q.rows == 1i32,
            q.format@ == "json"@,
    {
        let mut q = SearchQuery::default();
        q.group_id = Some(String::from_str(group_id));
        q.artifact_id = Some(String::from_str(artifact_id));
        q
    }

    /// A query built from configuration values: absent fields fall back
    /// to the defaults (`rows` 1, wire format `json`).
    pub fn from_args(
        group: Option<String>,
        artifact: Option<String>,
        rows: Option<i32>,
        format: Option<String>,
    ) -> (q: SearchQuery)
        ensures
            q.group_id == group,
            q.artifact_id == artifact,
            q.rows == (match rows {
                Some(r) => r,
                None => 1i32,
            }),
            q.packaging@ == "jar"@,
            q.format@ == (match format {
                Some(f) => f@,
                None => "json"@,
            }),
    {
        let mut q = SearchQuery::default();
        q.group_id = group;
        q.artifact_id = artifact;
        match rows {
            Some(r) => {
                q.rows = r;
            },
            None => {},
        }
        match format {
            Some(f) => {
                q.format = f;
            },
            None => {},
        }
        q
    }

    /// The percent-encoded filter expression, or `None` when neither
    /// coordinate is present.
    fn encode_params(&self) -> (r: Option<String>)
        ensures
            match r {
                Some(s) => query_filter(self) is Some && s@ == percent_encoding_of(
                    query_filter(self)->0,
                ),
                None => query_filter(self) is None,
            },
    {
        match (self.group_id.as_ref(), self.artifact_id.as_ref()) {
            (Some(g), Some(a)) => {
                let mut raw = String::from_str("g:\"");
                raw.append(g.as_str());
                raw.append("\" AND a:\"");
                raw.append(a.as_str());
                raw.append("\"");
                proof {
                    assert(raw@ =~= query_filter(self)->0);
                }
                Some(percent_encode(raw.as_str()))
            },
            (Some(g), None) => {
                let mut raw = String::from_str("g:\"");
                raw.append(g.as_str());
                raw.append("\"");
                proof {
                    assert(raw@ =~= query_filter(self)->0);
                }
                Some(percent_encode(raw.as_str()))
            },
            (None, Some(a)) => {
                let mut raw = String::from_str("a:\"");
                raw.append(a.as_str());
                raw.append("\"");
                proof {
                    assert(raw@ =~= query_filter(self)->0);
                }
                Some(percent_encode(raw.as_str()))
            },
            (None, None) => None,
        }
    }

    /// Resolves the query into an absolute request URL. Fails with
    /// `EmptyQuery` exactly when neither coordinate is present, whatever
    /// the other fields hold.
    pub fn resolve_url(&self) -> (r: Result<String, SearchError>)
        ensures
            match r {
                Ok(u) => query_filter(self) is Some && u@ == url_spec(self),
                Err(e) => e == SearchError::EmptyQuery,
            },
            (r is Err) <==> (self.group_id is None && self.artifact_id is None),
    {
        if let Some(params) = self.encode_params() {
            let mut url = String::from_str("http://search.maven.org/solrsearch/select");
            url.append("?q=");
            url.append(params.as_str());
            url.append("&rows=");
            let rows_str = i64_to_dec_string(self.rows as i64);
            url.append(rows_str.as_str());
            url.append("&wt=");
            let fmt = percent_encode(self.format.as_str());
            url.append(fmt.as_str());
            proof {
                assert(url@ =~= url_spec(self));
            }
            Ok(url)
        } else {
            Err(SearchError::EmptyQuery)
        }
    }
}

/// For every query with at least one coordinate present, the filter
/// expression exists (it is one of the three templates over the present
/// values, by the definition of [`query_filter`]), URL resolution
/// succeeds, and percent-decoding the encoded `q` parameter yields back
/// exactly the UTF-8 bytes of that filter expression, which in turn decode
/// to the original filter characters.
pub proof fn lemma_resolve_url_filter_round_trip(q: &SearchQuery)
    requires
        q.group_id is Some || q.artifact_id is Some,
    ensures
        query_filter(q) is Some,
        decode_chars(percent_encoding_of(query_filter(q)->0)) == Some(
            encode_utf8(query_filter(q)->0),
        ),
        decode_utf8(encode_utf8(query_filter(q)->0)) == query_filter(q)->0,
{
    lemma_percent_round_trip(query_filter(q)->0);
}

} // verus!
