//! The orchestrator: decodes a fetched response body and turns it into
//! display lines — dependency declarations when a dialect was requested,
//! else a plain per-artifact summary. It never performs I/O itself; the
//! caller fetches the body for the resolved URL and prints the lines.
use vstd::prelude::*;
use vstd::string::StringExecFns;

use crate::decode::Artifact;
use crate::decode::ArtifactView;
use crate::decode::SearchResult;
use crate::decode::SearchResultView;
use crate::decode::decode;
use crate::decode::decode_bytes_spec;
use crate::errors::SearchError;
use crate::render::Dialect;
use crate::render::render;
use crate::render::render_spec;
use crate::text::dec_str;
use crate::text::i64_to_dec_string;

verus! {

/// The plain summary line for one artifact.
pub open spec fn summary_line_spec(a: ArtifactView) -> Seq<char> {
    "    "@ + a.id + ": latest version ["@ + a.latest_version + "] (versions behind: "@ + dec_str(
        a.version_count,
    ) + ")"@
}

/// Renders the plain summary line for one artifact.
pub fn summary_line(a: &Artifact) -> (r: String)
    ensures
        r@ == summary_line_spec(a@),
{
    let mut s = String::from_str("    ");
    s.append(a.id.as_str());
    s.append(": latest version [");
    s.append(a.latest_version.as_str());
    s.append("] (versions behind: ");
    let count = i64_to_dec_string(a.version_count as i64);
    s.append(count.as_str());
    s.append(")");
    proof {
        assert(s@ =~= summary_line_spec(a@));
    }
    s
}

/// The display lines for a decoded result: one rendered declaration per
/// artifact when a dialect was requested (failing as a whole when the
/// dialect has no template), else one summary line per artifact.
pub open spec fn output_spec(res: SearchResultView, dialect: Option<Dialect>) -> Result<
    Seq<Seq<char>>,
    SearchError,
> {
    match dialect {
        Some(d) => {
            if forall|i: int| 0 <= i < res.data.len() ==> #[trigger] render_spec(d, res.data[i]) is Ok {
                Ok(res.data.map_values(|a: ArtifactView| render_spec(d, a)->Ok_0))
            } else {
                Err(SearchError::UnsupportedFormat)
            }
        },
        None => Ok(res.data.map_values(|a: ArtifactView| summary_line_spec(a))),
    }
}

/// The outcome of one full invocation after the body was fetched: the
/// decoded result paired with its display lines, or the first error.
pub open spec fn process_spec(bytes: Seq<u8>, dialect: Option<Dialect>) -> Result<
    (SearchResultView, Seq<Seq<char>>),
    SearchError,
> {
    match decode_bytes_spec(bytes) {
        Ok(res) => match output_spec(res, dialect) {
            Ok(lines) => Ok((res, lines)),
            Err(e) => Err(e),
        },
        Err(e) => Err(e),
    }
}

/// Decodes a fetched response body and produces its display lines.
#[verifier::loop_isolation(false)]
pub fn process_response(bytes: &[u8], dialect: Option<Dialect>) -> (r: Result<
    (SearchResult, Vec<String>),
    SearchError,
>)
    ensures
        match r {
            Ok(out) => process_spec(bytes@, dialect) == Ok::<
                (SearchResultView, Seq<Seq<char>>),
                SearchError,
            >((out.0@, out.1.deep_view())),
            Err(e) => process_spec(bytes@, dialect) == Err::<
                (SearchResultView, Seq<Seq<char>>),
                SearchError,
            >(e),
        },
{
    let res = match decode(bytes) {
        Ok(res) => res,
        Err(e) => {
            return Err(e);
        },
    };
    let mut lines: Vec<String> = Vec::new();
    match dialect {
        Some(d) => {
            let mut i: usize = 0;
            while i < res.data.len()
                invariant
                    i <= res.data@.len(),
                    lines@.len() == i,
                    forall|j: int|
                        0 <= j < i ==> #[trigger] render_spec(d, res.data@[j]@) is Ok
                            && lines@[j]@ == render_spec(d, res.data@[j]@)->Ok_0,
                decreases res.data@.len() - i,
            {
                match render(d, &res.data[i]) {
                    Ok(line) => {
                        lines.push(line);
                    },
                    Err(e) => {
                        proof {
                            assert(!(forall|k: int|
                                0 <= k < res@.data.len() ==> #[trigger] render_spec(
                                    d,
                                    res@.data[k],
                                ) is Ok)) by {
                                assert(res@.data[i as int] == res.data@[i as int]@);
                                assert(render_spec(d, res@.data[i as int]) is Err);
                            }
                        }
                        return Err(e);
                    },
                }
                i += 1;
            }
            proof {
                assert(forall|k: int|
                    0 <= k < res@.data.len() ==> #[trigger] render_spec(d, res@.data[k]) is Ok)
                    by {
                    assert(forall|k: int|
                        0 <= k < res@.data.len() ==> res@.data[k] == res.data@[k]@);
                }
                assert(lines.deep_view() =~= res@.data.map_values(
                    |a: ArtifactView| render_spec(d, a)->Ok_0,
                ));
            }
        },
        None => {
            let mut i: usize = 0;
            while i < res.data.len()
                invariant
                    i <= res.data@.len(),
                    lines@.len() == i,
                    forall|j: int| 0 <= j < i ==> lines@[j]@ == summary_line_spec(res.data@[j]@),
                decreases res.data@.len() - i,
            {
                let line = summary_line(&res.data[i]);
                lines.push(line);
                i += 1;
            }
            proof {
                assert(lines.deep_view() =~= res@.data.map_values(
                    |a: ArtifactView| summary_line_spec(a),
                ));
            }
        },
    }
    Ok((res, lines))
}

} // verus!
