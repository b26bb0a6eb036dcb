//! The response decoder: turns a raw JSON byte payload into a typed
//! `SearchResult`. The result count decodes tolerantly (absence or a wrong
//! type leaves it at zero), while the document list decodes all-or-nothing:
//! one malformed document fails the whole decode. This asymmetry is
//! deliberate: a missing count is harmless, a silently dropped record is
//! not.
use vstd::prelude::*;
use vstd::string::StrSliceExecFns;

use crate::errors::SearchError;
use crate::json::JsonValue;
use crate::json::json_of;
use crate::json::lookup;
use crate::json::lookup_spec;
use crate::json::parse_json;

verus! {

/// One indexed package coordinate, as decoded from a response document.
#[derive(Clone, Debug)]
pub struct Artifact {
    pub id: String,
    pub group_id: String,
    pub artifact_id: String,
    pub latest_version: String,
    pub repository_id: String,
    pub version_count: i32,
}

/// The mathematical value of an [`Artifact`].
pub ghost struct ArtifactView {
    pub id: Seq<char>,
    pub group_id: Seq<char>,
    pub artifact_id: Seq<char>,
    pub latest_version: Seq<char>,
    pub repository_id: Seq<char>,
    pub version_count: int,
}

impl View for Artifact {
    type V = ArtifactView;

    open spec fn view(&self) -> ArtifactView {
        ArtifactView {
            id: self.id@,
            group_id: self.group_id@,
            artifact_id: self.artifact_id@,
            latest_version: self.latest_version@,
            repository_id: self.repository_id@,
            version_count: self.version_count as int,
        }
    }
}

/// The decoded outcome of one query: the total match count reported by
/// the service and the returned documents, order preserved.
#[derive(Clone, Debug)]
pub struct SearchResult {
    pub num_found: i64,
    pub data: Vec<Artifact>,
}

/// The mathematical value of a [`SearchResult`].
pub ghost struct SearchResultView {
    pub num_found: int,
    pub data: Seq<ArtifactView>,
}

impl View for SearchResult {
    type V = SearchResultView;

    open spec fn view(&self) -> SearchResultView {
        SearchResultView {
            num_found: self.num_found as int,
            data: self.data@.map_values(|a: Artifact| a@),
        }
    }
}

impl Default for SearchResult {
    /// An empty result: no matches reported, no documents.
    fn default() -> (r: SearchResult)
        ensures
            r@.num_found == 0,
            r@.data == Seq::<ArtifactView>::empty(),
    {
        let r = SearchResult { num_found: 0, data: Vec::new() };
        proof {
            assert(r@.data =~= Seq::<ArtifactView>::empty());
        }
        r
    }
}

/// The string under the given key of an object, if the entry exists and
/// holds a string.
pub open spec fn field_str(entries: Seq<(String, JsonValue)>, key: Seq<char>) -> Option<Seq<char>> {
    match lookup_spec(entries, key) {
        Some(JsonValue::Str(s)) => Some(s@),
        _ => None,
    }
}

/// The integer under the given key of an object, if the entry exists and
/// holds an integer.
pub open spec fn field_int(entries: Seq<(String, JsonValue)>, key: Seq<char>) -> Option<int> {
    match lookup_spec(entries, key) {
        Some(JsonValue::Int(n)) => Some(n as int),
        _ => None,
    }
}

/// The artifact described by one response document. The document must be
/// an object carrying all six expected fields with the right types, its
/// group and artifact ids must be non-empty, and its version count must be
/// a non-negative value that fits the count field; anything else makes the
/// document malformed. Unknown extra fields are ignored.
pub open spec fn doc_spec(doc: JsonValue) -> Option<ArtifactView> {
    match doc {
        JsonValue::Obj(entries) => {
            let e = entries@;
            if field_str(e, "id"@) is Some && field_str(e, "g"@) is Some && field_str(e, "g"@)->0.len()
                > 0 && field_str(e, "a"@) is Some && field_str(e, "a"@)->0.len() > 0 && field_str(
                e,
                "latestVersion"@,
            ) is Some && field_str(e, "repositoryId"@) is Some && field_int(e, "versionCount"@) is Some
                && 0 <= field_int(e, "versionCount"@)->0 <= i32::MAX {
                Some(
                    ArtifactView {
                        id: field_str(e, "id"@)->0,
                        group_id: field_str(e, "g"@)->0,
                        artifact_id: field_str(e, "a"@)->0,
                        latest_version: field_str(e, "latestVersion"@)->0,
                        repository_id: field_str(e, "repositoryId"@)->0,
                        version_count: field_int(e, "versionCount"@)->0,
                    },
                )
            } else {
                None
            }
        },
        _ => None,
    }
}

/// The count reported under `response.numFound`, defaulting to zero when
/// the entry is absent or not an integer.
pub open spec fn num_found_spec(response: Seq<(String, JsonValue)>) -> int {
    match lookup_spec(response, "numFound"@) {
        Some(JsonValue::Int(n)) => n as int,
        _ => 0,
    }
}

/// The outcome of decoding one parsed envelope: the envelope and its
/// `response` member must be objects and `response.docs` an array, else
/// the response is malformed; every document must decode, else the whole
/// decode fails with `MalformedArtifact` and no artifacts are returned.
pub open spec fn decode_tree_spec(root: JsonValue) -> Result<SearchResultView, SearchError> {
    match root {
        JsonValue::Obj(top) => match lookup_spec(top@, "response"@) {
            Some(JsonValue::Obj(response)) => match lookup_spec(response@, "docs"@) {
                Some(JsonValue::Arr(docs)) => {
                    if forall|i: int| 0 <= i < docs@.len() ==> #[trigger] doc_spec(docs@[i]) is Some {
                        Ok(
                            SearchResultView {
                                num_found: num_found_spec(response@),
                                data: docs@.map_values(|d: JsonValue| doc_spec(d)->0),
                            },
                        )
                    } else {
                        Err(SearchError::MalformedArtifact)
                    }
                },
                _ => Err(SearchError::MalformedResponse),
            },
            _ => Err(SearchError::MalformedResponse),
        },
        _ => Err(SearchError::MalformedResponse),
    }
}

/// The outcome of decoding a raw byte payload: parse failure is a
/// malformed response; otherwise as [`decode_tree_spec`].
pub open spec fn decode_bytes_spec(bytes: Seq<u8>) -> Result<SearchResultView, SearchError> {
    match json_of(bytes) {
        Some(root) => decode_tree_spec(root),
        None => Err(SearchError::MalformedResponse),
    }
}

/// The string under the given key, cloned out of the object.
fn get_str(entries: &Vec<(String, JsonValue)>, key: &str) -> (r: Option<String>)
    ensures
        match r {
            Some(s) => field_str(entries@, key@) == Some(s@),
            None => field_str(entries@, key@) is None,
        },
{
    match lookup(entries, key) {
        Some(JsonValue::Str(s)) => Some(s.clone()),
        _ => None,
    }
}

/// The integer under the given key of the object.
fn get_int(entries: &Vec<(String, JsonValue)>, key: &str) -> (r: Option<i64>)
    ensures
        match r {
            Some(n) => field_int(entries@, key@) == Some(n as int),
            None => field_int(entries@, key@) is None,
        },
{
    match lookup(entries, key) {
        Some(JsonValue::Int(n)) => Some(*n),
        _ => None,
    }
}

/// Decodes one response document into an artifact.
fn decode_doc(doc: &JsonValue) -> (r: Option<Artifact>)
    ensures
        match r {
            Some(a) => doc_spec(*doc) == Some(a@),
            None => doc_spec(*doc) is None,
        },
{
    match doc {
        JsonValue::Obj(entries) => {
            let id = get_str(entries, "id");
            let group_id = get_str(entries, "g");
            let artifact_id = get_str(entries, "a");
            let latest_version = get_str(entries, "latestVersion");
            let repository_id = get_str(entries, "repositoryId");
            let version_count = get_int(entries, "versionCount");
            match (id, group_id, artifact_id, latest_version, repository_id, version_count) {
                (Some(id), Some(g), Some(a), Some(lv), Some(repo), Some(vc)) => {
                    if g.as_str().is_empty() || a.as_str().is_empty() {
                        return None;
                    }
                    if vc < 0 || vc > i32::MAX as i64 {
                        return None;
                    }
                    Some(
                        Artifact {
                            id,
                            group_id: g,
                            artifact_id: a,
                            latest_version: lv,
                            repository_id: repo,
                            version_count: vc as i32,
                        },
                    )
                },
                _ => None,
            }
        },
        _ => None,
    }
}

/// Decodes an already parsed envelope into a result.
#[verifier::loop_isolation(false)]
pub fn decode_tree(root: &JsonValue) -> (r: Result<SearchResult, SearchError>)
    ensures
        match r {
            Ok(res) => decode_tree_spec(*root) == Ok::<SearchResultView, SearchError>(res@),
            Err(e) => decode_tree_spec(*root) == Err::<SearchResultView, SearchError>(e),
        },
{
    match root {
        JsonValue::Obj(top) => match lookup(top, "response") {
            Some(JsonValue::Obj(response)) => match lookup(response, "docs") {
                Some(JsonValue::Arr(docs)) => {
                    let mut data: Vec<Artifact> = Vec::new();
                    let mut i: usize = 0;
                    while i < docs.len()
                        invariant
                            i <= docs@.len(),
                            data@.len() == i,
                            forall|j: int|
                                0 <= j < i ==> #[trigger] doc_spec(docs@[j]) is Some && data@[j]@
                                    == doc_spec(docs@[j])->0,
                        decreases docs@.len() - i,
                    {
                        match decode_doc(&docs[i]) {
                            Some(a) => {
                                data.push(a);
                            },
                            None => {
                                proof {
                                    assert(!(forall|j: int|
                                        0 <= j < docs@.len() ==> #[trigger] doc_spec(
                                            docs@[j],
                                        ) is Some)) by {
                                        assert(doc_spec(docs@[i as int]) is None);
                                    }
                                }
                                return Err(SearchError::MalformedArtifact);
                            },
                        }
                        i += 1;
                    }
                    let num_found = match lookup(response, "numFound") {
                        Some(JsonValue::Int(n)) => *n,
                        _ => 0,
                    };
                    let res = SearchResult { num_found, data };
                    proof {
                        assert(res@.data =~= docs@.map_values(|d: JsonValue| doc_spec(d)->0));
                    }
                    Ok(res)
                },
                _ => Err(SearchError::MalformedResponse),
            },
            _ => Err(SearchError::MalformedResponse),
        },
        _ => Err(SearchError::MalformedResponse),
    }
}

/// Every artifact of a successful decode is well formed: its group and
/// artifact ids are non-empty and its version count is non-negative.
pub proof fn lemma_decoded_artifacts_well_formed(bytes: Seq<u8>)
    requires
        decode_bytes_spec(bytes) is Ok,
    ensures
        forall|i: int|
            0 <= i < decode_bytes_spec(bytes)->Ok_0.data.len()
                ==> (#[trigger] decode_bytes_spec(bytes)->Ok_0.data[i]).group_id.len() > 0
                && decode_bytes_spec(bytes)->Ok_0.data[i].artifact_id.len() > 0
                && decode_bytes_spec(bytes)->Ok_0.data[i].version_count >= 0,
{
    let root = json_of(bytes)->0;
    let res = decode_bytes_spec(bytes)->Ok_0;
    let docs = match root {
        JsonValue::Obj(top) => match lookup_spec(top@, "response"@) {
            Some(JsonValue::Obj(response)) => match lookup_spec(response@, "docs"@) {
                Some(JsonValue::Arr(docs)) => docs@,
                _ => Seq::<JsonValue>::empty(),
            },
            _ => Seq::<JsonValue>::empty(),
        },
        _ => Seq::<JsonValue>::empty(),
    };
    assert(res.data == docs.map_values(|d: JsonValue| doc_spec(d)->0));
    assert forall|i: int| 0 <= i < res.data.len() implies (#[trigger] res.data[i]).group_id.len()
        > 0 && res.data[i].artifact_id.len() > 0 && res.data[i].version_count >= 0 by {
        assert(doc_spec(docs[i]) is Some);
        assert(res.data[i] == doc_spec(docs[i])->0);
    }
}

/// Decodes a raw JSON byte payload into a result. An empty document list
/// with a zero count is a valid decode meaning "no matches", not an error.
pub fn decode(bytes: &[u8]) -> (r: Result<SearchResult, SearchError>)
    ensures
        match r {
            Ok(res) => decode_bytes_spec(bytes@) == Ok::<SearchResultView, SearchError>(res@),
            Err(e) => decode_bytes_spec(bytes@) == Err::<SearchResultView, SearchError>(e),
        },
{
    match parse_json(bytes) {
        Some(root) => decode_tree(&root),
        None => Err(SearchError::MalformedResponse),
    }
}

} // verus!
