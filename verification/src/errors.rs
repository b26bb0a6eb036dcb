//! Error kinds for one search invocation. Every failure is terminal for the
//! invocation: there is no retry or recovery path at this layer.
use vstd::prelude::*;

verus! {

/// What can go wrong between building a query and rendering its results.
#[derive(Clone, Copy, Debug, PartialEq, Eq, Structural)]
pub enum SearchError {
    /// Neither a group id nor an artifact id was supplied; no request is made.
    EmptyQuery,
    /// The transport collaborator failed; opaque to this core.
    TransportFailure,
    /// The response body is not UTF-8/JSON, or the envelope lacks `response`/`docs`.
    MalformedResponse,
    /// One document in the `docs` list does not match the expected shape.
    MalformedArtifact,
    /// The requested render dialect has no template.
    UnsupportedFormat,
}

impl SearchError {
    /// A human-readable description of the error.
    pub fn message(&self) -> (r: &'static str)
        ensures
            r@ == message_spec(*self),
    {
        match self {
            SearchError::EmptyQuery => "Group ID and Artifact ID should not be left empty",
            SearchError::TransportFailure => "transport failure",
            SearchError::MalformedResponse => "malformed response",
            SearchError::MalformedArtifact => "malformed artifact record",
            SearchError::UnsupportedFormat => "unsupported output format",
        }
    }
}

/// The description returned by [`SearchError::message`].
pub open spec fn message_spec(e: SearchError) -> Seq<char> {
    match e {
        SearchError::EmptyQuery => "Group ID and Artifact ID should not be left empty"@,
        SearchError::TransportFailure => "transport failure"@,
        SearchError::MalformedResponse => "malformed response"@,
        SearchError::MalformedArtifact => "malformed artifact record"@,
        SearchError::UnsupportedFormat => "unsupported output format"@,
    }
}

} // verus!
