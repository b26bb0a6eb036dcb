//! Client-side core of a package-index search tool: it turns search
//! coordinates into a percent-encoded request URL, decodes the service's
//! JSON envelope into typed artifact records, and renders a matched
//! artifact as a dependency declaration for a chosen build tool.
mod decode;
mod errors;
mod json;
mod percent;
mod pipeline;
mod query;
mod render;
mod text;

pub use decode::Artifact;
pub use decode::ArtifactView;
pub use decode::SearchResult;
pub use decode::SearchResultView;
pub use decode::decode;
pub use decode::decode_bytes_spec;
pub use decode::decode_tree;
pub use decode::decode_tree_spec;
pub use decode::doc_spec;
pub use decode::lemma_decoded_artifacts_well_formed;
pub use errors::SearchError;
pub use json::JsonValue;
pub use json::json_of;
pub use json::parse_json;
pub use percent::decode_chars;
pub use percent::encode_bytes;
pub use percent::lemma_decode_encode_bytes;
pub use percent::lemma_percent_round_trip;
pub use percent::percent_decode;
pub use percent::percent_encode;
pub use percent::percent_encoding_of;
pub use pipeline::process_response;
pub use pipeline::process_spec;
pub use pipeline::summary_line;
pub use pipeline::summary_line_spec;
pub use query::SearchQuery;
pub use query::lemma_resolve_url_filter_round_trip;
pub use query::query_filter;
pub use query::url_spec;
pub use render::Dialect;
pub use render::dialect_from_name;
pub use render::render;
pub use render::render_spec;
