//! Error taxonomy of the ingestion pipeline: one enum per stage.

use vstd::prelude::*;

verus! {

/// Failure of a single content retrieval.
#[derive(Debug, Clone, PartialEq, Eq)]
pub enum FetchError {
    /// The address does not begin with an http-, https- or file-scheme prefix.
    UnsupportedScheme,
    /// The server answered 404.
    NotFound,
    /// The server answered a non-success status other than 404.
    FetchFailed(u16),
    /// The body could not be decoded under the selected character set.
    DecodeError,
}

/// Failure of one parse attempt over one unit of fetched content.
#[derive(Debug, Clone, PartialEq, Eq)]
pub enum ParseError {
    /// The source address matches no known column layout.
    UnidentifiedLayout,
    /// The document does not carry exactly the expected number of marker
    /// cells; the payload is the number of marker cells found.
    MalformedDocument(usize),
    /// A field failed numeric conversion; the payload is the offending text.
    ConversionError(String),
    /// The source address does not encode an entity identity and a usable
    /// page token.
    InvalidSource,
}

/// Failure to deliver a record after the bounded number of attempts.
#[derive(Debug, Clone, PartialEq, Eq)]
pub enum PublishError {
    /// All delivery attempts failed; the payload is the number of attempts
    /// made.
    RetriesExhausted(u8),
}

} // verus!
