//! The error taxonomy of the pipeline.
//!
//! Errors raised while producing the candidate sequence or while expanding
//! relationships are fatal to the whole invocation; errors raised while
//! saving or streaming one already-materialized post are caught at that
//! post's granularity and reported without stopping the batch.

use vstd::prelude::*;
use vstd::string::StringExecFns;
use crate::text::dec_nat;
use crate::text::u64_to_string;

verus! {

/// Everything that can go wrong in the pipeline.
#[derive(Debug, PartialEq, Eq)]
pub enum Error {
    /// Transport-level failure sending a request.
    Network(String),
    /// The request reached the server but got a non-success status.
    Http(u16),
    /// A response body could not be parsed into the expected structure.
    Serialization(String),
    /// An ordered tag search asked for more results than one page supports:
    /// the requested count, then the hard cap.
    AboveLimit(usize, usize),
    /// A pool lookup returned no matching pool.
    PoolNotFound,
    /// The similarity-search session page held no session token.
    AuthTokenNotFound,
    /// The similarity-search response was missing required per-candidate
    /// fields.
    IqdbQueryError,
    /// A post selected for download or save has no file reference.
    MissingFileUrl,
    /// A local read or write failed.
    FileSystem(String),
}

/// The one-line description of an error.
pub open spec fn spec_message(e: Error) -> Seq<char> {
    match e {
        Error::Network(msg) => "Network error: "@ + msg@,
        Error::Http(code) => "HTTP error: "@ + dec_nat(code as nat),
        Error::Serialization(msg) => "Serialization error: "@ + msg@,
        Error::AboveLimit(requested, max) => dec_nat(requested as nat)
            + " is above the max limit for ordered queries ("@ + dec_nat(max as nat) + ")"@,
        Error::PoolNotFound => "Pool not found"@,
        Error::AuthTokenNotFound => "Couldn't get the authenticity token"@,
        Error::IqdbQueryError => "The IQDB query failed or returned unknown results"@,
        Error::MissingFileUrl => "A post is missing a file URL"@,
        Error::FileSystem(msg) => "IO error: "@ + msg@,
    }
}

impl Error {
    /// Renders the error as a single descriptive line.
    pub fn message(&self) -> (r: String)
        ensures
            r@ == spec_message(*self),
    {
        match self {
            Error::Network(msg) => {
                let mut r = "Network error: ".to_owned();
                r.append(msg.as_str());
                assert(r@ =~= spec_message(*self));
                r
            },
            Error::Http(code) => {
                let mut r = "HTTP error: ".to_owned();
                let num = u64_to_string(*code as u64);
                r.append(num.as_str());
                assert(r@ =~= spec_message(*self));
                r
            },
            Error::Serialization(msg) => {
                let mut r = "Serialization error: ".to_owned();
                r.append(msg.as_str());
                assert(r@ =~= spec_message(*self));
                r
            },
            Error::AboveLimit(requested, max) => {
                let mut r = u64_to_string(*requested as u64);
                r.append(" is above the max limit for ordered queries (");
                let max_str = u64_to_string(*max as u64);
                r.append(max_str.as_str());
                r.append(")");
                assert(r@ =~= spec_message(*self));
                r
            },
            Error::PoolNotFound => "Pool not found".to_owned(),
            Error::AuthTokenNotFound => "Couldn't get the authenticity token".to_owned(),
            Error::IqdbQueryError => {
                "The IQDB query failed or returned unknown results".to_owned()
            },
            Error::MissingFileUrl => "A post is missing a file URL".to_owned(),
            Error::FileSystem(msg) => {
                let mut r = "IO error: ".to_owned();
                r.append(msg.as_str());
                assert(r@ =~= spec_message(*self));
                r
            },
        }
    }
}

} // verus!
