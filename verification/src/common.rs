//! Invocation-wide choices and input validation: the output mode, the
//! relationship mode, and the checks the command line runs on raw argument
//! text before the pipeline starts.

use vstd::prelude::*;
use vstd::string::StringExecFns;
use crate::error::Error;
use crate::text::is_u64_numeral;
use crate::text::parse_u64;
use crate::text::str_eq;

verus! {

/// How the final materialized list is consumed: identifiers one per line,
/// raw file bytes streamed to standard output, or a human-readable block
/// per post.
#[derive(Debug, Clone, Copy, PartialEq, Eq, Structural)]
pub enum OutputMode {
    Id,
    Raw,
    Verbose,
}

/// Whether each result is kept as is, replaced by its parent, or replaced
/// by its children. Selected once per invocation.
#[derive(Debug, Clone, Copy, PartialEq, Eq, Structural)]
pub enum PostMapMode {
    Parents,
    Children,
    Identity,
}

/// The three accepted output mode names.
pub open spec fn is_output_mode_name(s: Seq<char>) -> bool {
    s == "id"@ || s == "raw"@ || s == "verbose"@
}

/// Which mode a valid output mode name selects.
pub open spec fn spec_output_mode(s: Seq<char>) -> OutputMode {
    if s == "id"@ {
        OutputMode::Id
    } else if s == "raw"@ {
        OutputMode::Raw
    } else {
        OutputMode::Verbose
    }
}

impl OutputMode {
    /// Reads an output mode from its name; `None` on anything but the three
    /// accepted names.
    pub fn from_name(s: &str) -> (r: Option<OutputMode>)
        ensures
            r is Some <==> is_output_mode_name(s@),
            r is Some ==> r->Some_0 == spec_output_mode(s@),
    {
        if str_eq(s, "id") {
            Some(OutputMode::Id)
        } else if str_eq(s, "raw") {
            Some(OutputMode::Raw)
        } else if str_eq(s, "verbose") {
            Some(OutputMode::Verbose)
        } else {
            None
        }
    }
}

impl PostMapMode {
    /// Reads the relationship mode from the two mutually exclusive flags;
    /// the parent flag wins when both are set, as the flag parser forbids
    /// that combination anyway.
    pub fn from_flags(parents: bool, children: bool) -> (r: PostMapMode)
        ensures
            r == (if parents {
                PostMapMode::Parents
            } else if children {
                PostMapMode::Children
            } else {
                PostMapMode::Identity
            }),
    {
        if parents {
            PostMapMode::Parents
        } else if children {
            PostMapMode::Children
        } else {
            PostMapMode::Identity
        }
    }
}

/// Accepts a string that names an output mode, and rejects every other
/// string with a fixed message.
pub fn output_mode_check(v: String) -> (r: Result<(), String>)
    ensures
        r is Ok <==> is_output_mode_name(v@),
        r is Err ==> r->Err_0@ == "Invalid output mode."@,
{
    if str_eq(v.as_str(), "id") || str_eq(v.as_str(), "raw") || str_eq(v.as_str(), "verbose") {
        Ok(())
    } else {
        Err("Invalid output mode.".to_owned())
    }
}

/// Accepts a string that parses as an unsigned 64-bit decimal numeral, and
/// rejects every other string with the given message.
pub fn valid_parse(v: &str, emsg: &str) -> (r: Result<(), String>)
    ensures
        r is Ok <==> is_u64_numeral(v@),
        r is Err ==> r->Err_0@ == emsg@,
{
    match parse_u64(v) {
        Some(_) => Ok(()),
        None => Err(emsg.to_owned()),
    }
}

/// Whether an HTTP status code counts as success.
pub open spec fn is_success_status(code: u16) -> bool {
    200 <= code < 300
}

/// Turns a response status into the download decision: proceed on a success
/// status, fail with the numeric code on any other.
pub fn check_status(code: u16) -> (r: Result<(), Error>)
    ensures
        r is Ok <==> is_success_status(code),
        r is Err ==> r->Err_0 == Error::Http(code),
{
    if 200 <= code && code < 300 {
        Ok(())
    } else {
        Err(Error::Http(code))
    }
}

} // verus!
