//! A verified core for an image-board command-line client: turning a query
//! (tag search, pool lookup, or reverse-image similarity search) into an
//! ordered list of fully resolved post records, expanding each result into
//! its related posts on request, and driving the output and save actions
//! with per-item failure isolation.
//!
//! Network and file-system work stays outside this crate; the modules here
//! hold the decisions the pipeline makes between those calls, each with a
//! contract that pins its result down.

pub mod common;
pub mod error;
pub mod expand;
pub mod output;
pub mod pool;
pub mod post;
pub mod reverse;
pub mod save;
pub mod search;
pub mod text;
