//! Wikipedia topic lookup: search, disambiguation, special-page resolution
//! and summary retrieval, written as a pipeline of pure decision steps.
//!
//! Every network request is decided here and performed by the caller: a stage
//! function takes the plain values read from a response (status code, parsed
//! JSON shape, a header) and returns either the final value, the next request
//! to make, or a typed error.

use vstd::prelude::*;

pub mod encode;
pub mod error;
pub mod json;
pub mod lang;
pub mod output;
pub mod search;
pub mod select;
pub mod special;
pub mod summary;
pub mod text;
pub mod topic;

verus! {

/// One concrete article: its canonical title and its canonical link.
pub struct ResolvedTopic {
    pub title: String,
    pub link: String,
}

} // verus!
