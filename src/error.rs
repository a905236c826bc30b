//! Errors that the library reports.
use vstd::prelude::*;

verus! {

/// What went wrong while building a request or rendering a response.
#[derive(Debug, Clone)]
pub enum HttpieError {
    /// A URL or a `key=value` token was malformed; holds the offending input.
    Validation { input: String },
    /// A body declared as JSON could not be pretty-printed; holds the formatter's reason.
    Format { reason: String },
}

} // verus!
