//! The run-cell tool's data shapes.
//!
//! A driver may expose the ledger's execute operation to a model as a
//! callable tool.  The tool's wiring against a provider's tool protocol is
//! outside this library; the arguments it takes and the failure it reports
//! are plain values and live here.

use vstd::prelude::*;

verus! {

/// The arguments of one run-cell call: the intent and the code to execute.
#[derive(Debug)]
pub struct RunCellArgs {
    /// A brief description of the intent of this cell.
    pub comment: String,
    /// The code to execute in the ledger's environment.
    pub code: String,
}

impl RunCellArgs {
    /// Arguments from their two parts.
    pub fn new(comment: String, code: String) -> (r: RunCellArgs)
        ensures
            r.comment@ == comment@,
            r.code@ == code@,
    {
        RunCellArgs { comment, code }
    }
}

/// A run-cell failure, as the text shown to the caller.
#[derive(Debug)]
pub struct RunCellError {
    /// The failure text.
    pub reason: String,
}

impl RunCellError {
    /// A failure from its text.
    pub fn new(reason: String) -> (r: RunCellError)
        ensures
            r.reason@ == reason@,
    {
        RunCellError { reason }
    }

    /// A human-readable description of the failure.
    pub fn message(&self) -> (r: String)
        ensures
            r@ == self.reason@,
    {
        self.reason.clone()
    }
}

} // verus!
