//! Errors that the library reports.

use vstd::prelude::*;

verus! {

/// An error of the library's own logic.
#[derive(Debug, Clone, PartialEq, Eq)]
pub enum AppError {
    /// The configuration could not be located or read.
    Config(String),
    /// A name or value did not parse.
    Parse(String),
}

} // verus!
