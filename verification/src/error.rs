//! What can go wrong.

use vstd::prelude::*;

verus! {

/// An error of a provider or of its configuration.
#[derive(Debug, PartialEq, Eq)]
pub enum AgentError {
    /// The configuration does not allow what was asked for.
    Config { message: String },
}

impl AgentError {
    /// The words of the error.
    pub open spec fn words(self) -> Seq<char> {
        match self {
            AgentError::Config { message } => message@,
        }
    }
}

} // verus!
