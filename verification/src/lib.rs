pub mod bridge;
pub mod command;
pub mod console;
pub mod launcher;
pub mod numfmt;
pub mod pathfind;
pub mod pipes;
pub mod privilege;

use vstd::prelude::*;

verus! {

/// Errors surfaced by the privilege bridge.
///
/// A failed OS call during setup carries the name of the failing API so
/// the front-end can report which step went wrong.
#[derive(Debug)]
pub enum Error {
    /// An OS call failed during token derivation, pipe creation or
    /// console mode handling; `api` names the failing call.
    Setup { api: String },
    /// The bridge executable was not found beside the front-end nor on
    /// the search path.
    BridgeNotFound,
    /// The target command was not found on the search path.
    NotFoundInPath,
    /// No target command was given on the command line.
    Usage,
}

impl Error {
    /// True exactly when this is a setup error tagged with `api`.
    pub open spec fn is_setup(&self, api: Seq<char>) -> bool {
        match self {
            Error::Setup { api: a } => a@ == api,
            _ => false,
        }
    }
}

} // verus!
