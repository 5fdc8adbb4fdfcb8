//! The single error value that content-driven failures surface as.

use vstd::prelude::*;

verus! {

/// Why an entry point failed.
#[derive(Debug)]
pub enum Error {
    /// The bytes are not a well-formed bytecode container; carries the
    /// reader's own error.
    Parse(swf::error::AbcParseError),
    /// A script index beyond the scripts of the container.
    InvalidScriptIndex,
    /// The target of a call has no call capability.
    NotCallable,
    /// A script initializer or an invoked callable failed while it ran; the
    /// message is the host's.
    Execution(String),
}

} // verus!
