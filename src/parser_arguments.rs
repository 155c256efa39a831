//! What the user asks of a run: the nodes and the connect timeout.

use vstd::prelude::*;

verus! {

/// Connect timeout, in milliseconds, when the user gives none.
pub const DEFAULT_TIMEOUT_MS: u64 = 500;

/// The nodes to shake hands with, as `host:port`, and the connect timeout
/// in milliseconds.
#[derive(Clone, Debug)]
pub struct Arguments {
    pub uri_nodes: Vec<String>,
    pub timeout: u64,
}

} // verus!
