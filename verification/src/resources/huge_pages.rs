//! Huge-page reservations as the engine accounts for them.

use vstd::prelude::*;

verus! {

/// Why the provider could not reserve or release huge pages.
#[derive(Clone, Copy, Debug, PartialEq, Eq, Structural)]
pub enum Error {
    /// The node cannot supply the requested amount.
    InsufficientMemory,
    /// Any other failure of the provider, with the operating system's code.
    Io { code: i32 },
}

/// An exclusive claim of `memory_mib` MiB of huge pages on one NUMA node.
#[derive(Clone, Copy, Debug, PartialEq, Eq, Structural)]
pub struct Allocation {
    pub numa_node: usize,
    pub memory_mib: usize,
}

} // verus!
