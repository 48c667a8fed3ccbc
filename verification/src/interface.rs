//! Network interface selection.

use vstd::prelude::*;

verus! {

/// Represents a network interface for mDNS services
#[derive(Clone, Copy, Debug, PartialEq, Eq, Structural)]
pub enum NetworkInterface {
    /// No interface specified, bind to all available interfaces
    Unspec,
    /// An interface at a specified index
    AtIndex(u32),
}

} // verus!
