//! The address at which a peer can be dialled.

use vstd::prelude::*;

verus! {

/// An IP address, held as the number its bytes spell in network order.
#[derive(Clone, Copy, Debug, PartialEq, Eq, Hash, Structural)]
pub enum Host {
    /// An IPv4 address.
    V4(u32),
    /// An IPv6 address.
    V6(u128),
}

/// The address of a peer, with the port set to the port the peer listens on
/// rather than the port its connection happens to come from.
#[derive(Clone, Copy, Debug, PartialEq, Eq, Hash, Structural)]
pub struct ListenerAddr {
    /// The host the peer runs on.
    pub host: Host,
    /// The port the peer listens on.
    pub port: u16,
}

} // verus!
