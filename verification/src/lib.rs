//! Per-connection state of a peer in a peer-to-peer network node.
//!
//! A [`Peer`] records who a remote node is, when it was last heard from, and
//! which gossip messages it has sent recently.

pub mod address;
pub mod clock;
pub mod guard;
pub mod node_type;
pub mod peer;
pub mod seen;
pub mod status;

pub use address::{Host, ListenerAddr};
pub use node_type::NodeType;
pub use peer::Peer;
pub use seen::SeenMessages;
pub use status::RawStatus;
