//! The status a peer reports of itself.

use vstd::prelude::*;

verus! {

/// A status as the peer sent it: a code that this crate stores and hands back
/// without reading it.
#[derive(Clone, Copy, Debug, PartialEq, Eq, Hash, Structural)]
pub struct RawStatus {
    /// The code as received.
    pub code: u8,
}

} // verus!
