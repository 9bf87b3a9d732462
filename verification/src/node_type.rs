//! The role a peer declares for itself in the network.

use vstd::prelude::*;

verus! {

/// The role of a node in the network.
#[derive(Clone, Copy, Debug, PartialEq, Eq, Hash, Structural)]
pub enum NodeType {
    /// A node that follows the chain without producing blocks or proofs.
    Client,
    /// A node that produces proofs.
    Prover,
    /// A node that validates blocks.
    Validator,
    /// A node that anchors the chain.
    Beacon,
}

impl NodeType {
    /// Returns `true` if the node type is a client.
    pub fn is_client(&self) -> (held: bool)
        ensures
            held == (*self is Client),
    {
        matches!(self, NodeType::Client)
    }

    /// Returns `true` if the node type is a prover.
    pub fn is_prover(&self) -> (held: bool)
        ensures
            held == (*self is Prover),
    {
        matches!(self, NodeType::Prover)
    }

    /// Returns `true` if the node type is a validator.
    pub fn is_validator(&self) -> (held: bool)
        ensures
            held == (*self is Validator),
    {
        matches!(self, NodeType::Validator)
    }

    /// Returns `true` if the node type is a beacon.
    pub fn is_beacon(&self) -> (held: bool)
        ensures
            held == (*self is Beacon),
    {
        matches!(self, NodeType::Beacon)
    }
}

/// How many of four statements are true.
pub open spec fn how_many(a: bool, b: bool, c: bool, d: bool) -> nat {
    let one = |held: bool| -> nat { if held { 1 } else { 0 } };
    one(a) + one(b) + one(c) + one(d)
}

/// Of the four questions a node type can be asked (beacon, validator, prover,
/// client), every node type answers exactly one with yes.
pub proof fn law_exactly_one_role(node_type: NodeType)
    ensures
        how_many(
            node_type is Beacon,
            node_type is Validator,
            node_type is Prover,
            node_type is Client,
        ) == 1,
{
}

} // verus!
