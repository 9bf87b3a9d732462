//! The record kept for each connected peer.
//!
//! A record is a handle. Its clones are handles to the same peer: the time last
//! seen, the block height and the seen messages are shared among them, each
//! behind a lock of its own, and are read and written through `&self`. Any
//! handle may write between two calls made through another, so the contracts of
//! those calls say nothing of what is found there; what one write or one read
//! does to the seen messages is stated on [`SeenMessages`]. The remaining fields
//! belong to each handle alone and change only through `&mut self`.

use crate::address::ListenerAddr;
use crate::clock::nanos_since;
use crate::guard::{guarded, guarded_mut, new_lock, read_lock, share, write_lock};
use crate::node_type::NodeType;
use crate::seen::SeenMessages;
use crate::status::RawStatus;
use parking_lot::RwLock;
use snarkos_node_tcp::ConnectionSide;
use std::sync::Arc;
use std::time::Instant;
use vstd::prelude::*;

verus! {

/// `ConnectionSide` of snarkos_node_tcp: who began the connection. A record
/// keeps the value and hands it back; nothing is known of its inside.
#[verifier::external_type_specification]
#[verifier::external_body]
pub struct ExConnectionSide(snarkos_node_tcp::ConnectionSide);

/// The length, in seconds, of the window over which
/// [`Peer::message_frequency`] counts messages.
pub const FREQUENCY_WINDOW_SECS: u64 = 5;

/// The state for each connected peer.
#[derive(Debug)]
pub struct Peer {
    /// The connection side of the peer.
    side: ConnectionSide,
    /// The address of the peer, with the port set to the listener port.
    listening_addr: ListenerAddr,
    /// The timestamp of the last message received from this peer.
    last_seen: Arc<RwLock<Instant>>,
    /// The message version of the peer.
    version: u32,
    /// The node type of the peer.
    node_type: NodeType,
    /// The status of the peer.
    status: RawStatus,
    /// The block height of the peer.
    block_height: Arc<RwLock<u32>>,
    /// The (message ID, random nonce) pairs seen from the peer, each stamped
    /// with the nanoseconds that lay between `created` and its arrival.
    seen_messages: Arc<RwLock<SeenMessages>>,
    /// The moment the record was made.
    created: Instant,
}

/// What a handle is made of: the fields it holds by itself, and the locks
/// through which it reaches the state it shares. Of a lock the view tells which
/// lock it is, never what it holds.
pub struct PeerView {
    /// The connection side of the peer.
    pub side: ConnectionSide,
    /// The address of the peer, with the port set to the listener port.
    pub listening_addr: ListenerAddr,
    /// The message version of the peer.
    pub version: u32,
    /// The node type of the peer.
    pub node_type: NodeType,
    /// The status of the peer.
    pub status: RawStatus,
    /// The lock around the timestamp of the last message received.
    pub last_seen: Arc<RwLock<Instant>>,
    /// The lock around the block height.
    pub block_height: Arc<RwLock<u32>>,
    /// The lock around the seen messages.
    pub seen_messages: Arc<RwLock<SeenMessages>>,
    /// The moment the record was made, from which the seen messages are
    /// stamped.
    pub created: Instant,
}

impl View for Peer {
    type V = PeerView;

    closed spec fn view(&self) -> PeerView {
        PeerView {
            side: self.side,
            listening_addr: self.listening_addr,
            version: self.version,
            node_type: self.node_type,
            status: self.status,
            last_seen: self.last_seen,
            block_height: self.block_height,
            seen_messages: self.seen_messages,
            created: self.created,
        }
    }
}

impl Clone for Peer {
    /// Another handle to the same peer. It starts out with the same fields and
    /// shares the time last seen, the block height and the seen messages.
    fn clone(&self) -> (copy: Peer)
        ensures
            copy@ == self@,
            copy.shares_state_with(self),
    {
        Peer {
            side: self.side,
            listening_addr: self.listening_addr,
            last_seen: share(&self.last_seen),
            version: self.version,
            node_type: self.node_type,
            status: self.status,
            block_height: share(&self.block_height),
            seen_messages: share(&self.seen_messages),
            created: self.created,
        }
    }
}

impl Peer {
    /// Whether two handles lead to the same shared state: the same time last
    /// seen, block height and seen messages, stamped on the same clock.
    pub open spec fn shares_state_with(&self, other: &Peer) -> bool {
        &&& self@.last_seen == other@.last_seen
        &&& self@.block_height == other@.block_height
        &&& self@.seen_messages == other@.seen_messages
        &&& self@.created == other@.created
    }

    /// Every handle shares state with itself.
    pub proof fn lemma_shares_state_reflexive(&self)
        ensures
            self.shares_state_with(self),
    {
    }

    /// Where one handle shares state with another, the other shares state with
    /// the one.
    pub proof fn lemma_shares_state_symmetric(&self, other: &Peer)
        requires
            self.shares_state_with(other),
        ensures
            other.shares_state_with(self),
    {
    }

    /// Handles that share state with one and the same handle share state with
    /// each other.
    pub proof fn lemma_shares_state_transitive(&self, middle: &Peer, other: &Peer)
        requires
            self.shares_state_with(middle),
            middle.shares_state_with(other),
        ensures
            self.shares_state_with(other),
    {
    }

    /// Initializes a new instance of `Peer`: last seen now, at block height 0,
    /// with no message seen yet.
    pub fn new(
        side: ConnectionSide,
        listening_addr: ListenerAddr,
        version: u32,
        node_type: NodeType,
        status: RawStatus,
    ) -> (peer: Peer)
        ensures
            peer@.side == side,
            peer@.listening_addr == listening_addr,
            peer@.version == version,
            peer@.node_type == node_type,
            peer@.status == status,
    {
        let created = Instant::now();
        Peer {
            side,
            listening_addr,
            last_seen: Arc::new(new_lock(created)),
            version,
            node_type,
            status,
            block_height: Arc::new(new_lock(0)),
            seen_messages: Arc::new(new_lock(SeenMessages::new())),
            created,
        }
    }

    /// Returns the connection side of the peer.
    pub fn side(&self) -> (side: ConnectionSide)
        ensures
            side == self@.side,
    {
        self.side
    }

    /// Returns the address of the peer, with the port set to the listener port.
    pub fn ip(&self) -> (addr: &ListenerAddr)
        ensures
            *addr == self@.listening_addr,
    {
        &self.listening_addr
    }

    /// Returns the last seen timestamp of the peer.
    pub fn last_seen(&self) -> Instant {
        let guard = read_lock(&self.last_seen);
        *guarded(&guard)
    }

    /// Returns the message version of the peer.
    pub fn version(&self) -> (version: u32)
        ensures
            version == self@.version,
    {
        self.version
    }

    /// Returns the node type.
    pub fn node_type(&self) -> (node_type: NodeType)
        ensures
            node_type == self@.node_type,
    {
        self.node_type
    }

    /// Returns the status of the peer.
    pub fn status(&self) -> (status: RawStatus)
        ensures
            status == self@.status,
    {
        self.status
    }

    /// Returns the block height of the peer.
    pub fn block_height(&self) -> u32 {
        let guard = read_lock(&self.block_height);
        *guarded(&guard)
    }

    /// Returns `true` if the peer is a beacon.
    pub fn is_beacon(&self) -> (held: bool)
        ensures
            held == (self@.node_type is Beacon),
    {
        self.node_type.is_beacon()
    }

    /// Returns `true` if the peer is a validator.
    pub fn is_validator(&self) -> (held: bool)
        ensures
            held == (self@.node_type is Validator),
    {
        self.node_type.is_validator()
    }

    /// Returns `true` if the peer is a prover.
    pub fn is_prover(&self) -> (held: bool)
        ensures
            held == (self@.node_type is Prover),
    {
        self.node_type.is_prover()
    }

    /// Returns `true` if the peer is a client.
    pub fn is_client(&self) -> (held: bool)
        ensures
            held == (self@.node_type is Client),
    {
        self.node_type.is_client()
    }

    /// Returns the nanoseconds that have passed since the record was made: the
    /// clock on which the seen messages are stamped.
    pub fn clock(&self) -> u128 {
        nanos_since(self.created)
    }

    /// Returns the frequency of recent messages: how many of the seen messages
    /// arrived in the last [`FREQUENCY_WINDOW_SECS`] seconds.
    pub fn message_frequency(&self) -> usize {
        let guard = read_lock(&self.seen_messages);
        let now = nanos_since(self.created);
        guarded(&guard).frequency(now, FREQUENCY_WINDOW_SECS)
    }

    /// Returns what [`Peer::message_frequency`] returns when the clock reads
    /// `now`: [`SeenMessages::frequency`] of the seen messages as they are at the
    /// moment of the call.
    pub fn message_frequency_at(&self, now: u128) -> usize {
        let guard = read_lock(&self.seen_messages);
        guarded(&guard).frequency(now, FREQUENCY_WINDOW_SECS)
    }
}

impl Peer {
    /// Updates the last seen timestamp of the peer. An earlier time than the
    /// one held is stored like any other.
    pub fn set_last_seen(&self, last_seen: Instant) {
        let mut guard = write_lock(&self.last_seen);
        let slot = guarded_mut(&mut guard);
        *slot = last_seen;
    }

    /// Updates the version.
    pub fn set_version(&mut self, version: u32)
        ensures
            final(self)@ == (PeerView { version, ..old(self)@ }),
            final(self).shares_state_with(old(self)),
    {
        self.version = version
    }

    /// Updates the node type.
    pub fn set_node_type(&mut self, node_type: NodeType)
        ensures
            final(self)@ == (PeerView { node_type, ..old(self)@ }),
            final(self).shares_state_with(old(self)),
    {
        self.node_type = node_type
    }

    /// Updates the status.
    pub fn set_status(&mut self, status: RawStatus)
        ensures
            final(self)@ == (PeerView { status, ..old(self)@ }),
            final(self).shares_state_with(old(self)),
    {
        self.status = status
    }

    /// Updates the block height of the peer.
    pub fn set_block_height(&self, block_height: u32) {
        let mut guard = write_lock(&self.block_height);
        let slot = guarded_mut(&mut guard);
        *slot = block_height;
    }

    /// Inserts the given message ID and random nonce pair into the seen messages map.
    pub fn insert_seen_message(&self, message_id: u16, random_nonce: u32) {
        let mut guard = write_lock(&self.seen_messages);
        let now = nanos_since(self.created);
        let seen = guarded_mut(&mut guard);
        seen.insert(message_id, random_nonce, now);
    }

    /// Does what [`Peer::insert_seen_message`] does when the clock reads `now`:
    /// [`SeenMessages::insert`] on the seen messages as they are at the moment of
    /// the call.
    pub fn insert_seen_message_at(&self, message_id: u16, random_nonce: u32, now: u128) {
        let mut guard = write_lock(&self.seen_messages);
        let seen = guarded_mut(&mut guard);
        seen.insert(message_id, random_nonce, now);
    }

    /// Forgets the seen messages that [`Peer::message_frequency`] no longer
    /// counts. The record never does this by itself: the seen messages grow
    /// until the owner of the record calls this.
    pub fn forget_stale_messages(&self) {
        let mut guard = write_lock(&self.seen_messages);
        let now = nanos_since(self.created);
        let seen = guarded_mut(&mut guard);
        seen.forget_stale(now, FREQUENCY_WINDOW_SECS);
    }

    /// Does what [`Peer::forget_stale_messages`] does when the clock reads `now`:
    /// [`SeenMessages::forget_stale`] on the seen messages as they are at the
    /// moment of the call.
    pub fn forget_stale_messages_at(&self, now: u128) {
        let mut guard = write_lock(&self.seen_messages);
        let seen = guarded_mut(&mut guard);
        seen.forget_stale(now, FREQUENCY_WINDOW_SECS);
    }
}

} // verus!
