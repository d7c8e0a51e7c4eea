use vstd::prelude::*;

use crate::addr::{InAddr, OutAddr};
use hbbft::crypto::PublicKey;
use hbbft::dynamic_honey_badger::{Change, Message};

verus! {

/// A HoneyBadger input or message.
#[derive(Clone, Debug)]
#[verifier::reject_recursive_types(N)]
pub enum InputOrMessage<T, N: Ord> {
    Change(Change<N>),
    Contribution(T),
    Message(N, Message<N>),
}

/// What a message on a node's internal channel asks of the node. `K` is the
/// sending end of the stream on which a key generation instance reports.
#[verifier::reject_recursive_types(N)]
pub enum InternalMessageKind<C, N: Ord, K> {
    /// A contribution to propose to Honey Badger.
    HbContribution(C),
    /// A vote for a change to propose to Honey Badger.
    HbChange(Change<N>),
    /// A request to start a key generation instance that reports on the
    /// given sender.
    NewKeyGenInstance(K),
    /// A peer connected, listening on the given address with the given key;
    /// the flag tells whether it asks to be added to the network.
    NewIncomingConnection(InAddr, PublicKey, bool),
    /// A connection to a peer was made.
    NewOutgoingConnection,
}

/// A message on a node's internal channel, with the node id and the address
/// it comes from.
#[verifier::reject_recursive_types(N)]
pub struct InternalMessage<C, N: Ord, K> {
    pub src_uid: Option<N>,
    pub src_addr: OutAddr,
    pub kind: InternalMessageKind<C, N, K>,
}

} // verus!
