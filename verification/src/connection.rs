use vstd::prelude::*;

use crate::addr::{InAddr, OutAddr};
use crate::message::{InternalMessage, InternalMessageKind};
use hbbft::crypto::PublicKey;

verus! {

/// The first wire message of a peer that connects to the node, as far as the
/// node reads it.
#[verifier::reject_recursive_types(N)]
pub enum FirstWireMessage<N> {
    /// The peer introduces itself (its id, listening address and public key)
    /// and asks to be added to the network.
    HelloRequestChangeAdd(N, InAddr, PublicKey),
    /// Any other message.
    Other,
}

/// What becomes of an incoming connection after its first message.
#[verifier::reject_recursive_types(N)]
pub enum IncomingOutcome<C, N: Ord, K> {
    /// The peer is taken on, and the node is told of it by this message.
    Accept(InternalMessage<C, N, K>),
    /// The peer began with another message than its introduction; the
    /// connection is dropped as an error.
    UnexpectedFirstMessage,
    /// The peer closed the connection before it sent anything.
    Closed,
}

/// The message that tells the node of a peer `peer_nid` that connected from
/// `peer_out`, listens on `peer_in` and has the key `peer_pk`.
pub open spec fn spec_incoming<C, N: Ord, K>(
    peer_nid: N,
    peer_out: OutAddr,
    peer_in: InAddr,
    peer_pk: PublicKey,
) -> InternalMessage<C, N, K> {
    InternalMessage {
        src_uid: Some(peer_nid),
        src_addr: peer_out,
        kind: InternalMessageKind::NewIncomingConnection(peer_in, peer_pk, true),
    }
}

/// Decides what becomes of a connection from `peer_out`, given the first
/// message the peer sent, or `None` where it closed the connection first.
pub fn handle_incoming_first_message<C, N: Ord, K>(
    first: Option<FirstWireMessage<N>>,
    peer_out: OutAddr,
) -> (outcome: IncomingOutcome<C, N, K>)
    ensures
        match first {
            None => outcome is Closed,
            Some(FirstWireMessage::Other) => outcome is UnexpectedFirstMessage,
            Some(FirstWireMessage::HelloRequestChangeAdd(nid, in_addr, pk)) => outcome == IncomingOutcome::<C, N, K>::Accept(spec_incoming(nid, peer_out, in_addr, pk)),
        },
        first matches Some(FirstWireMessage::HelloRequestChangeAdd(nid, in_addr, pk))
            ==> outcome matches IncomingOutcome::Accept(m) && m.src_uid == Some(nid)
            && m.src_addr == peer_out && m.kind == InternalMessageKind::<C, N, K>::NewIncomingConnection(in_addr, pk, true),
{
    match first {
        None => IncomingOutcome::Closed,
        Some(FirstWireMessage::Other) => IncomingOutcome::UnexpectedFirstMessage,
        Some(FirstWireMessage::HelloRequestChangeAdd(nid, in_addr, pk)) => IncomingOutcome::Accept(
            InternalMessage {
                src_uid: Some(nid),
                src_addr: peer_out,
                kind: InternalMessageKind::NewIncomingConnection(in_addr, pk, true),
            },
        ),
    }
}

/// The message that tells the node of a connection it made to `peer_out`;
/// it names no node id.
pub fn outgoing_connection_message<C, N: Ord, K>(peer_out: OutAddr) -> (msg: InternalMessage<
    C,
    N,
    K,
>)
    ensures
        msg.src_uid is None,
        msg.src_addr == peer_out,
        msg.kind is NewOutgoingConnection,
{
    InternalMessage {
        src_uid: None,
        src_addr: peer_out,
        kind: InternalMessageKind::NewOutgoingConnection,
    }
}

} // verus!

verus! {

/// Every peer that introduces itself is taken on as asking to be added to the
/// network, whatever its address: the node is told of it under its own id,
/// from the address it connected from, with the listening address and key it
/// sent.
pub proof fn lemma_hello_asks_to_be_added<C, N: Ord, K>(
    peer_nid: N,
    peer_out: OutAddr,
    peer_in: InAddr,
    peer_pk: PublicKey,
)
    ensures
        spec_incoming::<C, N, K>(peer_nid, peer_out, peer_in, peer_pk).kind
            == InternalMessageKind::<C, N, K>::NewIncomingConnection(peer_in, peer_pk, true),
        spec_incoming::<C, N, K>(peer_nid, peer_out, peer_in, peer_pk).src_uid == Some(peer_nid),
        spec_incoming::<C, N, K>(peer_nid, peer_out, peer_in, peer_pk).src_addr == peer_out,
{
}

} // verus!
