use vstd::prelude::*;

verus! {

/// The discriminant of a node's state: which phase of joining the network,
/// and then which role in it, the node is in.
#[derive(Debug, Clone, Copy, PartialEq, Eq, Structural)]
pub enum StateDsct {
    Disconnected,
    DeterminingNetworkState,
    KeyGen,
    Observer,
    Validator,
}

} // verus!
