use vstd::prelude::*;

verus! {

/// A socket address, held as plain values: the IP address as an integer in
/// network order, the port, and for IPv6 the flow information and scope id,
/// which take part in equality as they do for a socket address.
#[derive(Debug, Clone, Copy, PartialEq, Eq, Structural)]
pub enum NetAddr {
    V4 { ip: u32, port: u16 },
    V6 { ip6: u128, port: u16, flowinfo: u32, scope_id: u32 },
}

/// The address on which a node listens for incoming connections.
#[derive(Debug, Clone, Copy, PartialEq, Eq, Structural)]
pub struct InAddr(pub NetAddr);

/// The address of the remote end of a connection.
#[derive(Debug, Clone, Copy, PartialEq, Eq, Structural)]
pub struct OutAddr(pub NetAddr);

/// The remotes that a node starting up connects to: every remote but its own
/// listening address, in the order given.
pub open spec fn spec_outgoing_targets(remotes: Seq<NetAddr>, own: NetAddr) -> Seq<NetAddr> {
    remotes.filter(other_than(own))
}

/// Holds of every address but `own`.
pub open spec fn other_than(own: NetAddr) -> spec_fn(NetAddr) -> bool {
    |a: NetAddr| a != own
}

/// Picks the remotes to connect to when a node starts: all of `remotes`
/// except the node's own listening address `own`, order kept.
pub fn outgoing_targets(remotes: &Vec<NetAddr>, own: NetAddr) -> (targets: Vec<NetAddr>)
    ensures
        targets@ == spec_outgoing_targets(remotes@, own),
{
    let mut targets: Vec<NetAddr> = Vec::new();
    let n = remotes.len();
    for i in 0..n
        invariant
            n == remotes@.len(),
            targets@ == remotes@.take(i as int).filter(other_than(own)),
    {
        let a = remotes[i];
        proof {
            reveal_with_fuel(Seq::<_>::filter, 1);
            assert(remotes@.take(i as int + 1).drop_last() =~= remotes@.take(i as int));
        }
        if a != own {
            targets.push(a);
        }
    }
    proof {
        assert(remotes@.take(n as int) =~= remotes@);
    }
    targets
}

} // verus!

verus! {

/// A starting node connects to an address exactly when it is one of the
/// remotes it was given and not its own listening address, and never to
/// more addresses than it was given.
pub proof fn lemma_outgoing_targets_exact(remotes: Seq<NetAddr>, own: NetAddr, a: NetAddr)
    ensures
        spec_outgoing_targets(remotes, own).contains(a) <==> (remotes.contains(a) && a != own),
        spec_outgoing_targets(remotes, own).len() <= remotes.len(),
{
    let p = other_than(own);
    let t = remotes.filter(p);
    remotes.lemma_filter_len(p);
    if t.contains(a) {
        remotes.lemma_filter_contains_rev(p, a);
        let k = choose|k: int| 0 <= k < t.len() && t[k] == a;
        remotes.lemma_filter_pred(p, k);
    }
    if remotes.contains(a) && a != own {
        let k = choose|k: int| 0 <= k < remotes.len() && remotes[k] == a;
        remotes.lemma_filter_contains(p, k);
    }
}

} // verus!

verus! {

/// The targets of no remotes are none; one more remote adds itself at the
/// end of the targets, unless it is the node's own address. So the targets
/// are the remotes other than the node itself, each as often and in the order
/// given.
pub proof fn lemma_outgoing_targets_step(remotes: Seq<NetAddr>, a: NetAddr, own: NetAddr)
    ensures
        spec_outgoing_targets(Seq::empty(), own) == Seq::<NetAddr>::empty(),
        a != own ==> spec_outgoing_targets(remotes.push(a), own) == spec_outgoing_targets(
            remotes,
            own,
        ).push(a),
        a == own ==> spec_outgoing_targets(remotes.push(a), own) == spec_outgoing_targets(
            remotes,
            own,
        ),
        !remotes.contains(own) ==> spec_outgoing_targets(remotes, own) == remotes,
    decreases remotes.len(),
{
    reveal_with_fuel(Seq::<_>::filter, 1);
    assert(remotes.push(a).drop_last() =~= remotes);
    assert(Seq::<NetAddr>::empty().filter(other_than(own)) =~= Seq::<NetAddr>::empty());
    if !remotes.contains(own) {
        if remotes.len() > 0 {
            let init = remotes.drop_last();
            assert(!init.contains(own)) by {
                if init.contains(own) {
                    let k = choose|k: int| 0 <= k < init.len() && init[k] == own;
                    assert(remotes[k] == own);
                }
            }
            lemma_outgoing_targets_step(init, remotes.last(), own);
            assert(remotes.last() != own) by {
                assert(remotes[remotes.len() - 1] == remotes.last());
            }
            assert(init.push(remotes.last()) =~= remotes);
        }
    }
}

} // verus!
