use hbbft::crypto::SecretKey;
use hbbft::dynamic_honey_badger::Change;
use hydrabadger::addr::{outgoing_targets, InAddr, NetAddr, OutAddr};
use hydrabadger::config::Config;
use hydrabadger::connection::{
    handle_incoming_first_message, outgoing_connection_message, FirstWireMessage, IncomingOutcome,
};
use hydrabadger::error::{NodeError, WIRE_MESSAGE_RETRY_MAX};
use hydrabadger::message::{InputOrMessage, InternalMessageKind};
use hydrabadger::node::Hydrabadger;
use hydrabadger::state_dsct::StateDsct;
use std::collections::BTreeMap;

fn local(port: u16) -> NetAddr {
    NetAddr::V4 { ip: 0x7f00_0001, port }
}

fn node(port: u16, nid: u64) -> Hydrabadger<Vec<u8>, u64> {
    Hydrabadger::new(local(port), Config::with_defaults(), nid)
}

#[test]
fn config_defaults() {
    let cfg = Config::with_defaults();
    assert_eq!(cfg.txn_gen_count, 5);
    assert_eq!(cfg.txn_gen_interval, 5000);
    assert_eq!(cfg.txn_gen_bytes, 2);
    assert_eq!(cfg.keygen_peer_count, 2);
    assert_eq!(cfg.output_extra_delay_ms, 0);
    assert_eq!(cfg.start_epoch, 0);
    assert_eq!(Config::default(), cfg);
    assert_eq!(WIRE_MESSAGE_RETRY_MAX, 10);
}

#[test]
fn new_node_starts_disconnected_at_start_epoch() {
    let mut cfg = Config::with_defaults();
    cfg.start_epoch = 7;
    cfg.txn_gen_count = 9;
    let hdb: Hydrabadger<Vec<u8>, u64> = Hydrabadger::new(local(3001), cfg, 42);
    assert_eq!(hdb.state_dsct_stale(), StateDsct::Disconnected);
    assert!(!hdb.is_validator());
    assert_eq!(hdb.current_epoch(), 7);
    assert_eq!(*hdb.node_id(), 42);
    assert_eq!(*hdb.addr(), InAddr(local(3001)));
    assert_eq!(*hdb.config(), cfg);
    assert_eq!(hdb.sub_block_tx_count(), 9);
}

#[test]
fn with_defaults_uses_default_config() {
    let hdb: Hydrabadger<Vec<u8>, u64> = Hydrabadger::with_defaults(local(3002), 1);
    assert_eq!(*hdb.config(), Config::with_defaults());
    assert_eq!(hdb.current_epoch(), 0);
}

#[test]
fn with_secret_key_keeps_the_key() {
    let sk = SecretKey::random();
    let pk = sk.public_key();
    let hdb: Hydrabadger<Vec<u8>, u64> =
        Hydrabadger::with_secret_key(local(3003), Config::with_defaults(), 3, sk);
    assert_eq!(hdb.secret_key().public_key(), pk);
}

#[test]
fn set_current_epoch_returns_previous() {
    let mut hdb = node(3004, 1);
    assert_eq!(hdb.set_current_epoch(5), 0);
    assert_eq!(hdb.current_epoch(), 5);
    assert_eq!(hdb.set_current_epoch(6), 5);
    assert_eq!(hdb.current_epoch(), 6);
}

#[test]
fn propose_refused_unless_validator() {
    let mut hdb = node(3005, 11);
    for dsct in [
        StateDsct::Disconnected,
        StateDsct::DeterminingNetworkState,
        StateDsct::KeyGen,
        StateDsct::Observer,
    ] {
        hdb.set_state_dsct(dsct);
        assert!(matches!(
            hdb.propose_user_contribution::<()>(vec![1, 2]),
            Err(NodeError::ProposeUserContributionNotValidator)
        ));
    }
    hdb.set_state_dsct(StateDsct::Validator);
    let msg = hdb.propose_user_contribution::<()>(vec![1, 2]).ok().unwrap();
    assert_eq!(msg.src_uid, Some(11));
    assert_eq!(msg.src_addr, OutAddr(local(3005)));
    match msg.kind {
        InternalMessageKind::HbContribution(txn) => assert_eq!(txn, vec![1, 2]),
        _ => panic!("expected a contribution"),
    }
}

#[test]
fn vote_refused_unless_validator() {
    let mut hdb = node(3006, 12);
    let mut keys = BTreeMap::new();
    keys.insert(12u64, SecretKey::random().public_key());
    let change = Change::NodeChange(keys);
    assert!(matches!(
        hdb.vote_for::<()>(change.clone()),
        Err(NodeError::VoteForNotValidator)
    ));
    hdb.set_state_dsct(StateDsct::Validator);
    let msg = hdb.vote_for::<()>(change.clone()).ok().unwrap();
    assert_eq!(msg.src_uid, Some(12));
    assert_eq!(msg.src_addr, OutAddr(local(3006)));
    match msg.kind {
        InternalMessageKind::HbChange(c) => assert_eq!(c, change),
        _ => panic!("expected a vote"),
    }
}

#[test]
fn key_gen_instance_message_needs_no_validator() {
    let hdb = node(3007, 13);
    let msg = hdb.new_key_gen_instance(77u32);
    assert_eq!(msg.src_uid, Some(13));
    assert_eq!(msg.src_addr, OutAddr(local(3007)));
    assert!(matches!(msg.kind, InternalMessageKind::NewKeyGenInstance(77)));
}

#[test]
fn register_epoch_listener_sends_current_epoch() {
    let mut cfg = Config::with_defaults();
    cfg.start_epoch = 3;
    let mut hdb: Hydrabadger<Vec<u8>, u64> = Hydrabadger::new(local(3008), cfg, 1);
    assert_eq!(hdb.register_epoch_listener(), 3);
    hdb.set_current_epoch(4);
    assert_eq!(hdb.register_epoch_listener(), 4);
    hdb.set_state_dsct(StateDsct::Validator);
    hdb.set_current_epoch(5);
    assert_eq!(hdb.register_epoch_listener(), 5);
}

#[test]
fn contribution_generated_by_validators_only() {
    let mut cfg = Config::with_defaults();
    cfg.txn_gen_count = 3;
    cfg.txn_gen_bytes = 8;
    let mut hdb: Hydrabadger<Vec<u8>, u64> = Hydrabadger::new(local(3009), cfg, 2);
    assert_eq!(hdb.contribution_to_generate(), None);
    hdb.set_state_dsct(StateDsct::Validator);
    assert_eq!(hdb.contribution_to_generate(), Some((3, 8)));
    let msg = hdb.contribution_message::<()>(vec![9]);
    assert_eq!(msg.src_uid, Some(2));
    assert!(matches!(msg.kind, InternalMessageKind::HbContribution(ref t) if *t == vec![9]));
}

#[test]
fn outgoing_targets_skip_own_address() {
    let own = local(3001);
    let v6 = NetAddr::V6 { ip6: 1, port: 3001, flowinfo: 0, scope_id: 0 };
    let remotes = vec![local(3002), own, v6, local(3003), own];
    assert_eq!(
        outgoing_targets(&remotes, own),
        vec![local(3002), v6, local(3003)]
    );
    assert_eq!(outgoing_targets(&vec![], own), vec![]);
}

#[test]
fn incoming_connection_outcomes() {
    let out = OutAddr(local(50000));
    let pk = SecretKey::random().public_key();
    let outcome: IncomingOutcome<Vec<u8>, u64, ()> = handle_incoming_first_message(
        Some(FirstWireMessage::HelloRequestChangeAdd(7, InAddr(local(3010)), pk)),
        out,
    );
    match outcome {
        IncomingOutcome::Accept(msg) => {
            assert_eq!(msg.src_uid, Some(7));
            assert_eq!(msg.src_addr, out);
            match msg.kind {
                InternalMessageKind::NewIncomingConnection(in_addr, key, add) => {
                    assert_eq!(in_addr, InAddr(local(3010)));
                    assert_eq!(key, pk);
                    assert!(add);
                }
                _ => panic!("expected an incoming connection"),
            }
        }
        _ => panic!("expected the peer to be accepted"),
    }
    let other: IncomingOutcome<Vec<u8>, u64, ()> =
        handle_incoming_first_message(Some(FirstWireMessage::Other), out);
    assert!(matches!(other, IncomingOutcome::UnexpectedFirstMessage));
    let closed: IncomingOutcome<Vec<u8>, u64, ()> = handle_incoming_first_message(None, out);
    assert!(matches!(closed, IncomingOutcome::Closed));
}

#[test]
fn outgoing_connection_names_no_node() {
    let out = OutAddr(local(40000));
    let msg = outgoing_connection_message::<Vec<u8>, u64, ()>(out);
    assert_eq!(msg.src_uid, None);
    assert_eq!(msg.src_addr, out);
    assert!(matches!(msg.kind, InternalMessageKind::NewOutgoingConnection));
}

#[test]
fn node_error_from_io() {
    let e: NodeError = std::io::Error::new(std::io::ErrorKind::Other, "boom").into();
    assert!(matches!(e, NodeError::Io(_)));
    let b: bincode::Error = Box::new(bincode::ErrorKind::SizeLimit);
    assert!(matches!(NodeError::from(b), NodeError::Serde(_)));
}

#[test]
fn input_or_message_holds_a_contribution() {
    let i: InputOrMessage<Vec<u8>, u64> = InputOrMessage::Contribution(vec![3]);
    match i.clone() {
        InputOrMessage::Contribution(c) => assert_eq!(c, vec![3]),
        _ => panic!("expected a contribution"),
    }
}

#[test]
fn hello_message_introduces_the_node() {
    let hdb = node(3011, 21);
    let pk = hdb.secret_key().public_key();
    match hdb.hello_message(pk) {
        FirstWireMessage::HelloRequestChangeAdd(nid, in_addr, key) => {
            assert_eq!(nid, 21);
            assert_eq!(in_addr, InAddr(local(3011)));
            assert_eq!(key, pk);
        }
        FirstWireMessage::Other => panic!("expected a hello"),
    }
}

#[test]
fn hello_is_accepted_by_the_peer() {
    let hdb = node(3012, 22);
    let pk = hdb.secret_key().public_key();
    let out = OutAddr(local(51000));
    let outcome: IncomingOutcome<Vec<u8>, u64, ()> =
        handle_incoming_first_message(Some(hdb.hello_message(pk)), out);
    match outcome {
        IncomingOutcome::Accept(msg) => {
            assert_eq!(msg.src_uid, Some(22));
            assert!(matches!(msg.kind,
                InternalMessageKind::NewIncomingConnection(a, k, true) if a == InAddr(local(3012)) && k == pk));
        }
        _ => panic!("expected the peer to be accepted"),
    }
}

#[test]
fn node_error_messages() {
    assert_eq!(NodeError::ConnectError.message(), "Connecting error");
    assert_eq!(
        NodeError::ProposeUserContributionNotValidator.message(),
        "Unable to push user transactions, this node is not a validator"
    );
    assert_eq!(
        NodeError::VoteForNotValidator.message(),
        "Unable to vote for a change, this node is not a validator"
    );
    assert_eq!(
        NodeError::HandlerInternalError.message(),
        "Handler internal error: Handler is None"
    );
    assert_eq!(
        NodeError::InstantiateHbListenerDropped.message(),
        "Unable to transmit epoch status to listener, listener receiver dropped"
    );
    let io = std::io::Error::new(std::io::ErrorKind::ConnectionRefused, "Connection refused");
    assert_eq!(NodeError::Io(io).message(), "Io error: Connection refused");
    let b: bincode::Error = Box::new(bincode::ErrorKind::SizeLimit);
    let shown = b.to_string();
    assert_eq!(NodeError::Serde(b).message(), format!("Serde error: {}", shown));
}
