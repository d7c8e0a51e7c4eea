use vstd::prelude::*;

use crate::addr::{InAddr, NetAddr, OutAddr};
use crate::config::{default_config, Config};
use crate::connection::FirstWireMessage;
use crate::error::NodeError;
use crate::message::{InternalMessage, InternalMessageKind};
use crate::outside::random_secret_key;
use crate::state_dsct::StateDsct;
use core::marker::PhantomData;
use hbbft::crypto::{PublicKey, SecretKey};
use hbbft::dynamic_honey_badger::Change;

verus! {

/// What the decisions of a node read: its id, its listening address, the
/// discriminant of its state, the epoch of the next batch to be output, and
/// its configuration.
pub struct NodeView<N> {
    pub nid: N,
    pub addr: InAddr,
    pub dsct: StateDsct,
    pub current_epoch: u64,
    pub config: Config,
}

impl<N> NodeView<N> {
    /// The node validates: it takes part in consensus.
    pub open spec fn is_validator(self) -> bool {
        self.dsct == StateDsct::Validator
    }

    /// The node after its current epoch is set to `epoch`.
    pub open spec fn with_epoch(self, epoch: u64) -> NodeView<N> {
        NodeView { current_epoch: epoch, ..self }
    }

    /// The node after its state discriminant becomes `dsct`.
    pub open spec fn with_dsct(self, dsct: StateDsct) -> NodeView<N> {
        NodeView { dsct: dsct, ..self }
    }

    /// The epoch that a newly registered epoch listener is sent at once: the
    /// current epoch, which is the start epoch until a batch is output.
    pub open spec fn epoch_on_registration(self) -> u64 {
        self.current_epoch
    }

    /// What the node generates at each epoch: the number of transactions and
    /// the bytes per transaction, where it validates.
    pub open spec fn contribution_shape(self) -> Option<(usize, usize)> {
        if self.is_validator() {
            Some((self.config.txn_gen_count, self.config.txn_gen_bytes))
        } else {
            None
        }
    }
}

/// A node as it starts: disconnected, at the start epoch of its configuration.
pub open spec fn initial_view<N>(addr: NetAddr, cfg: Config, nid: N) -> NodeView<N> {
    NodeView {
        nid: nid,
        addr: InAddr(addr),
        dsct: StateDsct::Disconnected,
        current_epoch: cfg.start_epoch,
        config: cfg,
    }
}

/// Holds when `msg` comes from the node of `v` (under a copy of its id, from
/// its listening address) and asks for `kind`.
pub open spec fn from_node<C, N: Clone + Ord, K>(
    v: NodeView<N>,
    msg: InternalMessage<C, N, K>,
    kind: InternalMessageKind<C, N, K>,
) -> bool {
    &&& msg.src_uid is Some
    &&& cloned(v.nid, msg.src_uid->0)
    &&& msg.src_addr == OutAddr(v.addr.0)
    &&& msg.kind == kind
}

/// A Honey Badger network node: the state that its decisions read and
/// write. The connections, channels and consensus instance it drives are
/// held by whoever runs it.
pub struct Hydrabadger<C, N> {
    nid: N,
    addr: InAddr,
    secret_key: SecretKey,
    state_dsct: StateDsct,
    current_epoch: u64,
    config: Config,
    contribution: PhantomData<C>,
}

impl<C, N> View for Hydrabadger<C, N> {
    type V = NodeView<N>;

    closed spec fn view(&self) -> NodeView<N> {
        NodeView {
            nid: self.nid,
            addr: self.addr,
            dsct: self.state_dsct,
            current_epoch: self.current_epoch,
            config: self.config,
        }
    }
}

impl<C, N: Clone + Ord> Hydrabadger<C, N> {
    /// The node's secret key.
    pub closed spec fn key(&self) -> SecretKey {
        self.secret_key
    }

    /// Returns a new node listening on `addr`, with the secret key
    /// `secret_key`.
    pub fn with_secret_key(addr: NetAddr, cfg: Config, nid: N, secret_key: SecretKey) -> (hdb:
        Self)
        ensures
            hdb@ == initial_view(addr, cfg, nid),
            hdb@.dsct == StateDsct::Disconnected,
            hdb@.current_epoch == cfg.start_epoch,
            hdb@.nid == nid,
            hdb@.addr == InAddr(addr),
            hdb@.config == cfg,
            hdb.key() == secret_key,
    {
        Hydrabadger {
            nid,
            addr: InAddr(addr),
            secret_key,
            state_dsct: StateDsct::Disconnected,
            current_epoch: cfg.start_epoch,
            config: cfg,
            contribution: PhantomData,
        }
    }

    /// Returns a new node listening on `addr`, with a random secret key.
    pub fn new(addr: NetAddr, cfg: Config, nid: N) -> (hdb: Self)
        ensures
            hdb@ == initial_view(addr, cfg, nid),
            hdb@.dsct == StateDsct::Disconnected,
            hdb@.current_epoch == cfg.start_epoch,
            hdb@.nid == nid,
            hdb@.addr == InAddr(addr),
            hdb@.config == cfg,
    {
        let secret_key = random_secret_key();
        Self::with_secret_key(addr, cfg, nid, secret_key)
    }

    /// Returns a new node listening on `addr`, with the default
    /// configuration and a random secret key.
    pub fn with_defaults(addr: NetAddr, nid: N) -> (hdb: Self)
        ensures
            hdb@ == initial_view(addr, default_config(), nid),
            hdb@.dsct == StateDsct::Disconnected,
            hdb@.current_epoch == 0,
            hdb@.nid == nid,
            hdb@.addr == InAddr(addr),
    {
        Self::new(addr, Config::with_defaults(), nid)
    }

    /// Returns a recent state discriminant.
    pub fn state_dsct_stale(&self) -> (dsct: StateDsct)
        ensures
            dsct == self@.dsct,
    {
        self.state_dsct
    }

    /// Records the discriminant of the state that the node has moved to.
    pub fn set_state_dsct(&mut self, dsct: StateDsct)
        ensures
            final(self)@ == old(self)@.with_dsct(dsct),
            final(self)@.dsct == dsct,
            final(self)@.current_epoch == old(self)@.current_epoch,
            final(self)@.nid == old(self)@.nid,
            final(self)@.addr == old(self)@.addr,
            final(self)@.config == old(self)@.config,
            final(self).key() == old(self).key(),
    {
        self.state_dsct = dsct;
    }

    /// Whether the node is a validator.
    pub fn is_validator(&self) -> (b: bool)
        ensures
            b == self@.is_validator(),
    {
        self.state_dsct == StateDsct::Validator
    }

    /// Sets the current epoch and returns the previous one.
    pub fn set_current_epoch(&mut self, epoch: u64) -> (prev: u64)
        ensures
            prev == old(self)@.current_epoch,
            final(self)@ == old(self)@.with_epoch(epoch),
            final(self).key() == old(self).key(),
    {
        let prev = self.current_epoch;
        self.current_epoch = epoch;
        prev
    }

    /// Returns the epoch of the next batch to be output.
    pub fn current_epoch(&self) -> (epoch: u64)
        ensures
            epoch == self@.current_epoch,
    {
        self.current_epoch
    }

    /// Registers an epoch listener: returns the epoch that the new listener
    /// is sent at once, the current epoch (the start epoch where no batch has
    /// been output yet).
    pub fn register_epoch_listener(&self) -> (first: u64)
        ensures
            first == self@.epoch_on_registration(),
            first == self@.current_epoch,
    {
        self.current_epoch()
    }

    /// Returns the configuration.
    pub fn config(&self) -> (cfg: &Config)
        ensures
            *cfg == self@.config,
    {
        &self.config
    }

    /// The message that hands the contribution `txn` of this node to its
    /// Honey Badger instance.
    pub fn contribution_message<K>(&self, txn: C) -> (msg: InternalMessage<C, N, K>)
        ensures
            from_node(self@, msg, InternalMessageKind::HbContribution(txn)),
    {
        InternalMessage {
            src_uid: Some(self.nid.clone()),
            src_addr: OutAddr(self.addr.0),
            kind: InternalMessageKind::HbContribution(txn),
        }
    }

    /// Handles a batch of user transactions: where the node is a validator,
    /// returns the message that proposes them; otherwise refuses them.
    pub fn propose_user_contribution<K>(&self, txn: C) -> (res: Result<
        InternalMessage<C, N, K>,
        NodeError,
    >)
        ensures
            self@.is_validator() <==> res is Ok,
            self@.dsct == StateDsct::Validator <==> res is Ok,
            res matches Ok(msg) ==> from_node(self@, msg, InternalMessageKind::HbContribution(txn)),
            res matches Err(e) ==> e is ProposeUserContributionNotValidator,
    {
        if self.is_validator() {
            Ok(self.contribution_message(txn))
        } else {
            Err(NodeError::ProposeUserContributionNotValidator)
        }
    }

    /// Casts a vote for a change in the validator set or configuration: where
    /// the node is a validator, returns the message that proposes the vote;
    /// otherwise refuses it.
    pub fn vote_for<K>(&self, change: Change<N>) -> (res: Result<InternalMessage<C, N, K>, NodeError>)
        ensures
            self@.is_validator() <==> res is Ok,
            self@.dsct == StateDsct::Validator <==> res is Ok,
            res matches Ok(msg) ==> from_node(self@, msg, InternalMessageKind::HbChange(change)),
            res matches Err(e) ==> e is VoteForNotValidator,
    {
        if self.is_validator() {
            Ok(
                InternalMessage {
                    src_uid: Some(self.nid.clone()),
                    src_addr: OutAddr(self.addr.0),
                    kind: InternalMessageKind::HbChange(change),
                },
            )
        } else {
            Err(NodeError::VoteForNotValidator)
        }
    }

    /// The message that begins a synchronous key generation instance, which
    /// reports on `tx`, the sending end of the stream handed to the caller.
    pub fn new_key_gen_instance<K>(&self, tx: K) -> (msg: InternalMessage<C, N, K>)
        ensures
            from_node(self@, msg, InternalMessageKind::NewKeyGenInstance(tx)),
    {
        InternalMessage {
            src_uid: Some(self.nid.clone()),
            src_addr: OutAddr(self.addr.0),
            kind: InternalMessageKind::NewKeyGenInstance(tx),
        }
    }

    /// At the start of an epoch, what contribution to generate: the number of
    /// transactions and the bytes per transaction where the node is a
    /// validator, and none otherwise.
    pub fn contribution_to_generate(&self) -> (shape: Option<(usize, usize)>)
        ensures
            shape == self@.contribution_shape(),
            self@.dsct == StateDsct::Validator ==> shape == Some(
                (self@.config.txn_gen_count, self@.config.txn_gen_bytes),
            ),
            self@.dsct != StateDsct::Validator ==> shape is None,
    {
        if self.is_validator() {
            Some((self.config.txn_gen_count, self.config.txn_gen_bytes))
        } else {
            None
        }
    }

    /// The first wire message of a connection the node makes: the node
    /// introduces itself with its id, its listening address and `local_pk`,
    /// the public key of the secret key it connects with, and asks to be
    /// added to the network.
    pub fn hello_message(&self, local_pk: PublicKey) -> (h: FirstWireMessage<N>)
        ensures
            h matches FirstWireMessage::HelloRequestChangeAdd(n, a, k) && cloned(self@.nid, n) && a
                == self@.addr && k == local_pk,
    {
        FirstWireMessage::HelloRequestChangeAdd(self.nid.clone(), self.addr, local_pk)
    }

    /// Returns the listening address.
    pub fn addr(&self) -> (addr: &InAddr)
        ensures
            *addr == self@.addr,
    {
        &self.addr
    }

    /// Returns the node id.
    pub fn node_id(&self) -> (nid: &N)
        ensures
            *nid == self@.nid,
    {
        &self.nid
    }

    /// Returns the secret key.
    pub fn secret_key(&self) -> (sk: &SecretKey)
        ensures
            *sk == self.key(),
    {
        &self.secret_key
    }

    /// Returns the number of transactions in each contribution.
    pub fn sub_block_tx_count(&self) -> (count: usize)
        ensures
            count == self@.config.txn_gen_count,
    {
        self.config.txn_gen_count
    }
}

} // verus!

verus! {

/// What a read of the current epoch gives back after it was set to `epoch`:
/// `epoch`; the next set returns it as the previous epoch. Setting the epoch
/// changes nothing else the node's decisions read.
pub proof fn lemma_epoch_read_after_write<N>(v: NodeView<N>, epoch: u64, next: u64)
    ensures
        v.with_epoch(epoch).current_epoch == epoch,
        v.with_epoch(epoch).with_epoch(next).current_epoch == next,
        v.with_epoch(epoch).nid == v.nid,
        v.with_epoch(epoch).addr == v.addr,
        v.with_epoch(epoch).dsct == v.dsct,
        v.with_epoch(epoch).config == v.config,
{
}

/// A newly registered listener is sent the epoch that was set last, whatever
/// the node's role; a change of role does not change it.
pub proof fn lemma_registration_sends_latest_epoch<N>(
    v: NodeView<N>,
    epoch: u64,
    dsct: StateDsct,
)
    ensures
        v.with_epoch(epoch).epoch_on_registration() == epoch,
        v.with_epoch(epoch).with_dsct(dsct).epoch_on_registration() == epoch,
{
}

/// A node validates exactly when its state discriminant was last set to
/// `Validator`; so user contributions, votes and generated contributions are
/// taken exactly then. The discriminant changes nothing else.
pub proof fn lemma_validator_gate<N>(v: NodeView<N>, dsct: StateDsct)
    ensures
        v.with_dsct(dsct).is_validator() <==> dsct == StateDsct::Validator,
        v.with_dsct(dsct).contribution_shape() is Some <==> dsct == StateDsct::Validator,
        v.with_dsct(dsct).current_epoch == v.current_epoch,
        v.with_dsct(dsct).config == v.config,
        v.with_dsct(dsct).nid == v.nid,
        v.with_dsct(dsct).addr == v.addr,
{
}

/// A message comes from a node exactly when it names a copy of the node's
/// id, comes from the node's listening address, and asks for the given kind.
pub proof fn lemma_from_node_exact<C, N: Clone + Ord, K>(
    v: NodeView<N>,
    msg: InternalMessage<C, N, K>,
    kind: InternalMessageKind<C, N, K>,
)
    ensures
        from_node(v, msg, kind) <==> (msg.src_uid is Some && cloned(v.nid, msg.src_uid->0)
            && msg.src_addr == OutAddr(v.addr.0) && msg.kind == kind),
{
}

/// Where the node validates, it generates at each epoch a contribution of
/// the configured number of transactions, each of the configured number of
/// bytes (the count first, then the size); otherwise it generates none. The
/// count is the one the node reports per contribution.
pub proof fn lemma_contribution_shape<N>(v: NodeView<N>)
    ensures
        v.dsct == StateDsct::Validator ==> v.contribution_shape() == Some(
            (v.config.txn_gen_count, v.config.txn_gen_bytes),
        ),
        v.dsct != StateDsct::Validator ==> v.contribution_shape() is None,
        v.contribution_shape() matches Some(shape) ==> shape.0 == v.config.txn_gen_count
            && shape.1 == v.config.txn_gen_bytes,
{
}

/// After the state discriminant is set to `dsct` the node reports `dsct`,
/// whatever it was; a later setting to `next` overrides it.
pub proof fn lemma_dsct_read_after_write<N>(v: NodeView<N>, dsct: StateDsct, next: StateDsct)
    ensures
        v.with_dsct(dsct).dsct == dsct,
        v.with_dsct(dsct).with_dsct(next).dsct == next,
        v.with_dsct(dsct).with_dsct(dsct) == v.with_dsct(dsct),
{
}

/// A node that has just started is not a validator: it refuses user
/// contributions and votes until its state becomes `Validator`. A listener
/// registered before any batch is output is sent the start epoch.
pub proof fn lemma_fresh_node_is_not_validator<N>(addr: NetAddr, cfg: Config, nid: N)
    ensures
        initial_view(addr, cfg, nid).dsct == StateDsct::Disconnected,
        initial_view(addr, cfg, nid).nid == nid,
        initial_view(addr, cfg, nid).addr == InAddr(addr),
        initial_view(addr, cfg, nid).config == cfg,
        !initial_view(addr, cfg, nid).is_validator(),
        initial_view(addr, cfg, nid).epoch_on_registration() == cfg.start_epoch,
        initial_view(addr, cfg, nid).contribution_shape() is None,
        initial_view(addr, cfg, nid).current_epoch == cfg.start_epoch,
{
}

} // verus!
