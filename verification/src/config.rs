use vstd::prelude::*;

verus! {

/// The number of random transactions to generate per interval.
pub const DEFAULT_TXN_GEN_COUNT: usize = 5;
/// The interval, in milliseconds, between randomly generated transactions.
pub const DEFAULT_TXN_GEN_INTERVAL: u64 = 5000;
/// The number of bytes per randomly generated transaction.
pub const DEFAULT_TXN_GEN_BYTES: usize = 2;
/// The minimum number of peers needed to spawn a Honey Badger instance.
pub const DEFAULT_KEYGEN_PEER_COUNT: usize = 2;
/// A pause after every batch, for debugging.
pub const DEFAULT_OUTPUT_EXTRA_DELAY_MS: u64 = 0;

/// Hydrabadger configuration options.
#[derive(Debug, Clone, Copy, PartialEq, Eq, Structural)]
pub struct Config {
    pub txn_gen_count: usize,
    pub txn_gen_interval: u64,
    pub txn_gen_bytes: usize,
    pub keygen_peer_count: usize,
    pub output_extra_delay_ms: u64,
    pub start_epoch: u64,
}

/// The configuration that every option set to its default describes.
pub open spec fn default_config() -> Config {
    Config {
        txn_gen_count: DEFAULT_TXN_GEN_COUNT,
        txn_gen_interval: DEFAULT_TXN_GEN_INTERVAL,
        txn_gen_bytes: DEFAULT_TXN_GEN_BYTES,
        keygen_peer_count: DEFAULT_KEYGEN_PEER_COUNT,
        output_extra_delay_ms: DEFAULT_OUTPUT_EXTRA_DELAY_MS,
        start_epoch: 0,
    }
}

impl Config {
    /// Returns the configuration with every option at its default.
    pub fn with_defaults() -> (cfg: Config)
        ensures
            cfg == default_config(),
            cfg.txn_gen_count == 5,
            cfg.txn_gen_interval == 5000,
            cfg.txn_gen_bytes == 2,
            cfg.keygen_peer_count == 2,
            cfg.output_extra_delay_ms == 0,
            cfg.start_epoch == 0,
    {
        Config {
            txn_gen_count: DEFAULT_TXN_GEN_COUNT,
            txn_gen_interval: DEFAULT_TXN_GEN_INTERVAL,
            txn_gen_bytes: DEFAULT_TXN_GEN_BYTES,
            keygen_peer_count: DEFAULT_KEYGEN_PEER_COUNT,
            output_extra_delay_ms: DEFAULT_OUTPUT_EXTRA_DELAY_MS,
            start_epoch: 0,
        }
    }
}

impl Default for Config {
    fn default() -> (cfg: Config)
        ensures
            cfg == default_config(),
    {
        Config::with_defaults()
    }
}

} // verus!
