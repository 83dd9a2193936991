use vstd::prelude::*;

verus! {

/// Number of lamports in one SOL.
pub const LAMPORTS_PER_SOL: u64 = 1_000_000_000;

/// Location of the configuration file, relative to the home directory.
pub const SCILLA_CONFIG_RELATIVE_PATH: &'static str = ".config/scilla.toml";

/// Payload bytes carried by one buffer-write transaction. A signed write
/// transaction with its compute-price instruction takes 264 bytes besides the
/// payload, and a transaction may take at most 1232 bytes on the wire.
pub const CHUNK_SIZE: usize = 968;

/// Public RPC endpoint of mainnet-beta.
pub const MAINNET_RPC: &'static str = "https://api.mainnet-beta.solana.com";

/// Public RPC endpoint of testnet.
pub const TESTNET_RPC: &'static str = "https://api.testnet.solana.com";

/// Public RPC endpoint of devnet.
pub const DEVNET_RPC: &'static str = "https://api.devnet.solana.com";

/// Largest size an account's data may reach, in bytes.
pub const MAX_PERMITTED_DATA_LENGTH: usize = 10_485_760;

} // verus!
