use vstd::prelude::*;
use crate::constants::{DEVNET_RPC, MAINNET_RPC, TESTNET_RPC};

verus! {

/// The public clusters.
#[derive(Debug, Clone, Copy, PartialEq, Eq, Structural)]
pub enum Network {
    Mainnet,
    Testnet,
    Devnet,
}

impl Network {
    /// The public RPC endpoint of the cluster.
    pub fn rpc_url(&self) -> (r: &'static str)
        ensures
            r@ == match *self {
                Network::Mainnet => MAINNET_RPC@,
                Network::Testnet => TESTNET_RPC@,
                Network::Devnet => DEVNET_RPC@,
            },
    {
        match self {
            Network::Mainnet => MAINNET_RPC,
            Network::Testnet => TESTNET_RPC,
            Network::Devnet => DEVNET_RPC,
        }
    }

    /// Every cluster, in menu order.
    pub fn all() -> (r: Vec<Network>)
        ensures
            r@ == seq![Network::Mainnet, Network::Testnet, Network::Devnet],
    {
        vec![Network::Mainnet, Network::Testnet, Network::Devnet]
    }
}

} // verus!
