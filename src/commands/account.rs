use vstd::prelude::*;

verus! {

/// Commands of the account menu.
#[derive(Debug, Clone, Copy, PartialEq, Eq, Structural)]
pub enum AccountCommand {
    FetchAccount,
    Balance,
    Transfer,
    Airdrop,
    LargestAccounts,
    NonceAccount,
    GoBack,
}

impl AccountCommand {
    /// The message shown while the command runs.
    pub fn spinner_msg(&self) -> (r: &'static str)
        ensures
            r@ == match *self {
                AccountCommand::FetchAccount => "Fetching account…"@,
                AccountCommand::Balance => "Checking SOL balance…"@,
                AccountCommand::Transfer => "Sending SOL…"@,
                AccountCommand::Airdrop => "Requesting SOL on devnet/testnet…"@,
                AccountCommand::LargestAccounts => "Fetching largest accounts on the cluster…"@,
                AccountCommand::NonceAccount => "Inspecting or managing durable nonces…"@,
                AccountCommand::GoBack => "Going back…"@,
            },
    {
        match self {
            AccountCommand::FetchAccount => "Fetching account…",
            AccountCommand::Balance => "Checking SOL balance…",
            AccountCommand::Transfer => "Sending SOL…",
            AccountCommand::Airdrop => "Requesting SOL on devnet/testnet…",
            AccountCommand::LargestAccounts => "Fetching largest accounts on the cluster…",
            AccountCommand::NonceAccount => "Inspecting or managing durable nonces…",
            AccountCommand::GoBack => "Going back…",
        }
    }
}

} // verus!
