use vstd::prelude::*;

verus! {

/// Commands of the token menu.
#[derive(Debug, Clone, Copy, PartialEq, Eq, Structural)]
pub enum TokenCommand {
    ListTokenAccounts,
    TokenBalance,
    MintInfo,
    GoBack,
}

impl TokenCommand {
    /// The message shown while the command runs.
    pub fn spinner_msg(&self) -> (r: &'static str)
        ensures
            r@ == match *self {
                TokenCommand::ListTokenAccounts => "Fetching token accounts…"@,
                TokenCommand::TokenBalance => "Fetching token balance…"@,
                TokenCommand::MintInfo => "Fetching mint info…"@,
                TokenCommand::GoBack => "Going back…"@,
            },
    {
        match self {
            TokenCommand::ListTokenAccounts => "Fetching token accounts…",
            TokenCommand::TokenBalance => "Fetching token balance…",
            TokenCommand::MintInfo => "Fetching mint info…",
            TokenCommand::GoBack => "Going back…",
        }
    }
}

} // verus!
