use vstd::prelude::*;

verus! {

/// Commands of the transaction menu.
#[derive(Debug, Clone, Copy, PartialEq, Eq, Structural)]
pub enum TransactionCommand {
    CheckConfirmation,
    FetchStatus,
    FetchTransaction,
    SendTransaction,
    SimulateTransaction,
    GoBack,
}

impl TransactionCommand {
    /// The message shown while the command runs.
    pub fn spinner_msg(&self) -> (r: &'static str)
        ensures
            r@ == match *self {
                TransactionCommand::CheckConfirmation => "Checking transaction confirmation…"@,
                TransactionCommand::FetchStatus => "Fetching transaction status…"@,
                TransactionCommand::FetchTransaction => "Fetching full transaction data…"@,
                TransactionCommand::SendTransaction => "Sending transaction…"@,
                TransactionCommand::SimulateTransaction => "Simulating transaction…"@,
                TransactionCommand::GoBack => "Going back…"@,
            },
    {
        match self {
            TransactionCommand::CheckConfirmation => "Checking transaction confirmation…",
            TransactionCommand::FetchStatus => "Fetching transaction status…",
            TransactionCommand::FetchTransaction => "Fetching full transaction data…",
            TransactionCommand::SendTransaction => "Sending transaction…",
            TransactionCommand::SimulateTransaction => "Simulating transaction…",
            TransactionCommand::GoBack => "Going back…",
        }
    }
}

} // verus!
