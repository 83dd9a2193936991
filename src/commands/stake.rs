use vstd::prelude::*;

verus! {

/// Commands of the staking menu.
#[derive(Debug, Clone, Copy, PartialEq, Eq, Structural)]
pub enum StakeCommand {
    Create,
    Delegate,
    Deactivate,
    Withdraw,
    Merge,
    Split,
    Show,
    History,
    GoBack,
}

impl StakeCommand {
    /// The message shown while the command runs.
    pub fn spinner_msg(&self) -> (r: &'static str)
        ensures
            r@ == match *self {
                StakeCommand::Create => "Creating new stake account…"@,
                StakeCommand::Delegate => "Delegating stake to validator…"@,
                StakeCommand::Deactivate => "Deactivating stake (cooldown starting)…"@,
                StakeCommand::Withdraw => "Withdrawing SOL from deactivated stake…"@,
                StakeCommand::Merge => "Merging stake accounts…"@,
                StakeCommand::Split => "Splitting stake into multiple accounts…"@,
                StakeCommand::Show => "Fetching stake account details…"@,
                StakeCommand::History => "Fetching stake account history…"@,
                StakeCommand::GoBack => "Going back…"@,
            },
    {
        match self {
            StakeCommand::Create => "Creating new stake account…",
            StakeCommand::Delegate => "Delegating stake to validator…",
            StakeCommand::Deactivate => "Deactivating stake (cooldown starting)…",
            StakeCommand::Withdraw => "Withdrawing SOL from deactivated stake…",
            StakeCommand::Merge => "Merging stake accounts…",
            StakeCommand::Split => "Splitting stake into multiple accounts…",
            StakeCommand::Show => "Fetching stake account details…",
            StakeCommand::History => "Fetching stake account history…",
            StakeCommand::GoBack => "Going back…",
        }
    }
}

} // verus!
