use vstd::prelude::*;

verus! {

/// Commands of the vote-account menu.
#[derive(Debug, Clone, Copy, PartialEq, Eq, Structural)]
pub enum VoteCommand {
    CreateVoteAccount,
    AuthorizeVoter,
    WithdrawFromVoteAccount,
    ShowVoteAccount,
    GoBack,
}

impl VoteCommand {
    /// The message shown while the command runs.
    pub fn spinner_msg(&self) -> (r: &'static str)
        ensures
            r@ == match *self {
                VoteCommand::CreateVoteAccount => "Creating vote account…"@,
                VoteCommand::AuthorizeVoter => "Authorizing voter…"@,
                VoteCommand::WithdrawFromVoteAccount => "Withdrawing SOL from vote account…"@,
                VoteCommand::ShowVoteAccount => "Fetching vote account details…"@,
                VoteCommand::GoBack => "Going back…"@,
            },
    {
        match self {
            VoteCommand::CreateVoteAccount => "Creating vote account…",
            VoteCommand::AuthorizeVoter => "Authorizing voter…",
            VoteCommand::WithdrawFromVoteAccount => "Withdrawing SOL from vote account…",
            VoteCommand::ShowVoteAccount => "Fetching vote account details…",
            VoteCommand::GoBack => "Going back…",
        }
    }
}

} // verus!
