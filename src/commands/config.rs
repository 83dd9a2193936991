use vstd::prelude::*;

verus! {

/// Commands of the configuration menu.
#[derive(Debug, Clone, Copy, PartialEq, Eq, Structural)]
pub enum ConfigCommand {
    Show,
    Generate,
    Edit,
    GoBack,
}

impl ConfigCommand {
    /// The message shown while the command runs.
    pub fn spinner_msg(&self) -> (r: &'static str)
        ensures
            r@ == match *self {
                ConfigCommand::Show => "Displaying current Scilla configuration…"@,
                ConfigCommand::Generate => "Generating new Scilla configuration…"@,
                ConfigCommand::Edit => "Editing existing Scilla configuration…"@,
                ConfigCommand::GoBack => "Going back…"@,
            },
    {
        match self {
            ConfigCommand::Show => "Displaying current Scilla configuration…",
            ConfigCommand::Generate => "Generating new Scilla configuration…",
            ConfigCommand::Edit => "Editing existing Scilla configuration…",
            ConfigCommand::GoBack => "Going back…",
        }
    }
}

} // verus!
