use vstd::prelude::*;

verus! {

/// Commands of the program menu.
#[derive(Debug, Clone, Copy, PartialEq, Eq, Structural)]
pub enum ProgramCommand {
    Deploy,
    Upgrade,
    Build,
    Close,
    Extend,
    GoBack,
}

impl ProgramCommand {
    /// The message shown while the command runs.
    pub fn spinner_msg(&self) -> (r: &'static str)
        ensures
            r@ == match *self {
                ProgramCommand::Deploy => "Deploying program"@,
                ProgramCommand::Upgrade => "Upgrading program"@,
                ProgramCommand::Build => "Building program"@,
                ProgramCommand::Close => "Closing program"@,
                ProgramCommand::Extend => "Extending program data"@,
                ProgramCommand::GoBack => "Going back..."@,
            },
    {
        match self {
            ProgramCommand::Deploy => "Deploying program",
            ProgramCommand::Upgrade => "Upgrading program",
            ProgramCommand::Build => "Building program",
            ProgramCommand::Close => "Closing program",
            ProgramCommand::Extend => "Extending program data",
            ProgramCommand::GoBack => "Going back...",
        }
    }
}

/// Commands shared by the program loaders.
#[derive(Debug, Clone, Copy, PartialEq, Eq, Structural)]
pub enum ProgramShared {
    Deploy,
    Upgrade,
    Build,
    Close,
    Extend,
    GoBack,
}

impl ProgramShared {
    /// The message shown while the command runs.
    pub fn spinner_msg(&self) -> (r: &'static str)
        ensures
            r@ == match *self {
                ProgramShared::Deploy => "Deploying program"@,
                ProgramShared::Upgrade => "Upgrading program"@,
                ProgramShared::Build => "Building program"@,
                ProgramShared::Close => "Closing program"@,
                ProgramShared::Extend => "Extending program data"@,
                ProgramShared::GoBack => "Go Back"@,
            },
    {
        match self {
            ProgramShared::Deploy => "Deploying program",
            ProgramShared::Upgrade => "Upgrading program",
            ProgramShared::Build => "Building program",
            ProgramShared::Close => "Closing program",
            ProgramShared::Extend => "Extending program data",
            ProgramShared::GoBack => "Go Back",
        }
    }
}

} // verus!
