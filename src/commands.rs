pub mod account;
pub mod cluster;
pub mod config;
pub mod navigation;
pub mod program;
pub mod stake;
pub mod token;
pub mod transaction;
pub mod vote;

use vstd::prelude::*;
use crate::commands::account::AccountCommand;
use crate::commands::cluster::ClusterCommand;
use crate::commands::config::ConfigCommand;
use crate::commands::stake::StakeCommand;
use crate::commands::transaction::TransactionCommand;
use crate::commands::vote::VoteCommand;

verus! {

/// The groups of commands of the main menu.
#[derive(Debug, Clone, Copy, PartialEq, Eq, Structural)]
pub enum CommandGroup {
    Account,
    Cluster,
    Stake,
    Vote,
    Transaction,
    ScillaConfig,
    Exit,
}

impl CommandGroup {
    /// The label shown in the menu.
    pub fn label(&self) -> (r: &'static str)
        ensures
            r@ == match *self {
                CommandGroup::Account => "Account"@,
                CommandGroup::Cluster => "Cluster"@,
                CommandGroup::Stake => "Stake"@,
                CommandGroup::Vote => "Vote"@,
                CommandGroup::Transaction => "Transaction"@,
                CommandGroup::ScillaConfig => "ScillaConfig"@,
                CommandGroup::Exit => "Exit"@,
            },
    {
        match self {
            CommandGroup::Account => "Account",
            CommandGroup::Cluster => "Cluster",
            CommandGroup::Stake => "Stake",
            CommandGroup::Vote => "Vote",
            CommandGroup::Transaction => "Transaction",
            CommandGroup::ScillaConfig => "ScillaConfig",
            CommandGroup::Exit => "Exit",
        }
    }
}

/// Entries of the main menu.
#[derive(Debug, Clone, Copy, PartialEq, Eq, Structural)]
pub enum MainCommand {
    Account,
    Cluster,
    Stake,
    Program,
    Vote,
    Transaction,
    Build,
    ScillaConfig,
    Exit,
}

impl MainCommand {
    /// The label shown in the menu.
    pub fn label(&self) -> (r: &'static str)
        ensures
            r@ == match *self {
                MainCommand::Account => "Account"@,
                MainCommand::Cluster => "Cluster"@,
                MainCommand::Stake => "Stake"@,
                MainCommand::Program => "Program"@,
                MainCommand::Vote => "Vote"@,
                MainCommand::Transaction => "Transaction"@,
                MainCommand::Build => "Build"@,
                MainCommand::ScillaConfig => "Scilla Config"@,
                MainCommand::Exit => "Exit"@,
            },
    {
        match self {
            MainCommand::Account => "Account",
            MainCommand::Cluster => "Cluster",
            MainCommand::Stake => "Stake",
            MainCommand::Program => "Program",
            MainCommand::Vote => "Vote",
            MainCommand::Transaction => "Transaction",
            MainCommand::Build => "Build",
            MainCommand::ScillaConfig => "Scilla Config",
            MainCommand::Exit => "Exit",
        }
    }
}

/// Keypair and address utilities.
#[derive(Debug, Clone, Copy, PartialEq, Eq, Structural)]
pub enum AddressCommand {
    Address,
    DerivePda,
    GoBack,
}

impl AddressCommand {
    /// The label shown in the menu.
    pub fn label(&self) -> (r: &'static str)
        ensures
            r@ == match *self {
                AddressCommand::Address => "Get address"@,
                AddressCommand::DerivePda => "Derive PDA"@,
                AddressCommand::GoBack => "Go back"@,
            },
    {
        match self {
            AddressCommand::Address => "Get address",
            AddressCommand::DerivePda => "Derive PDA",
            AddressCommand::GoBack => "Go back",
        }
    }
}

/// A command picked in one of the menus, or leaving the program.
#[derive(Debug, Clone, Copy, PartialEq, Eq, Structural)]
pub enum Command {
    Cluster(ClusterCommand),
    Stake(StakeCommand),
    Account(AccountCommand),
    Vote(VoteCommand),
    Transaction(TransactionCommand),
    ScillaConfig(ConfigCommand),
    Exit,
}

impl Command {
    /// The group of commands this command belongs to.
    pub fn section(&self) -> (r: CommandGroup)
        ensures
            r == match *self {
                Command::Cluster(_) => CommandGroup::Cluster,
                Command::Stake(_) => CommandGroup::Stake,
                Command::Account(_) => CommandGroup::Account,
                Command::Vote(_) => CommandGroup::Vote,
                Command::Transaction(_) => CommandGroup::Transaction,
                Command::ScillaConfig(_) => CommandGroup::ScillaConfig,
                Command::Exit => CommandGroup::Exit,
            },
    {
        match self {
            Command::Cluster(_) => CommandGroup::Cluster,
            Command::Stake(_) => CommandGroup::Stake,
            Command::Account(_) => CommandGroup::Account,
            Command::Vote(_) => CommandGroup::Vote,
            Command::Transaction(_) => CommandGroup::Transaction,
            Command::ScillaConfig(_) => CommandGroup::ScillaConfig,
            Command::Exit => CommandGroup::Exit,
        }
    }
}

/// What the menu loop does after a command ran.
#[derive(Debug, Clone, Copy, PartialEq, Eq, Structural)]
pub enum CommandFlow {
    Processed,
    NavigateTo(crate::commands::navigation::NavigationTarget),
    Exit,
}

} // verus!
