use vstd::prelude::*;
use crate::commands::CommandGroup;

verus! {

/// The menu the user is in.
#[derive(Debug, Clone, Copy, PartialEq, Eq, Structural)]
pub enum NavigationContext {
    MainMenu,
    AccountMenu,
    ClusterMenu,
    StakeMenu,
    VoteMenu,
    TransactionMenu,
    ConfigMenu,
}

/// The menu that a command group opens; leaving goes to the main menu.
pub open spec fn menu_of(group: CommandGroup) -> NavigationContext {
    match group {
        CommandGroup::Account => NavigationContext::AccountMenu,
        CommandGroup::Cluster => NavigationContext::ClusterMenu,
        CommandGroup::Stake => NavigationContext::StakeMenu,
        CommandGroup::Vote => NavigationContext::VoteMenu,
        CommandGroup::Transaction => NavigationContext::TransactionMenu,
        CommandGroup::ScillaConfig => NavigationContext::ConfigMenu,
        CommandGroup::Exit => NavigationContext::MainMenu,
    }
}

impl NavigationContext {
    pub fn from_command_group(group: &CommandGroup) -> (r: Self)
        ensures
            r == menu_of(*group),
    {
        match group {
            CommandGroup::Account => NavigationContext::AccountMenu,
            CommandGroup::Cluster => NavigationContext::ClusterMenu,
            CommandGroup::Stake => NavigationContext::StakeMenu,
            CommandGroup::Vote => NavigationContext::VoteMenu,
            CommandGroup::Transaction => NavigationContext::TransactionMenu,
            CommandGroup::ScillaConfig => NavigationContext::ConfigMenu,
            CommandGroup::Exit => NavigationContext::MainMenu,
        }
    }
}

/// The menus entered so far, the main menu at the bottom; never empty.
pub struct NavigationStack {
    stack: Vec<NavigationContext>,
}

impl View for NavigationStack {
    type V = Seq<NavigationContext>;

    closed spec fn view(&self) -> Seq<NavigationContext> {
        self.stack@
    }
}

impl NavigationStack {
    /// The stack is never empty.
    pub open spec fn wf(&self) -> bool {
        self@.len() > 0
    }

    /// A stack holding the main menu alone.
    pub fn new() -> (r: Self)
        ensures
            r@ == seq![NavigationContext::MainMenu],
            r.wf(),
    {
        let mut stack: Vec<NavigationContext> = Vec::new();
        stack.push(NavigationContext::MainMenu);
        NavigationStack { stack }
    }

    /// Enters a menu.
    pub fn push(&mut self, context: NavigationContext)
        ensures
            final(self)@ == old(self)@.push(context),
    {
        self.stack.push(context);
    }

    /// Leaves the current menu; refused (false, unchanged) at the bottom.
    pub fn pop(&mut self) -> (r: bool)
        ensures
            r == (old(self)@.len() > 1),
            final(self)@ == if r { old(self)@.drop_last() } else { old(self)@ },
    {
        if self.stack.len() > 1 {
            self.stack.pop();
            true
        } else {
            false
        }
    }

    /// The current menu.
    pub fn current(&self) -> (r: &NavigationContext)
        requires
            self.wf(),
        ensures
            *r == self@.last(),
    {
        &self.stack[self.stack.len() - 1]
    }

    /// Only the main menu is on the stack.
    pub fn is_at_main_menu(&self) -> (r: bool)
        requires
            self.wf(),
        ensures
            r == (self@ == seq![NavigationContext::MainMenu]),
    {
        let r = self.stack.len() == 1 && *self.current() == NavigationContext::MainMenu;
        proof {
            if self@.len() == 1 && self@.last() == NavigationContext::MainMenu {
                assert(self@ =~= seq![NavigationContext::MainMenu]);
            }
        }
        r
    }
}

impl Default for NavigationStack {
    fn default() -> (r: Self)
        ensures
            r@ == seq![NavigationContext::MainMenu],
    {
        Self::new()
    }
}

} // verus!
