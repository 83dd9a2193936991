use vstd::prelude::*;
use crate::commands::CommandGroup;

verus! {

/// A top-level menu entry.
#[derive(Debug, Clone, Copy, PartialEq, Eq, Structural)]
pub enum CommandSection {
    Account,
    Cluster,
    Config,
    Stake,
    Transaction,
    Vote,
}

/// Deepest level of a section: one for its root plus one per prompt that its
/// commands can nest.
pub open spec fn section_max_depth(s: CommandSection) -> nat {
    match s {
        CommandSection::Cluster => 1,
        CommandSection::Account => 2,
        CommandSection::Config => 3,
        CommandSection::Transaction => 3,
        CommandSection::Vote => 5,
        CommandSection::Stake => 8,
    }
}

impl CommandSection {
    /// Maximum navigation depth of this section.
    pub fn max_depth(self) -> (r: usize)
        ensures
            r == section_max_depth(self),
    {
        match self {
            CommandSection::Cluster => 1,
            CommandSection::Account => 2,
            CommandSection::Config => 3,
            CommandSection::Transaction => 3,
            CommandSection::Vote => 5,
            CommandSection::Stake => 8,
        }
    }
}

/// Bounded navigation inside one section, kept as a depth: 1 is the section
/// root (command selection), deeper levels are nested prompts, up to the
/// section's maximum.
#[derive(Debug, Clone, Copy, PartialEq, Eq, Structural)]
pub struct CommandSectionNav {
    cmd_section: CommandSection,
    depth: usize,
}

impl View for CommandSectionNav {
    type V = (CommandSection, nat);

    closed spec fn view(&self) -> (CommandSection, nat) {
        (self.cmd_section, self.depth as nat)
    }
}

impl CommandSectionNav {
    /// The depth stays between the root and the section's maximum.
    pub open spec fn wf(&self) -> bool {
        1 <= self@.1 <= section_max_depth(self@.0)
    }

    /// A section's navigation, at its root.
    pub fn new(section: CommandSection) -> (r: Self)
        ensures
            r@ == (section, 1nat),
            r.wf(),
    {
        CommandSectionNav { cmd_section: section, depth: 1 }
    }

    /// Back to the section root.
    pub fn reset(&mut self)
        ensures
            final(self)@ == (old(self)@.0, 1nat),
            final(self).wf(),
    {
        self.depth = 1;
    }

    /// One level deeper; refused (false, unchanged) at the maximum depth.
    pub fn push(&mut self) -> (r: bool)
        requires
            old(self).wf(),
        ensures
            final(self).wf(),
            r == (old(self)@.1 < section_max_depth(old(self)@.0)),
            final(self)@ == if r { (old(self)@.0, old(self)@.1 + 1) } else { old(self)@ },
    {
        if self.at_max_depth() {
            return false;
        }
        self.depth = self.depth + 1;
        true
    }

    /// One level up; refused (false, unchanged) at the section root.
    pub fn pop(&mut self) -> (r: bool)
        requires
            old(self).wf(),
        ensures
            final(self).wf(),
            r == (old(self)@.1 > 1),
            final(self)@ == if r { (old(self)@.0, (old(self)@.1 - 1) as nat) } else { old(self)@ },
    {
        if self.at_section_root() {
            return false;
        }
        self.depth = self.depth - 1;
        true
    }

    pub fn at_section_root(&self) -> (r: bool)
        ensures
            r == (self@.1 == 1),
    {
        self.depth == 1
    }

    pub fn at_max_depth(&self) -> (r: bool)
        ensures
            r == (self@.1 >= section_max_depth(self@.0)),
    {
        self.depth >= self.cmd_section.max_depth()
    }

    pub fn section(&self) -> (r: CommandSection)
        ensures
            r == self@.0,
    {
        self.cmd_section
    }

    pub fn depth(&self) -> (r: usize)
        ensures
            r == self@.1,
    {
        self.depth
    }
}

/// Where the user is: the main menu or inside a section.
#[derive(Debug, Clone, PartialEq, Eq, Structural)]
pub enum AppNav {
    MainMenu,
    InSection(CommandSectionNav),
}

impl AppNav {
    /// A section's navigation state is well formed.
    pub open spec fn wf(&self) -> bool {
        *self matches AppNav::InSection(s) ==> s.wf()
    }

    /// Enters a section, or switches to it, at its root.
    pub fn enter_section(&mut self, section: CommandSection)
        ensures
            final(self).wf(),
            *final(self) matches AppNav::InSection(t) && t@ == (section, 1nat),
    {
        *self = AppNav::InSection(CommandSectionNav::new(section));
    }

    /// Leaves the section for the main menu.
    pub fn go_to_menu(&mut self)
        ensures
            *final(self) == AppNav::MainMenu,
    {
        *self = AppNav::MainMenu;
    }

    /// Back: one level up inside a section, to the main menu from a section
    /// root, nothing at the main menu.
    pub fn go_back(&mut self)
        requires
            old(self).wf(),
        ensures
            final(self).wf(),
            match *old(self) {
                AppNav::MainMenu => *final(self) == AppNav::MainMenu,
                AppNav::InSection(s) => if s@.1 > 1 {
                    *final(self) matches AppNav::InSection(t) && t@ == (s@.0, (s@.1 - 1) as nat)
                } else {
                    *final(self) == AppNav::MainMenu
                },
            },
    {
        match self {
            AppNav::MainMenu => {},
            AppNav::InSection(state) => {
                if !state.pop() {
                    *self = AppNav::MainMenu;
                }
            },
        }
    }

    /// Forward inside a section; false at the main menu or at the maximum depth.
    pub fn forward(&mut self) -> (r: bool)
        requires
            old(self).wf(),
        ensures
            final(self).wf(),
            match *old(self) {
                AppNav::MainMenu => !r && *final(self) == AppNav::MainMenu,
                AppNav::InSection(s) => r == (s@.1 < section_max_depth(s@.0)) && (*final(self) matches AppNav::InSection(t)
                    && t@ == if r { (s@.0, s@.1 + 1) } else { s@ }),
            },
    {
        match self {
            AppNav::MainMenu => false,
            AppNav::InSection(state) => state.push(),
        }
    }

    /// The current section, if any.
    pub fn section(&self) -> (r: Option<CommandSection>)
        ensures
            match *self {
                AppNav::MainMenu => r is None,
                AppNav::InSection(s) => r == Some(s@.0),
            },
    {
        match self {
            AppNav::MainMenu => None,
            AppNav::InSection(state) => Some(state.section()),
        }
    }

    /// The depth inside the current section, if any.
    pub fn section_depth(&self) -> (r: Option<usize>)
        ensures
            match *self {
                AppNav::MainMenu => r is None,
                AppNav::InSection(s) => r is Some && r->Some_0 == s@.1,
            },
    {
        match self {
            AppNav::MainMenu => None,
            AppNav::InSection(state) => Some(state.depth()),
        }
    }
}

/// Most sections a navigation history holds: a root and its subsections.
pub const MAX_INTERACTION_DEPTH: usize = 3;

/// Navigation history as a stack of sections; once a root is set, the root
/// stays until it is replaced.
#[derive(Debug, Clone)]
pub struct NavContext {
    stack: Vec<CommandGroup>,
}

impl View for NavContext {
    type V = Seq<CommandGroup>;

    closed spec fn view(&self) -> Seq<CommandGroup> {
        self.stack@
    }
}

impl NavContext {
    /// An empty history.
    pub fn new() -> (r: Self)
        ensures
            r@ == Seq::<CommandGroup>::empty(),
    {
        NavContext { stack: Vec::new() }
    }

    /// Back to the parent section; `None`, and no change, at the root or
    /// when empty.
    pub fn pop(&mut self) -> (r: Option<CommandGroup>)
        ensures
            old(self)@.len() <= 1 ==> r is None && final(self)@ == old(self)@,
            old(self)@.len() > 1 ==> r == Some(old(self)@.last()) && final(self)@ == old(self)@.drop_last(),
    {
        if self.stack.len() <= 1 {
            return None;
        }
        self.stack.pop()
    }

    /// The active section, if any.
    pub fn current(&self) -> (r: Option<CommandGroup>)
        ensures
            self@.len() == 0 ==> r is None,
            self@.len() > 0 ==> r == Some(self@.last()),
    {
        if self.stack.len() == 0 {
            None
        } else {
            Some(self.stack[self.stack.len() - 1])
        }
    }

    /// Makes `section` the only entry.
    pub fn set_root(&mut self, section: CommandGroup)
        ensures
            final(self)@ == seq![section],
    {
        self.stack.clear();
        self.stack.push(section);
    }

    /// Adds a section if the history has room; returns whether it did.
    pub fn push(&mut self, section: CommandGroup) -> (r: bool)
        ensures
            r == (old(self)@.len() < MAX_INTERACTION_DEPTH),
            final(self)@ == if r { old(self)@.push(section) } else { old(self)@ },
    {
        if self.stack.len() < MAX_INTERACTION_DEPTH {
            self.stack.push(section);
            return true;
        }
        false
    }

    /// The active section sits below another one.
    pub fn is_nested(&self) -> (r: bool)
        ensures
            r == (self@.len() >= 2),
    {
        self.stack.len() >= 2
    }
}

} // verus!
