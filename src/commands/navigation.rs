use vstd::prelude::*;

verus! {

/// Where a command sends the user afterwards.
#[derive(Debug, Clone, Copy, PartialEq, Eq, Structural)]
pub enum NavigationTarget {
    MainSection,
    PreviousSection,
}

/// Most sections the navigation stack holds.
pub const MAX_INTERACTION_DEPTH: usize = 4;

/// The menu sections, the program loaders included.
#[derive(Debug, Clone, Copy, PartialEq, Eq, Structural)]
pub enum NavigationSection {
    Main,
    Account,
    Cluster,
    Program,
    ProgramLegacy,
    ProgramV4,
    Stake,
    Vote,
    Transaction,
    ScillaConfig,
    Exit,
}

impl NavigationSection {
    /// The label shown in the menu.
    pub fn label(&self) -> (r: &'static str)
        ensures
            r@ == match *self {
                NavigationSection::Main => "Main"@,
                NavigationSection::Account => "Account"@,
                NavigationSection::Cluster => "Cluster"@,
                NavigationSection::Program => "Program"@,
                NavigationSection::ProgramLegacy => "ProgramLegacy"@,
                NavigationSection::ProgramV4 => "ProgramV4"@,
                NavigationSection::Stake => "Stake"@,
                NavigationSection::Vote => "Vote"@,
                NavigationSection::Transaction => "Transaction"@,
                NavigationSection::ScillaConfig => "Scilla Config"@,
                NavigationSection::Exit => "Exit"@,
            },
    {
        match self {
            NavigationSection::Main => "Main",
            NavigationSection::Account => "Account",
            NavigationSection::Cluster => "Cluster",
            NavigationSection::Program => "Program",
            NavigationSection::ProgramLegacy => "ProgramLegacy",
            NavigationSection::ProgramV4 => "ProgramV4",
            NavigationSection::Stake => "Stake",
            NavigationSection::Vote => "Vote",
            NavigationSection::Transaction => "Transaction",
            NavigationSection::ScillaConfig => "Scilla Config",
            NavigationSection::Exit => "Exit",
        }
    }
}

/// The sections entered so far, the current one on top.
#[derive(Debug, Clone)]
pub struct NavContext {
    stack: Vec<NavigationSection>,
}

impl View for NavContext {
    type V = Seq<NavigationSection>;

    closed spec fn view(&self) -> Seq<NavigationSection> {
        self.stack@
    }
}

impl NavContext {
    /// A stack holding the main section alone.
    pub fn new() -> (r: Self)
        ensures
            r@ == seq![NavigationSection::Main],
    {
        let mut stack: Vec<NavigationSection> = Vec::new();
        stack.push(NavigationSection::Main);
        NavContext { stack }
    }

    /// Goes back to the parent section and returns it; `None`, and no
    /// change, when only the root (or nothing) is left.
    pub fn pop_and_get_previous(&mut self) -> (r: Option<NavigationSection>)
        ensures
            old(self)@.len() <= 1 ==> r is None && final(self)@ == old(self)@,
            old(self)@.len() > 1 ==> final(self)@ == old(self)@.drop_last()
                && r == Some(final(self)@.last()),
    {
        if self.stack.len() <= 1 {
            return None;
        }
        self.stack.pop();
        self.current()
    }

    /// The current section, if any.
    pub fn current(&self) -> (r: Option<NavigationSection>)
        ensures
            self@.len() == 0 ==> r is None,
            self@.len() > 0 ==> r == Some(self@.last()),
    {
        if self.stack.len() == 0 {
            None
        } else {
            Some(self.stack[self.stack.len() - 1])
        }
    }

    /// Makes `section` the only entry.
    pub fn reset_navigation_to(&mut self, section: NavigationSection)
        ensures
            final(self)@ == seq![section],
    {
        self.stack.clear();
        self.stack.push(section);
    }

    /// Makes the main section the only entry.
    pub fn reset_navigation_to_main(&mut self)
        ensures
            final(self)@ == seq![NavigationSection::Main],
    {
        self.reset_navigation_to(NavigationSection::Main);
    }

    /// Enters `section` unless it is already on the stack. A full stack
    /// cannot take a new section.
    pub fn checked_push(&mut self, section: NavigationSection)
        requires
            old(self)@.contains(section) || old(self)@.len() < MAX_INTERACTION_DEPTH,
        ensures
            final(self)@ == if old(self)@.contains(section) { old(self)@ } else { old(self)@.push(section) },
    {
        let mut i: usize = 0;
        while i < self.stack.len()
            invariant
                i <= self@.len(),
                self@ == old(self)@,
                forall|j: int| 0 <= j < i ==> self@[j] != section,
            decreases self@.len() - i,
        {
            if self.stack[i] == section {
                return;
            }
            i = i + 1;
        }
        self.stack.push(section);
    }

    /// The current section sits at least two levels below the main one.
    pub fn is_nested(&self) -> (r: bool)
        ensures
            r == (self@.len() >= 3),
    {
        self.stack.len() >= 3
    }
}

} // verus!
