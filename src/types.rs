use vstd::prelude::*;

verus! {

/// A top-level menu entry.
#[derive(Debug, Clone, Copy, PartialEq, Eq, Structural)]
pub enum Section {
    Account,
    Config,
    Stake,
    Transaction,
    Vote,
}

impl Section {
    /// Deepest nesting allowed in the section; only the account section has
    /// a bound so far.
    pub fn max_depth(self) -> (r: usize)
        requires
            self == Section::Account,
        ensures
            r == 6,
    {
        6
    }
}

/// Bounded navigation inside one section, kept as a depth: 0 is the section
/// root, `1..=max_depth` are nested interactions.
#[derive(Debug, Clone, Copy, PartialEq, Eq, Structural)]
pub struct SectionNav {
    section: Section,
    depth: usize,
}

impl View for SectionNav {
    type V = (Section, nat);

    closed spec fn view(&self) -> (Section, nat) {
        (self.section, self.depth as nat)
    }
}

impl SectionNav {
    /// A section's navigation, at its root.
    pub fn new(section: Section) -> (r: Self)
        ensures
            r@ == (section, 0nat),
    {
        SectionNav { section, depth: 0 }
    }

    /// Back to the section root.
    pub fn reset(&mut self)
        ensures
            final(self)@ == (old(self)@.0, 0nat),
    {
        self.depth = 0;
    }

    /// One level deeper; refused (false, unchanged) at the maximum depth.
    pub fn push(&mut self) -> (r: bool)
        requires
            old(self)@.0 == Section::Account,
        ensures
            r == (old(self)@.1 < 6),
            final(self)@ == if r { (old(self)@.0, old(self)@.1 + 1) } else { old(self)@ },
    {
        if self.at_max_depth() {
            return false;
        }
        self.depth = self.depth + 1;
        true
    }

    /// One level up; refused (false, unchanged) at the root.
    pub fn pop(&mut self) -> (r: bool)
        ensures
            r == (old(self)@.1 > 0),
            final(self)@ == if r { (old(self)@.0, (old(self)@.1 - 1) as nat) } else { old(self)@ },
    {
        if self.at_root() {
            return false;
        }
        self.depth = self.depth - 1;
        true
    }

    pub fn at_root(&self) -> (r: bool)
        ensures
            r == (self@.1 == 0),
    {
        self.depth == 0
    }

    pub fn at_max_depth(&self) -> (r: bool)
        requires
            self@.0 == Section::Account,
        ensures
            r == (self@.1 >= 6),
    {
        self.depth >= self.section.max_depth()
    }

    pub fn section(&self) -> (r: Section)
        ensures
            r == self@.0,
    {
        self.section
    }

    pub fn depth(&self) -> (r: usize)
        ensures
            r == self@.1,
    {
        self.depth
    }
}

/// Where the user is: the main menu or inside a section.
#[derive(Debug, Clone, PartialEq, Eq, Structural)]
pub enum AppNav {
    MainMenu,
    InSection(SectionNav),
}

impl AppNav {
    /// Enters a section, or switches to it, at its root.
    pub fn enter_section(&mut self, section: Section)
        ensures
            *final(self) matches AppNav::InSection(t) && t@ == (section, 0nat),
    {
        *self = AppNav::InSection(SectionNav::new(section));
    }

    /// Leaves the section for the main menu.
    pub fn go_to_menu(&mut self)
        ensures
            *final(self) == AppNav::MainMenu,
    {
        *self = AppNav::MainMenu;
    }

    /// Back: one level up inside a section, to the main menu from a section
    /// root, nothing at the main menu.
    pub fn go_back(&mut self)
        ensures
            match *old(self) {
                AppNav::MainMenu => *final(self) == AppNav::MainMenu,
                AppNav::InSection(s) => if s@.1 > 0 {
                    *final(self) matches AppNav::InSection(t) && t@ == (s@.0, (s@.1 - 1) as nat)
                } else {
                    *final(self) == AppNav::MainMenu
                },
            },
    {
        match self {
            AppNav::MainMenu => {},
            AppNav::InSection(state) => {
                if !state.pop() {
                    *self = AppNav::MainMenu;
                }
            },
        }
    }

    /// Forward inside a section; false at the main menu or at the maximum depth.
    pub fn forward(&mut self) -> (r: bool)
        requires
            *old(self) matches AppNav::InSection(s) ==> s@.0 == Section::Account,
        ensures
            match *old(self) {
                AppNav::MainMenu => !r && *final(self) == AppNav::MainMenu,
                AppNav::InSection(s) => r == (s@.1 < 6) && (*final(self) matches AppNav::InSection(t)
                    && t@ == if r { (s@.0, s@.1 + 1) } else { s@ }),
            },
    {
        match self {
            AppNav::MainMenu => false,
            AppNav::InSection(state) => state.push(),
        }
    }

    /// The current section, if any.
    pub fn section(&self) -> (r: Option<Section>)
        ensures
            match *self {
                AppNav::MainMenu => r is None,
                AppNav::InSection(s) => r == Some(s@.0),
            },
    {
        match self {
            AppNav::MainMenu => None,
            AppNav::InSection(state) => Some(state.section()),
        }
    }

    /// The depth inside the current section, if any.
    pub fn section_depth(&self) -> (r: Option<usize>)
        ensures
            match *self {
                AppNav::MainMenu => r is None,
                AppNav::InSection(s) => r is Some && r->Some_0 == s@.1,
            },
    {
        match self {
            AppNav::MainMenu => None,
            AppNav::InSection(state) => Some(state.depth()),
        }
    }
}

} // verus!
