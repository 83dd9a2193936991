use scilla::commands::account::AccountCommand;
use scilla::commands::navigation::{NavContext as SectionStack, NavigationSection};
use scilla::commands::program::ProgramShared;
use scilla::commands::CommandGroup;
use scilla::misc::navigation::NavContext;
use scilla::navigation::{NavigationContext, NavigationStack};

#[test]
fn navigation_stack_keeps_main_menu() {
    let mut s = NavigationStack::new();
    assert!(s.is_at_main_menu());
    assert!(!s.pop());
    s.push(NavigationContext::from_command_group(&CommandGroup::Stake));
    assert_eq!(*s.current(), NavigationContext::StakeMenu);
    assert!(!s.is_at_main_menu());
    assert!(s.pop());
    assert!(s.is_at_main_menu());
    assert_eq!(NavigationContext::from_command_group(&CommandGroup::Exit), NavigationContext::MainMenu);
}

#[test]
fn group_history_is_bounded() {
    let mut n = NavContext::new();
    assert_eq!(n.current(), None);
    n.set_root(CommandGroup::Account);
    assert!(n.push(CommandGroup::Stake));
    assert!(n.is_nested());
    assert!(n.push(CommandGroup::Vote));
    assert!(!n.push(CommandGroup::Cluster));
    assert_eq!(n.pop(), Some(CommandGroup::Vote));
    assert_eq!(n.pop(), Some(CommandGroup::Stake));
    assert_eq!(n.pop(), None);
    assert_eq!(n.current(), Some(CommandGroup::Account));
}

#[test]
fn section_stack_ignores_repeats() {
    let mut n = SectionStack::new();
    n.checked_push(NavigationSection::Account);
    n.checked_push(NavigationSection::Account);
    n.checked_push(NavigationSection::Main);
    assert!(!n.is_nested());
    n.checked_push(NavigationSection::Program);
    assert!(n.is_nested());
    assert_eq!(n.pop_and_get_previous(), Some(NavigationSection::Account));
    n.reset_navigation_to_main();
    assert_eq!(n.current(), Some(NavigationSection::Main));
    assert_eq!(n.pop_and_get_previous(), None);
    assert_eq!(n.current(), Some(NavigationSection::Main));
    assert_eq!(NavigationSection::ScillaConfig.label(), "Scilla Config");
}

#[test]
fn command_messages() {
    assert_eq!(AccountCommand::Balance.spinner_msg(), "Checking SOL balance…");
    assert_eq!(ProgramShared::GoBack.spinner_msg(), "Go Back");
    assert_eq!(CommandGroup::ScillaConfig.label(), "ScillaConfig");
}
