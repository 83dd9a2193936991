use scilla::misc::navigation::{AppNav, CommandSection, CommandSectionNav};

fn account_command_nav() -> CommandSectionNav {
    let section = CommandSection::Account;
    CommandSectionNav::new(section)
}

#[test]
fn navigation_test_max_depth() {
    assert_eq!(CommandSection::Cluster.max_depth(), 1);
    assert_eq!(CommandSection::Account.max_depth(), 2);
    assert_eq!(CommandSection::Config.max_depth(), 3);
    assert_eq!(CommandSection::Transaction.max_depth(), 3);
    assert_eq!(CommandSection::Vote.max_depth(), 5);
    assert_eq!(CommandSection::Stake.max_depth(), 8);
}

#[test]
fn navigation_nav_state_new() {
    let nav_state = account_command_nav();

    assert_eq!(nav_state.section(), CommandSection::Account);
    assert_eq!(nav_state.depth(), 1);
    assert!(nav_state.at_section_root());
}

#[test]
fn navigation_nav_state_forward() {
    let mut nav_state = account_command_nav();

    assert!(nav_state.push());

    assert_eq!(nav_state.depth(), 2);
}

#[test]
fn navigation_nav_state_backward() {
    let mut nav_state = account_command_nav();

    assert!(nav_state.push());

    assert_eq!(nav_state.depth(), 2);

    assert!(nav_state.pop());

    assert_eq!(nav_state.depth(), 1);
    assert!(nav_state.at_section_root());
}

#[test]
fn navigation_nav_state_reset() {
    let mut nav_state = account_command_nav();

    assert!(nav_state.push());

    assert_eq!(nav_state.depth(), 2);

    nav_state.reset();

    assert_eq!(nav_state.depth(), 1);
    assert!(nav_state.at_section_root());
}

#[test]
fn navigation_nav_state_section() {
    let nav_state = account_command_nav();

    assert_eq!(nav_state.section(), CommandSection::Account);
}

#[test]
fn navigation_app_nav() {
    let mut app_nav = AppNav::MainMenu;

    assert_eq!(app_nav, AppNav::MainMenu);

    app_nav.enter_section(CommandSection::Account);

    assert_eq!(app_nav.section(), Some(CommandSection::Account));

    app_nav.go_to_menu();

    assert_eq!(app_nav, AppNav::MainMenu);
}

#[test]
fn navigation_app_nav_enter_section() {
    let mut app_nav = AppNav::MainMenu;
    app_nav.enter_section(CommandSection::Account);

    assert_eq!(app_nav.section(), Some(CommandSection::Account));
    assert_eq!(app_nav.section_depth(), Some(1));
}

#[test]
fn navigation_app_nav_go_menu() {
    let mut app_nav = AppNav::MainMenu;
    app_nav.enter_section(CommandSection::Account);

    app_nav.go_to_menu();

    assert_eq!(app_nav, AppNav::MainMenu);
    assert_eq!(app_nav.section_depth(), None)
}

#[test]
fn navigation_app_nav_go_back() {
    let mut app_nav = AppNav::MainMenu;
    app_nav.enter_section(CommandSection::Account);

    app_nav.go_back();

    assert_eq!(app_nav, AppNav::MainMenu);
    assert_eq!(app_nav.section_depth(), None)
}

#[test]
fn navigation_app_nav_forward() {
    let mut app_nav = AppNav::MainMenu;
    app_nav.enter_section(CommandSection::Account);

    assert!(app_nav.forward());

    assert_eq!(app_nav.section(), Some(CommandSection::Account));
    assert_eq!(app_nav.section_depth(), Some(2));
}

#[test]
fn navigation_nav_state_push_at_max_depth() {
    let mut nav_state = account_command_nav();
    assert!(!nav_state.at_max_depth());

    // Account max_depth is 2, starts at 1
    assert!(nav_state.push());
    assert_eq!(nav_state.depth(), 2);
    assert!(nav_state.at_max_depth());

    // Should fail at max
    assert!(!nav_state.push());
    assert_eq!(nav_state.depth(), 2);
}

#[test]
fn nav_state_pop_at_root() {
    let mut nav_state = account_command_nav();
    assert!(nav_state.at_section_root());
    assert_eq!(nav_state.depth(), 1);

    assert!(!nav_state.pop());
    assert_eq!(nav_state.depth(), 1);
}

#[test]
fn navigation_app_nav_forward_at_main_menu() {
    let mut app_nav = AppNav::MainMenu;
    assert!(!app_nav.forward());
    assert_eq!(app_nav, AppNav::MainMenu);
}

#[test]
fn navigation_app_nav_forward_at_max_depth() {
    let mut app_nav = AppNav::MainMenu;
    app_nav.enter_section(CommandSection::Account);

    // Account: max_depth 2, starts at 1
    assert!(app_nav.forward());
    assert_eq!(app_nav.section_depth(), Some(2));

    // Should fail at max
    assert!(!app_nav.forward());
    assert_eq!(app_nav.section_depth(), Some(2));
}

#[test]
fn navigation_app_nav_go_back_at_main_menu() {
    let mut app_nav = AppNav::MainMenu;
    app_nav.go_back();
    assert_eq!(app_nav, AppNav::MainMenu);
}

#[test]
fn navigation_app_nav_go_back_from_nested_depth() {
    let mut app_nav = AppNav::MainMenu;
    app_nav.enter_section(CommandSection::Stake); // max_depth 8

    assert!(app_nav.forward());
    assert!(app_nav.forward());
    assert_eq!(app_nav.section_depth(), Some(3));

    app_nav.go_back();
    assert_eq!(app_nav.section_depth(), Some(2));
    assert_eq!(app_nav.section(), Some(CommandSection::Stake));
}

#[test]
fn navigation_app_nav_switch_section() {
    let mut app_nav = AppNav::MainMenu;
    app_nav.enter_section(CommandSection::Account);
    assert!(app_nav.forward());
    assert_eq!(app_nav.section_depth(), Some(2));

    // Switch directly to another section
    app_nav.enter_section(CommandSection::Stake);
    assert_eq!(app_nav.section(), Some(CommandSection::Stake));
    assert_eq!(app_nav.section_depth(), Some(1)); // Reset to section root
}

#[test]
fn app_nav_go_back_depth_two_then_exit() {
    let mut app_nav = AppNav::MainMenu;
    app_nav.enter_section(CommandSection::Account);
    assert!(app_nav.forward());
    assert_eq!(app_nav.section_depth(), Some(2));

    // First go_back: depth 2 -> 1, stays in section
    app_nav.go_back();
    assert_eq!(app_nav.section_depth(), Some(1));
    assert_eq!(app_nav.section(), Some(CommandSection::Account));

    // Second go_back: at root (depth 1) -> exits to main menu
    app_nav.go_back();
    assert_eq!(app_nav, AppNav::MainMenu);
}
