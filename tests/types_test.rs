use scilla::types::{AppNav, Section, SectionNav};

fn account_section_nav() -> SectionNav {
    let section = Section::Account;
    SectionNav::new(section)
}

#[test]
fn types_test_max_depth() {
    let section = Section::Account;
    assert_eq!(section.max_depth(), 6);
}

#[test]
fn types_nav_state_new() {
    let nav_state = account_section_nav();

    assert_eq!(nav_state.section(), Section::Account);
    assert_eq!(nav_state.depth(), 0);
}

#[test]
fn types_nav_state_forward() {
    let mut nav_state = account_section_nav();

    assert!(nav_state.push());

    assert_eq!(nav_state.depth(), 1);
}

#[test]
fn types_nav_state_backward() {
    let mut nav_state = account_section_nav();

    assert!(nav_state.push());

    assert_eq!(nav_state.depth(), 1);

    assert!(nav_state.pop());

    assert_eq!(nav_state.depth(), 0);
}

#[test]
fn types_nav_state_reset() {
    let mut nav_state = account_section_nav();

    assert!(nav_state.push());

    assert_eq!(nav_state.depth(), 1);

    nav_state.reset();

    assert_eq!(nav_state.depth(), 0);
}

#[test]
fn types_nav_state_section() {
    let nav_state = account_section_nav();

    assert_eq!(nav_state.section(), Section::Account);
}

#[test]
fn types_app_nav() {
    let mut app_nav = AppNav::MainMenu;

    assert_eq!(app_nav, AppNav::MainMenu);

    app_nav.enter_section(Section::Account);

    assert_eq!(app_nav.section(), Some(Section::Account));

    app_nav.go_to_menu();

    assert_eq!(app_nav, AppNav::MainMenu);
}

#[test]
fn types_app_nav_enter_section() {
    let mut app_nav = AppNav::MainMenu;
    app_nav.enter_section(Section::Account);

    assert_eq!(app_nav.section(), Some(Section::Account));
}

#[test]
fn types_app_nav_go_menu() {
    let mut app_nav = AppNav::MainMenu;
    app_nav.enter_section(Section::Account);

    app_nav.go_to_menu();

    assert_eq!(app_nav, AppNav::MainMenu);
    assert_eq!(app_nav.section_depth(), None)
}

#[test]
fn types_app_nav_go_back() {
    let mut app_nav = AppNav::MainMenu;
    app_nav.enter_section(Section::Account);

    app_nav.go_back();

    assert_eq!(app_nav, AppNav::MainMenu);
    assert_eq!(app_nav.section_depth(), None)
}

#[test]
fn types_app_nav_forward() {
    let mut app_nav = AppNav::MainMenu;
    app_nav.enter_section(Section::Account);

    assert!(app_nav.forward());

    assert_eq!(app_nav.section(), Some(Section::Account));
    assert_eq!(app_nav.section_depth(), Some(1));
}

#[test]
fn types_nav_state_push_at_max_depth() {
    let mut nav_state = account_section_nav();
    assert!(!nav_state.at_max_depth());
    // Push to max depth
    for _ in 0..6 {
        assert!(nav_state.push());
    }
    assert_eq!(nav_state.depth(), 6);
    assert!(nav_state.at_max_depth());
    // Should fail at max
    assert!(!nav_state.push());
    assert_eq!(nav_state.depth(), 6);
}

#[test]
fn nav_state_pop_at_zero() {
    let mut nav_state = account_section_nav();
    assert!(nav_state.at_root());
    assert!(!nav_state.pop());
    assert_eq!(nav_state.depth(), 0);
}

#[test]
fn types_app_nav_forward_at_main_menu() {
    let mut app_nav = AppNav::MainMenu;
    assert!(!app_nav.forward());
    assert_eq!(app_nav, AppNav::MainMenu);
}

#[test]
fn types_app_nav_forward_at_max_depth() {
    let mut app_nav = AppNav::MainMenu;
    app_nav.enter_section(Section::Account);
    // Push to max depth
    for _ in 0..6 {
        assert!(app_nav.forward());
    }
    assert_eq!(app_nav.section_depth(), Some(6));
    // Should fail at max
    assert!(!app_nav.forward());
    assert_eq!(app_nav.section_depth(), Some(6));
}

#[test]
fn types_app_nav_go_back_at_main_menu() {
    let mut app_nav = AppNav::MainMenu;
    app_nav.go_back();
    assert_eq!(app_nav, AppNav::MainMenu);
}

#[test]
fn types_app_nav_go_back_from_nested_depth() {
    let mut app_nav = AppNav::MainMenu;
    app_nav.enter_section(Section::Account);
    assert!(app_nav.forward());
    assert!(app_nav.forward());
    assert_eq!(app_nav.section_depth(), Some(2));

    app_nav.go_back();
    assert_eq!(app_nav.section_depth(), Some(1));
    assert_eq!(app_nav.section(), Some(Section::Account));
}

#[test]
fn types_app_nav_switch_section() {
    let mut app_nav = AppNav::MainMenu;
    app_nav.enter_section(Section::Account);
    assert!(app_nav.forward());
    assert_eq!(app_nav.section_depth(), Some(1));

    // Switch directly to another section
    app_nav.enter_section(Section::Stake);
    assert_eq!(app_nav.section(), Some(Section::Stake));
    assert_eq!(app_nav.section_depth(), Some(0)); // Reset to root
}

#[test]
fn app_nav_go_back_depth_one_then_exit() {
    let mut app_nav = AppNav::MainMenu;
    app_nav.enter_section(Section::Account);
    assert!(app_nav.forward());
    assert_eq!(app_nav.section_depth(), Some(1));

    // First go_back: depth 1 -> 0, stays in section
    app_nav.go_back();
    assert_eq!(app_nav.section_depth(), Some(0));
    assert_eq!(app_nav.section(), Some(Section::Account));

    // Second go_back: at root -> exits to main menu
    app_nav.go_back();
    assert_eq!(app_nav, AppNav::MainMenu);
}
