use polyhorn::cli::{cli_is_current, cli_version, find_cli_key, launch, manifest_argument, needs_lockfile, version_field, Launch, ParsedVersion};
use polyhorn::styles::{PositionType, Visibility};
use polyhorn::taxi::{DismissAction, ModalContainer, ModalStack, ScreenContainer, ScreenState, Stack, TabBarItem};
use semver::Version;

fn strings(items: &[&str]) -> Vec<String> {
    items.iter().map(|s| s.to_string()).collect()
}

#[test]
fn test_stack_navigation() {
    let mut stack = Stack::new("home");
    assert_eq!(stack.depth(), 0);
    assert!(!stack.has_back_button());
    stack.navigate("settings");
    stack.navigate("about");
    assert_eq!(stack.depth(), 2);
    assert_eq!(*stack.active(), "about");
    assert_eq!(stack.container_depth(0), 2);
    assert_eq!(stack.container_depth(2), 0);
    assert!(stack.has_back_button());
    stack.pop();
    assert_eq!(stack.screens(), &vec!["home", "settings"]);
    stack.back_press();
    stack.back_press();
    assert_eq!(stack.screens(), &vec!["home"]);
}

#[test]
fn test_screen_container() {
    let active = ScreenContainer { screen: (), depth: 0 };
    let background = ScreenContainer { screen: (), depth: 1 };
    let idle = ScreenContainer { screen: (), depth: 2 };
    assert_eq!(active.state(), ScreenState::Foreground);
    assert_eq!(background.state(), ScreenState::Background);
    assert_eq!(idle.state(), ScreenState::Idle);
    assert_eq!(active.position(), PositionType::Relative);
    assert_eq!(background.position(), PositionType::Absolute);
    assert_eq!(background.visibility(), Visibility::Visible);
    assert_eq!(idle.visibility(), Visibility::Hidden);
}

#[test]
fn test_modal_stack() {
    let mut modal = ModalStack::new(1);
    modal.navigate(2);
    assert!(!modal.is_modal(0));
    assert!(modal.is_modal(1));
    modal.pop();
    modal.pop();
    assert!(modal.screens().is_empty());
    modal.pop();
    assert!(modal.screens().is_empty());
}

#[test]
fn test_tab_bar_item() {
    let selected = TabBarItem::new(1, 1, "Feed".to_string());
    let other = TabBarItem::new(0, 1, "Home".to_string());
    assert!(selected.selected);
    assert_eq!(selected.tint(), 0x007AFF);
    assert!(!other.selected);
    assert_eq!(other.tint(), 0x8E8E93);
}

#[test]
fn test_manifest_argument() {
    let args = strings(&["polyhorn", "run", "--manifest-path", "app/Cargo.toml"]);
    assert_eq!(manifest_argument(&args), Some(3));
    assert_eq!(manifest_argument(&strings(&["polyhorn", "--manifest-path"])), None);
    assert_eq!(manifest_argument(&strings(&["polyhorn", "run"])), None);
}

#[test]
fn test_lockfile_needed() {
    assert!(needs_lockfile(true, false));
    assert!(!needs_lockfile(true, true));
    assert!(!needs_lockfile(false, false));
}

#[test]
fn test_cli_version() {
    let keys = strings(&["serde 1.0.0 (registry+https://github.com/rust-lang/crates.io-index)", "polyhorn-cli 0.4.2 (registry+https://github.com/rust-lang/crates.io-index)"]);
    assert_eq!(find_cli_key(&keys), Some(1));
    assert_eq!(version_field(&keys[1]), Some("0.4.2"));
    assert_eq!(version_field("polyhorn-cli 1.2.3"), Some("1.2.3"));
    assert_eq!(version_field("nospace"), None);
    let installed = cli_version(&keys).unwrap();
    assert_eq!(installed.version(), &Version::new(0, 4, 2));
    assert_eq!(installed.text(), "0.4.2");
    assert!(cli_version(&strings(&["polyhorn-cli x.y"])).is_none());
    assert!(cli_version(&strings(&["other 1.0.0"])).is_none());
}

#[test]
fn test_cli_is_current() {
    let package = ParsedVersion::parse("0.4.0").unwrap();
    let newer = ParsedVersion::parse("0.4.2").unwrap();
    let older = ParsedVersion::parse("0.3.9").unwrap();
    assert!(cli_is_current(Some(&newer), &package));
    assert!(cli_is_current(Some(&package), &package));
    assert!(!cli_is_current(Some(&older), &package));
    assert!(cli_is_current(Some(&ParsedVersion::parse("0.10.0").unwrap()), &ParsedVersion::parse("0.9.0").unwrap()));
    assert!(!cli_is_current(None, &package));
    assert!(ParsedVersion::parse("x.y").is_none());
    assert_eq!(newer.version(), &Version::new(0, 4, 2));
}

#[test]
fn test_launch() {
    let args = strings(&["polyhorn", "run", "ios"]);
    assert_eq!(launch(Some(true), &args), Launch::Forward { install: false });
    assert_eq!(launch(Some(false), &args), Launch::Forward { install: true });
    assert_eq!(launch(None, &strings(&["polyhorn", "new", "demo"])), Launch::New("demo".to_string()));
    assert_eq!(launch(None, &args), Launch::NotInstalled);
}

#[test]
fn test_modal_container() {
    let mut container = ModalContainer::new();
    assert!(!container.is_safe_to_remove(false));
    assert_eq!(container.dismiss(true), DismissAction::Dismiss);
    assert!(container.dismissed);
    assert!(!container.is_safe_to_remove(true));
    assert!(container.is_safe_to_remove(false));
    let mut leaving = ModalContainer::new();
    assert_eq!(leaving.dismiss(false), DismissAction::Remove);
}
