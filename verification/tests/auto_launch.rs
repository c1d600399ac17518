use bopen::auto_launch::{pick_browser, pick_container, pick_profile, wants_containers};
use bopen::browser::Browser;
use bopen::profile::{Container, Profile};
use std::path::PathBuf;

fn browser(name: &str) -> Browser {
    Browser { name: name.to_string(), command: name.to_lowercase() }
}

fn profile(name: &str) -> Profile {
    Profile { name: name.to_string(), path: PathBuf::from(name), is_relative: true }
}

fn container(name: &str, id: u32) -> Container {
    Container { name: name.to_string(), user_context_id: id }
}

#[test]
fn test_pick_browser_first_with_name() {
    let bs = vec![browser("Chromium"), browser("Firefox"), browser("Firefox")];
    assert_eq!(pick_browser(&bs, "Firefox"), Some(1));
    assert_eq!(pick_browser(&bs, "Chromium"), Some(0));
    assert_eq!(pick_browser(&bs, "firefox"), None);
    assert_eq!(pick_browser(&Vec::new(), "Firefox"), None);
}

#[test]
fn test_pick_profile_named_or_first() {
    let ps = vec![profile("default"), profile("work")];
    assert_eq!(pick_profile(&ps, Some("work")), Some(1));
    assert_eq!(pick_profile(&ps, Some("home")), None);
    assert_eq!(pick_profile(&ps, None), Some(0));
    assert_eq!(pick_profile(&Vec::new(), None), None);
}

#[test]
fn test_wants_containers() {
    assert!(wants_containers(Some("Work"), "firefox"));
    assert!(wants_containers(Some("Work"), "LibreWolf"));
    assert!(!wants_containers(Some("Work"), "chromium"));
    assert!(!wants_containers(None, "firefox"));
}

#[test]
fn test_pick_container() {
    let cs = vec![container("Personal", 1), container("Work", 2)];
    assert_eq!(pick_container(&cs, Some("Work")), Some(1));
    assert_eq!(pick_container(&cs, Some("Banking")), None);
    assert_eq!(pick_container(&cs, None), None);
}
