use bopen::profile::{
    browser_family, chromium_config_dir, containers_from_identities, detect_unknown_profiles,
    display_name, firefox_profiles_dir, is_chromium_based, is_firefox_based, is_profile_dir_name,
    parse_profiles_ini, BrowserFamily, Container, ContainerIdentity, IniProfile, Profile,
};
use std::path::PathBuf;

fn ini(name: &str, path: &str, rel: bool) -> IniProfile {
    IniProfile { name: name.to_string(), path: path.to_string(), is_relative: rel }
}

fn identity(public: Option<bool>, name: Option<&str>, id: Option<u64>) -> ContainerIdentity {
    ContainerIdentity { public, name: name.map(|s| s.to_string()), user_context_id: id }
}

fn container(name: &str, id: u32) -> Container {
    Container { name: name.to_string(), user_context_id: id }
}

#[test]
fn test_detect_unknown_profiles_is_default() {
    assert_eq!(
        detect_unknown_profiles(),
        vec![Profile { name: "Default".to_string(), path: PathBuf::new(), is_relative: false }]
    );
}

#[test]
fn test_firefox_based_ignores_case() {
    assert!(is_firefox_based("firefox"));
    assert!(is_firefox_based("FireFox-ESR"));
    assert!(is_firefox_based("/usr/bin/LibreWolf"));
    assert!(is_firefox_based("waterfox-g"));
    assert!(!is_firefox_based("chromium"));
    assert!(!is_firefox_based(""));
}

#[test]
fn test_chromium_based() {
    assert!(is_chromium_based("google-chrome"));
    assert!(is_chromium_based("Chromium"));
    assert!(is_chromium_based("brave-browser"));
    assert!(is_chromium_based("vivaldi"));
    assert!(is_chromium_based("OPERA"));
    assert!(is_chromium_based("google-chrome-stable"));
    assert!(is_chromium_based("microsoft-edge-beta"));
    assert!(!is_chromium_based("vivaldi-stable"));
    assert!(!is_chromium_based("epiphany"));
}

#[test]
fn test_browser_family_prefers_firefox() {
    assert_eq!(browser_family("firefox"), BrowserFamily::Firefox);
    assert_eq!(browser_family("chromium"), BrowserFamily::Chromium);
    assert_eq!(browser_family("epiphany"), BrowserFamily::Other);
    // mentions both: Firefox-based wins
    assert_eq!(browser_family("firefox-edge"), BrowserFamily::Firefox);
}

#[test]
fn test_firefox_profiles_dir() {
    assert_eq!(firefox_profiles_dir("firefox"), "firefox");
    assert_eq!(firefox_profiles_dir("LibreWolf"), "librewolf");
    assert_eq!(firefox_profiles_dir("waterfox"), "waterfox");
    assert_eq!(firefox_profiles_dir("something"), "firefox");
}

#[test]
fn test_chromium_config_dir() {
    assert_eq!(chromium_config_dir("google-chrome"), vec!["google-chrome".to_string()]);
    assert_eq!(chromium_config_dir("chromium-browser"), vec!["chromium".to_string()]);
    assert_eq!(
        chromium_config_dir("brave-browser"),
        vec!["BraveSoftware".to_string(), "Brave-Browser".to_string()]
    );
    assert_eq!(chromium_config_dir("microsoft-edge"), vec!["microsoft-edge".to_string()]);
    assert_eq!(chromium_config_dir("thorium"), vec!["thorium".to_string()]);
}

#[test]
fn test_is_profile_dir_name() {
    assert!(is_profile_dir_name("Profile 1"));
    assert!(is_profile_dir_name("Profile "));
    assert!(!is_profile_dir_name("Profile"));
    assert!(!is_profile_dir_name("Default"));
    assert!(!is_profile_dir_name("System Profile"));
}

#[test]
fn test_parse_profiles_ini() {
    let contents = "[General]\nStartWithLastProfile=1\n\n\
[Profile0]\nName=default\nIsRelative=1\nPath=abc.default\nDefault=1\n\n\
[Profile1]\nName = work \nIsRelative=0\nPath=/home/u/work=1\n\n\
; comment\n[Profile2]\nName=incomplete\nPath=x\n\n\
[Install123]\nDefault=abc.default\n";
    assert_eq!(
        parse_profiles_ini(contents),
        vec![ini("default", "abc.default", true), ini("work", "/home/u/work=1", false)]
    );
}

#[test]
fn test_parse_profiles_ini_last_section_and_empty() {
    assert_eq!(parse_profiles_ini("[P]\r\nName=a\r\nPath=p\r\nIsRelative=yes"), vec![ini("a", "p", false)]);
    assert!(parse_profiles_ini("").is_empty());
    assert!(parse_profiles_ini("Name=a\nPath=p\nIsRelative=1\n").len() == 1);
}

#[test]
fn test_display_name() {
    assert_eq!(display_name("userContextPersonal.label"), "Personal");
    assert_eq!(display_name("userContextWork.label"), "Work");
    assert_eq!(display_name("userContextBanking.label"), "Banking");
    assert_eq!(display_name("userContextShopping.label"), "Shopping");
    assert_eq!(display_name("Gaming"), "Gaming");
}

#[test]
fn test_containers_from_identities() {
    let ids = vec![
        identity(Some(true), Some("userContextPersonal.label"), Some(1)),
        identity(Some(false), Some("userContextIdInternal.thumbnail"), Some(2)),
        identity(None, Some("NoFlag"), Some(3)),
        identity(Some(true), None, Some(4)),
        identity(Some(true), Some("NoId"), None),
        identity(Some(true), Some("Big"), Some((1u64 << 32) + 5)),
        identity(Some(true), Some("userContextShopping.label"), Some(6)),
    ];
    assert_eq!(
        containers_from_identities(&ids),
        vec![container("Personal", 1), container("Big", 5), container("Shopping", 6)]
    );
    assert!(containers_from_identities(&Vec::new()).is_empty());
}
