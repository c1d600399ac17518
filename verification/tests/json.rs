use bopen::json::{
    container_identities, identities_from, preferences_profile_name, profile_name_from, JsonValue,
};
use bopen::profile::{
    containers_from_identities, firefox_ini_dir, firefox_profiles, Container, ContainerIdentity,
    Profile,
};
use std::path::PathBuf;

fn identity(public: Option<bool>, name: Option<&str>, id: Option<u64>) -> ContainerIdentity {
    ContainerIdentity { public, name: name.map(|s| s.to_string()), user_context_id: id }
}

#[test]
fn test_container_identities_reads_the_fields() {
    let text = r#"{"version": 4, "identities": [
        {"public": true, "name": "userContextPersonal.label", "userContextId": 1, "icon": "x"},
        {"public": false, "name": "internal", "userContextId": 5},
        {"public": "yes", "name": 7, "userContextId": -2},
        3,
        {"userContextId": 4294967301}
    ]}"#;
    let ids = container_identities(text);
    assert_eq!(
        ids,
        vec![
            identity(Some(true), Some("userContextPersonal.label"), Some(1)),
            identity(Some(false), Some("internal"), Some(5)),
            identity(None, None, None),
            identity(None, None, Some(4294967301)),
        ]
    );
    assert_eq!(
        containers_from_identities(&ids),
        vec![Container { name: "Personal".to_string(), user_context_id: 1 }]
    );
}

#[test]
fn test_container_identities_without_identities() {
    assert!(container_identities("not json").is_empty());
    assert!(container_identities("[1, 2]").is_empty());
    assert!(container_identities(r#"{"identities": {"a": 1}}"#).is_empty());
    assert!(container_identities(r#"{"identities": []}"#).is_empty());
}

#[test]
fn test_preferences_profile_name() {
    let prefs = r#"{"profile": {"name": "Work", "avatar": 3}}"#;
    assert_eq!(preferences_profile_name(Some(prefs), "Profile 1"), "Work");
    assert_eq!(preferences_profile_name(Some(r#"{"profile": {"name": 3}}"#), "Default"), "Default");
    assert_eq!(preferences_profile_name(Some(r#"{"profile": "x"}"#), "Default"), "Default");
    assert_eq!(preferences_profile_name(Some("{"), "Default"), "Default");
    assert_eq!(preferences_profile_name(None, "Profile 2"), "Profile 2");
}

#[test]
fn test_firefox_profile_paths() {
    let dir = firefox_ini_dir("/home/u", "LibreWolf");
    assert_eq!(dir, PathBuf::from("/home/u/.mozilla/librewolf"));
    let contents = "[Profile0]\nName=default\nIsRelative=1\nPath=abc.default\n\n[Profile1]\nName=work\nIsRelative=0\nPath=/data/work\n";
    assert_eq!(
        firefox_profiles(&dir, contents),
        vec![
            Profile {
                name: "default".to_string(),
                path: PathBuf::from("/home/u/.mozilla/librewolf/abc.default"),
                is_relative: true,
            },
            Profile { name: "work".to_string(), path: PathBuf::from("/data/work"), is_relative: false },
        ]
    );
}

#[test]
fn test_containers_in_file() {
    let text = r#"{"identities": [
        {"public": true, "name": "userContextWork.label", "userContextId": 2},
        {"public": true, "name": "Gaming", "userContextId": 4294967303},
        {"public": false, "name": "thumbnail", "userContextId": 5},
        {"public": true, "name": "NoId"}
    ]}"#;
    assert_eq!(
        bopen::json::containers_in_file(Some(text)),
        vec![
            Container { name: "Work".to_string(), user_context_id: 2 },
            Container { name: "Gaming".to_string(), user_context_id: 7 },
        ]
    );
    assert!(bopen::json::containers_in_file(None).is_empty());
    assert!(bopen::json::containers_in_file(Some("{oops")).is_empty());
}

#[test]
fn test_firefox_profiles_for() {
    let ini = "[Profile0]\nName=default\nIsRelative=1\nPath=abc.default\n";
    assert_eq!(
        bopen::profile::firefox_profiles_for("/home/u", "firefox", Some(ini)),
        vec![Profile {
            name: "default".to_string(),
            path: PathBuf::from("/home/u/.mozilla/firefox/abc.default"),
            is_relative: true,
        }]
    );
    assert!(bopen::profile::firefox_profiles_for("/home/u", "firefox", None).is_empty());
}

#[test]
fn test_chromium_profiles_order_and_names() {
    let config = PathBuf::from("/home/u/.config/chromium");
    let dirs = vec![
        ("Profile 2".to_string(), Some(r#"{"profile": {"name": "Work"}}"#.to_string())),
        ("Default".to_string(), Some(r#"{"profile": {"name": "Me"}}"#.to_string())),
        ("Crashpad".to_string(), None),
        ("Profile 1".to_string(), None),
    ];
    let prefs = r#"{"profile": {"name": "Me"}}"#;
    assert_eq!(
        bopen::profile::chromium_profiles(&config, Some(Some(prefs)), &dirs),
        vec![
            Profile { name: "Me".to_string(), path: config.join("Default"), is_relative: false },
            Profile { name: "Work".to_string(), path: config.join("Profile 2"), is_relative: false },
            Profile { name: "Profile 1".to_string(), path: config.join("Profile 1"), is_relative: false },
        ]
    );
    assert_eq!(
        bopen::profile::chromium_profiles(&config, Some(None), &Vec::new()),
        vec![Profile { name: "Default".to_string(), path: config.join("Default"), is_relative: false }]
    );
    assert!(bopen::profile::chromium_profiles(&config, None, &Vec::new()).is_empty());
}

#[test]
fn test_parsed_json_readers() {
    let v = JsonValue::Object(vec![(
        "profile".to_string(),
        JsonValue::Object(vec![("name".to_string(), JsonValue::Str("Work".to_string()))]),
    )]);
    assert_eq!(profile_name_from(Some(&v), "x"), "Work");
    assert_eq!(profile_name_from(None, "x"), "x");
    let ids = JsonValue::Object(vec![(
        "identities".to_string(),
        JsonValue::Array(vec![JsonValue::Object(vec![
            ("public".to_string(), JsonValue::Bool(true)),
            ("userContextId".to_string(), JsonValue::Number(Some(9))),
        ])]),
    )]);
    assert_eq!(identities_from(Some(&ids)), vec![identity(Some(true), None, Some(9))]);
    assert!(identities_from(None).is_empty());
}
