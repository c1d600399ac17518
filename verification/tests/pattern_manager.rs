use bopen::app::{Key, KeyInput};
use bopen::browser::Browser;
use bopen::config::Config;
use bopen::pattern_manager::{
    AfterFormContainers, AfterProfiles, FormField, PatternManager, PatternManagerMode,
    PatternRequest,
};
use bopen::profile::{BrowserFamily, Container, Profile};
use bopen::url_pattern::UrlPattern;
use std::path::PathBuf;

fn key(code: Key) -> KeyInput {
    KeyInput { code, ctrl: false }
}

fn pattern(p: &str, browser: &str) -> UrlPattern {
    UrlPattern {
        pattern: p.to_string(),
        browser: browser.to_string(),
        profile: None,
        container: None,
        incognito: false,
        new_window: false,
    }
}

#[test]
fn test_pattern_manager_new() {
    let config = Config::default();
    let (manager, _) = PatternManager::new(&config, Vec::new());
    assert_eq!(manager.mode, PatternManagerMode::List);
    assert!(manager.patterns.is_empty());
}

#[test]
fn test_add_pattern() {
    let config = Config::default();
    let (mut manager, _) = PatternManager::new(&config, Vec::new());

    manager.start_add();
    assert_eq!(manager.mode, PatternManagerMode::Add);

    manager.form.pattern = r".*github\.com.*".to_string();
    manager.form.browser = "Firefox".to_string();
    manager.form.profile = "work".to_string();

    manager.save_form();

    assert_eq!(manager.mode, PatternManagerMode::List);
    assert_eq!(manager.patterns.len(), 1);
    assert!(manager.modified);
}

#[test]
fn test_delete_pattern() {
    let mut config = Config::default();
    config.url_patterns.push(UrlPattern {
        pattern: r".*test.*".to_string(),
        browser: "Firefox".to_string(),
        profile: None,
        container: None,
        incognito: false,
        new_window: false,
    });

    let (mut manager, _) = PatternManager::new(&config, Vec::new());
    assert_eq!(manager.patterns.len(), 1);

    manager.delete_selected();
    assert!(manager.patterns.is_empty());
    assert!(manager.modified);
}

#[test]
fn test_invalid_pattern_validation() {
    let config = Config::default();
    let (mut manager, _) = PatternManager::new(&config, Vec::new());

    manager.start_add();
    manager.form.pattern = "[invalid".to_string();
    manager.form.browser = "Firefox".to_string();

    manager.save_form();

    assert_eq!(manager.mode, PatternManagerMode::Add);
    assert!(manager.error.is_some());
}

#[test]
fn saved_pattern_keeps_form_fields_and_blank_fields_become_none() {
    let config = Config::default();
    let (mut manager, _) = PatternManager::new(&config, Vec::new());
    manager.start_add();
    manager.form.pattern = "example".to_string();
    manager.form.browser = "Brave".to_string();
    manager.form.profile = "   ".to_string();
    manager.form.container = "Work".to_string();
    manager.form.new_window = true;
    manager.save_form();
    let p = &manager.patterns[0];
    assert_eq!(p.pattern, "example");
    assert_eq!(p.browser, "Brave");
    assert_eq!(p.profile, None);
    assert_eq!(p.container, Some("Work".to_string()));
    assert!(p.new_window);
    assert_eq!(manager.info, Some("Pattern added".to_string()));
}

#[test]
fn save_refuses_blank_pattern_and_blank_browser() {
    let config = Config::default();
    let (mut manager, _) = PatternManager::new(&config, Vec::new());
    manager.start_add();
    manager.form.pattern = "  ".to_string();
    manager.form.browser = "Firefox".to_string();
    manager.save_form();
    assert_eq!(manager.error, Some("Pattern cannot be empty".to_string()));
    manager.form.pattern = "a".to_string();
    manager.form.browser = "".to_string();
    manager.save_form();
    assert_eq!(manager.error, Some("Browser cannot be empty".to_string()));
    assert!(manager.patterns.is_empty());
    assert_eq!(manager.mode, PatternManagerMode::Add);
}

#[test]
fn invalid_pattern_message_names_the_pattern() {
    let config = Config::default();
    let (mut manager, _) = PatternManager::new(&config, Vec::new());
    manager.start_add();
    manager.form.pattern = "(oops".to_string();
    manager.form.browser = "Firefox".to_string();
    manager.save_form();
    let e = manager.error.clone().unwrap();
    assert!(e.starts_with("Invalid pattern: Invalid regex pattern '(oops': "));
}

#[test]
fn delete_with_no_patterns_is_an_error() {
    let config = Config::default();
    let (mut manager, _) = PatternManager::new(&config, Vec::new());
    manager.delete_selected();
    assert_eq!(manager.error, Some("No patterns to delete".to_string()));
    assert!(!manager.modified);
}

#[test]
fn delete_last_moves_selection_back() {
    let mut config = Config::default();
    config.url_patterns.push(pattern("a", "X"));
    config.url_patterns.push(pattern("b", "X"));
    config.url_patterns.push(pattern("c", "X"));
    let (mut manager, _) = PatternManager::new(&config, Vec::new());
    manager.previous_pattern();
    assert_eq!(manager.selected_index, 2);
    manager.delete_selected();
    assert_eq!(manager.selected_index, 1);
    assert_eq!(manager.patterns.len(), 2);
    assert_eq!(manager.patterns[1].pattern, "b");
    assert_eq!(manager.info, Some("Pattern deleted".to_string()));
}

#[test]
fn pattern_selection_wraps_and_round_trips() {
    let mut config = Config::default();
    config.url_patterns.push(pattern("a", "X"));
    config.url_patterns.push(pattern("b", "X"));
    let (mut manager, _) = PatternManager::new(&config, Vec::new());
    manager.next_pattern();
    assert_eq!(manager.selected_index, 1);
    manager.next_pattern();
    assert_eq!(manager.selected_index, 0);
    manager.previous_pattern();
    assert_eq!(manager.selected_index, 1);
    manager.next_pattern();
    assert_eq!(manager.selected_index, 0);
}

#[test]
fn edit_replaces_selected_pattern() {
    let mut config = Config::default();
    config.url_patterns.push(pattern("a", "X"));
    config.url_patterns.push(pattern("b", "Y"));
    let (mut manager, _) = PatternManager::new(&config, Vec::new());
    manager.next_pattern();
    let req = manager.start_edit();
    assert!(matches!(req, PatternRequest::Nothing));
    assert_eq!(manager.mode, PatternManagerMode::Edit);
    assert_eq!(manager.form.pattern, "b");
    assert_eq!(manager.form.browser, "Y");
    assert_eq!(manager.pattern_cursor_pos, 1);
    manager.form.pattern = "bb".to_string();
    manager.save_form();
    assert_eq!(manager.patterns[1].pattern, "bb");
    assert_eq!(manager.patterns[0].pattern, "a");
    assert_eq!(manager.info, Some("Pattern updated".to_string()));
}

#[test]
fn edit_without_patterns_is_an_error() {
    let config = Config::default();
    let (mut manager, _) = PatternManager::new(&config, Vec::new());
    manager.start_edit();
    assert_eq!(manager.error, Some("No patterns to edit".to_string()));
    assert_eq!(manager.mode, PatternManagerMode::List);
}

#[test]
fn form_toggles_are_exclusive() {
    let config = Config::default();
    let (mut manager, _) = PatternManager::new(&config, Vec::new());
    manager.toggle_incognito();
    assert!(manager.form.incognito);
    manager.toggle_new_window();
    assert!(manager.form.new_window);
    assert!(!manager.form.incognito);
    manager.toggle_incognito();
    assert!(manager.form.incognito && !manager.form.new_window);
}

#[test]
fn typing_edits_the_pattern_at_the_cursor() {
    let config = Config::default();
    let (mut manager, _) = PatternManager::new(&config, Vec::new());
    manager.handle_key(key(Key::Char('a')));
    assert_eq!(manager.mode, PatternManagerMode::Add);
    for c in ['x', 'y', 'z'] {
        manager.handle_key(key(Key::Char(c)));
    }
    assert_eq!(manager.form.pattern, "xyz");
    manager.handle_key(key(Key::Left));
    manager.handle_key(key(Key::Backspace));
    assert_eq!(manager.form.pattern, "xz");
    assert_eq!(manager.pattern_cursor_pos, 1);
    manager.handle_key(key(Key::Delete));
    assert_eq!(manager.form.pattern, "x");
    manager.handle_key(key(Key::Esc));
    assert_eq!(manager.mode, PatternManagerMode::List);
    manager.handle_key(key(Key::Char('q')));
    assert!(manager.should_close);
}

#[test]
fn field_focus_round_trips() {
    let config = Config::default();
    let (mut manager, _) = PatternManager::new(&config, Vec::new());
    manager.start_add();
    let order = [
        FormField::Pattern,
        FormField::Browser,
        FormField::Profile,
        FormField::Incognito,
        FormField::NewWindow,
        FormField::SaveButton,
        FormField::CancelButton,
        FormField::Pattern,
    ];
    for w in order.windows(2) {
        assert_eq!(manager.focused_field, w[0]);
        manager.next_field();
        assert_eq!(manager.focused_field, w[1]);
        manager.previous_field();
        assert_eq!(manager.focused_field, w[0]);
        manager.next_field();
    }
}

#[test]
fn profile_and_container_requests_follow_the_browser() {
    let config = Config::default();
    let browsers = vec![Browser { name: "Firefox".to_string(), command: "firefox %u".to_string() }];
    let (mut pm, req) = PatternManager::new(&config, browsers);
    assert_eq!(pm.form.browser, "Firefox");
    let then = match req {
        PatternRequest::Profiles { family, binary_name, then } => {
            assert_eq!(family, BrowserFamily::Firefox);
            assert_eq!(binary_name, "firefox");
            then
        }
        other => panic!("unexpected {:?}", other),
    };
    let profiles = vec![
        Profile { name: "work".to_string(), path: PathBuf::from("/w"), is_relative: false },
        Profile { name: "home".to_string(), path: PathBuf::from("/h"), is_relative: false },
    ];
    let req = pm.receive_profiles(then, profiles);
    assert_eq!(pm.form.profile, "work");
    let then = match req {
        PatternRequest::Containers { profile_index, then } => {
            assert_eq!(profile_index, 0);
            assert_eq!(then, AfterFormContainers::FinishProfiles(AfterProfiles::Done));
            then
        }
        other => panic!("unexpected {:?}", other),
    };
    let containers = vec![Container { name: "Work".to_string(), user_context_id: 2 }];
    let req = pm.receive_containers(then, containers);
    assert!(matches!(req, PatternRequest::Nothing));
    assert_eq!(pm.form.container, "Work");
    assert!(pm.is_container_field_visible());
}

#[test]
fn save_to_config_copies_patterns() {
    let mut config = Config::default();
    config.url_patterns.push(pattern("a", "X"));
    let (mut manager, _) = PatternManager::new(&config, Vec::new());
    manager.delete_selected();
    config.last_incognito = true;
    manager.save_to_config(&mut config);
    assert!(config.url_patterns.is_empty());
    assert!(config.last_incognito);
}

#[test]
fn pattern_type_then_backspace_restores_pattern() {
    let (mut manager, _) = PatternManager::new(&Config::default(), Vec::new());
    manager.start_add();
    for c in "ab".chars() {
        manager.handle_key(key(Key::Char(c)));
    }
    manager.handle_key(key(Key::Left));
    manager.handle_key(key(Key::Char('ß')));
    assert_eq!(manager.form.pattern, "aßb");
    manager.handle_key(key(Key::Backspace));
    assert_eq!(manager.form.pattern, "ab");
    assert_eq!(manager.pattern_cursor_pos, 1);
}

#[test]
fn reopened_manager_lists_saved_patterns() {
    let mut config = Config::default();
    config.url_patterns = vec![pattern("a", "Firefox")];
    let (mut manager, _) = PatternManager::new(&config, Vec::new());
    manager.start_add();
    for c in "b".chars() {
        manager.handle_key(key(Key::Char(c)));
    }
    manager.form.browser = "Chromium".to_string();
    manager.save_form();
    assert!(manager.modified);
    manager.save_to_config(&mut config);
    let (again, _) = PatternManager::new(&config, Vec::new());
    assert_eq!(again.patterns, manager.patterns);
    assert_eq!(again.mode, PatternManagerMode::List);
    assert_eq!(again.selected_index, 0);
    assert!(!again.modified);
}

#[test]
fn pattern_cursor_moves_over_whole_characters() {
    let (mut manager, _) = PatternManager::new(&Config::default(), Vec::new());
    manager.start_add();
    for c in "é€".chars() {
        manager.handle_key(key(Key::Char(c)));
    }
    assert_eq!(manager.pattern_cursor_pos, 5);
    manager.handle_key(key(Key::Left));
    assert_eq!(manager.pattern_cursor_pos, 2);
    manager.handle_key(key(Key::Delete));
    assert_eq!(manager.form.pattern, "é");
    manager.handle_key(key(Key::Backspace));
    assert_eq!(manager.form.pattern, "");
    assert_eq!(manager.pattern_cursor_pos, 0);
    assert!(manager.well_formed());
}

#[test]
fn edit_keeps_the_pattern_profile_and_container() {
    let mut config = Config::default();
    let mut p = pattern("a", "Firefox");
    p.profile = Some("work".to_string());
    p.container = Some("Banking".to_string());
    config.url_patterns = vec![p];
    // No browser is available: the form keeps the pattern's values.
    let (mut manager, _) = PatternManager::new(&config, Vec::new());
    let r = manager.start_edit();
    assert!(matches!(r, PatternRequest::Nothing));
    assert_eq!(manager.form.profile, "work");
    assert_eq!(manager.form.container, "Banking");

    // The browser is there and has the profile and the container.
    let browsers = vec![Browser { name: "Firefox".to_string(), command: "firefox %u".to_string() }];
    let (mut manager, r) = PatternManager::new(&config, browsers);
    if let PatternRequest::Profiles { then, .. } = r {
        manager.receive_profiles(then, vec![]);
    }
    let r = manager.start_edit();
    let then = match r {
        PatternRequest::Profiles { then, .. } => then,
        other => panic!("unexpected request {:?}", other),
    };
    let profiles = vec![
        Profile { name: "default".to_string(), path: PathBuf::from("/p/d"), is_relative: false },
        Profile { name: "work".to_string(), path: PathBuf::from("/p/w"), is_relative: false },
    ];
    let mut r = manager.receive_profiles(then, profiles);
    let mut asked = Vec::new();
    while let PatternRequest::Containers { profile_index, then } = r {
        asked.push(profile_index);
        let found = if profile_index == 1 {
            vec![
                Container { name: "Personal".to_string(), user_context_id: 1 },
                Container { name: "Banking".to_string(), user_context_id: 3 },
            ]
        } else {
            Vec::new()
        };
        r = manager.receive_containers(then, found);
    }
    assert!(matches!(r, PatternRequest::Nothing));
    assert_eq!(asked.last(), Some(&1));
    assert_eq!(manager.form.profile, "work");
    assert_eq!(manager.form.container, "Banking");
    assert_eq!(manager.selected_profile_index, 1);
    assert_eq!(manager.selected_container_index, 1);
    assert_eq!(manager.mode, PatternManagerMode::Edit);
}

#[test]
fn failed_save_keeps_the_manager_open() {
    let (mut manager, _) = PatternManager::new(&Config::default(), Vec::new());
    manager.should_close = true;
    manager.save_failed("disk full".to_string());
    assert!(!manager.should_close);
    assert_eq!(manager.error.as_deref(), Some("Failed to save: disk full"));
}

#[test]
fn dropdown_escape_and_enter_only_close_it() {
    let browsers = vec![
        Browser { name: "Epiphany".to_string(), command: "epiphany".to_string() },
        Browser { name: "Falkon".to_string(), command: "falkon".to_string() },
    ];
    let (mut manager, _) = PatternManager::new(&Config::default(), browsers);
    manager.start_add();
    manager.focused_field = FormField::Browser;
    for code in [Key::Esc, Key::Enter] {
        manager.handle_key(key(Key::Enter));
        assert_eq!(manager.dropdown_open, Some(FormField::Browser));
        manager.handle_key(key(Key::Down));
        assert_eq!(manager.selected_browser_index, 1);
        assert_eq!(manager.form.browser, "Falkon");
        manager.handle_key(key(code));
        assert_eq!(manager.dropdown_open, None);
        assert_eq!(manager.mode, PatternManagerMode::Add);
        assert_eq!(manager.form.browser, "Falkon");
        manager.handle_key(key(Key::Enter));
        manager.handle_key(key(Key::Down));
        manager.handle_key(key(Key::Esc));
        assert_eq!(manager.form.browser, "Epiphany");
    }
}
