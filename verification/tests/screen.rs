use bopen::app::{AfterContainers, AfterLists, App, Focus, Key, KeyInput};
use bopen::browser::Browser;
use bopen::config::Config;
use bopen::pattern_manager::{FormField, PatternManager};
use bopen::profile::{BrowserFamily, Container, Profile};
use bopen::screen::{main_screen, manager_screen, pattern_line_text, ManagerBody, Mark, Tone};
use bopen::session::{after_patterns_key, route_key, session_over, KeyRoute, PatternsAfterKey};
use bopen::text::{center, decimal_string, split_at_byte};
use bopen::url_pattern::UrlPattern;
use std::path::PathBuf;

fn key(code: Key) -> KeyInput {
    KeyInput { code, ctrl: false }
}

fn browser(name: &str, command: &str) -> Browser {
    Browser { name: name.to_string(), command: command.to_string() }
}

fn profile(name: &str) -> Profile {
    Profile { name: name.to_string(), path: PathBuf::from(name), is_relative: false }
}

fn pattern(p: &str, browser: &str, profile: Option<&str>, incognito: bool, new_window: bool) -> UrlPattern {
    UrlPattern {
        pattern: p.to_string(),
        browser: browser.to_string(),
        profile: profile.map(|s| s.to_string()),
        container: None,
        incognito,
        new_window,
    }
}

#[test]
fn test_center_matches_format() {
    for s in ["", "a", "[o] Open", "[ ENTER ] Open", "exactly fifteen", "longer than fifteen chars", "héé"] {
        assert_eq!(center(s, 15), format!("{:^15}", s));
        assert_eq!(center(s, 20), format!("{:^20}", s));
    }
}

#[test]
fn test_decimal_string() {
    for n in [0usize, 7, 10, 42, 1000, 98765] {
        assert_eq!(decimal_string(n), n.to_string());
    }
}

#[test]
fn test_split_at_byte() {
    assert_eq!(split_at_byte("héllo", 3), ("hé".to_string(), "llo".to_string()));
    assert_eq!(split_at_byte("abc", 0), ("".to_string(), "abc".to_string()));
    assert_eq!(split_at_byte("abc", 3), ("abc".to_string(), "".to_string()));
}

#[test]
fn test_main_screen_url_and_lists() {
    let mut app = App::new(None, Config::default());
    let _ = app.refresh_browsers(vec![browser("Epiphany", "epiphany"), browser("Falkon", "falkon")]);
    for c in "ab".chars() {
        let _ = app.handle_key_event(key(Key::Char(c)));
    }
    let _ = app.handle_key_event(key(Key::Left));
    let s = main_screen(&app);
    assert_eq!(s.url.text, "> a_ b");
    assert_eq!(s.url.title, "[ TYPE to enter URL ]");
    assert_eq!(s.url.tone, Tone::Focused);
    assert_eq!(s.browser.items, vec!["Epiphany".to_string(), "Falkon".to_string()]);
    assert_eq!(s.browser.title, "Browser");
    assert_eq!(s.browser.tone, Tone::Plain);
    assert_eq!(s.browser.selected, Some(0));
    assert_eq!(s.browser.marks, vec![Mark::Plain, Mark::Plain]);
    assert_eq!(s.profile.items, vec!["Default".to_string()]);
    assert!(s.container.is_none());
    assert_eq!(
        s.options.text,
        format!("{}{} Incognito/Private     {}{} New Window", "[ ]", " [i]", "[ ]", " [w]")
    );
    assert_eq!(
        s.actions.text,
        format!("{:^15}   {:^15}   {:^15}", "[o] Open", "[c] Copy", "[q] Quit")
    );
    assert!(s.dropdown.is_none());

    let _ = app.handle_key_event(key(Key::Tab));
    let _ = app.handle_key_event(key(Key::Enter));
    let s = main_screen(&app);
    assert_eq!(s.url.text, "ab");
    assert_eq!(s.url.title, "URL");
    assert_eq!(s.browser.title, "[ ENTER to select ]");
    assert_eq!(s.browser.tone, Tone::Focused);
    let overlay = s.dropdown.expect("browser dropdown");
    assert_eq!(overlay.title, "Browser");
    assert_eq!(overlay.items.len(), 2);
    assert_eq!(overlay.selected, 0);
}

#[test]
fn test_main_screen_toggles_buttons_and_containers() {
    let mut app = App::new(Some("https://x".to_string()), Config::default());
    let _ = app.refresh_browsers(vec![browser("Firefox", "firefox %u")]);
    let _ = app.receive_profiles(BrowserFamily::Firefox, AfterLists::Done, vec![profile("a")]);
    let _ = app.receive_containers(
        AfterContainers::FinishLists(AfterLists::Done),
        vec![Container { name: "Work".to_string(), user_context_id: 2 }],
    );
    app.focus = Focus::IncognitoToggle;
    app.incognito = true;
    let s = main_screen(&app);
    let c = s.container.expect("container row");
    assert_eq!(c.items, vec!["Work".to_string()]);
    assert_eq!(c.selected, Some(0));
    assert_eq!(s.options.tone, Tone::Focused);
    assert_eq!(s.options.text, "[X] INC Incognito/Private     [ ] [w] New Window");
    app.focus = Focus::QuitButton;
    let s = main_screen(&app);
    assert_eq!(
        s.actions.text,
        format!("{:^15}   {:^15}   {:^15}", "[o] Open", "[c] Copy", "[ ESC ] Quit")
    );
    assert_eq!(s.actions.tone, Tone::Focused);
    app.set_error("boom".to_string());
    let s = main_screen(&app);
    assert_eq!(s.error.as_deref(), Some("boom"));
}

#[test]
fn test_pattern_line_text() {
    let p = pattern(".*github\\.com.*", "Firefox", Some("work"), true, true);
    let expected = format!(
        "{} {} | {} |{}{}",
        p.pattern,
        p.profile.as_ref().map(|x| format!("@ {}", x)).unwrap_or_default(),
        p.browser,
        " (private)",
        " (new window)"
    );
    assert_eq!(pattern_line_text(&p), expected);
    let q = pattern("bank", "Chromium", None, false, false);
    assert_eq!(pattern_line_text(&q), "bank  | Chromium |");
}

#[test]
fn test_manager_screen_list_and_empty() {
    let (pm, _) = PatternManager::new(&Config::default(), Vec::new());
    let s = manager_screen(&pm);
    assert_eq!(s.title, "URL Pattern Manager - Press 'a' to add, 'e' to edit, 'd' to delete");
    match s.body {
        ManagerBody::Empty(t) => assert_eq!(t, "No patterns configured. Press 'a' to add one."),
        _ => panic!("expected the empty hint"),
    }
    assert_eq!(s.help, "q/Esc: Close | ↑/↓: Navigate | a: Add | e: Edit | d: Delete");

    let mut config = Config::default();
    config.url_patterns = vec![pattern("a", "Firefox", None, false, false), pattern("b", "Chromium", None, false, true)];
    let (mut pm, _) = PatternManager::new(&config, Vec::new());
    let _ = pm.handle_key(key(Key::Down));
    let s = manager_screen(&pm);
    match s.body {
        ManagerBody::List(l) => {
            assert_eq!(l.title, "Patterns (2 total)");
            assert_eq!(l.items, vec!["a  | Firefox |".to_string(), "b  | Chromium | (new window)".to_string()]);
            assert_eq!(l.marks, vec![Mark::Plain, Mark::Highlighted]);
        }
        _ => panic!("expected the list"),
    }
}

#[test]
fn test_manager_screen_form() {
    let (mut pm, _) = PatternManager::new(&Config::default(), vec![browser("Epiphany", "epiphany"), browser("Falkon", "falkon")]);
    let _ = pm.start_add();
    for c in "x.y".chars() {
        let _ = pm.handle_key(key(Key::Char(c)));
    }
    let s = manager_screen(&pm);
    assert_eq!(s.title, "Add New Pattern");
    assert_eq!(s.help, "Tab: Next field | Esc: Cancel | Enter: Select/Save | ↑/↓: Navigate dropdown");
    let form = match s.body {
        ManagerBody::Form(f) => f,
        _ => panic!("expected the form"),
    };
    assert_eq!(form.pattern.text, "x.y_");
    assert_eq!(form.pattern.tone, Tone::Focused);
    assert_eq!(form.browser.title, "Browser - ENTER to select");
    assert_eq!(form.browser.marks, vec![Mark::Chosen, Mark::Plain]);
    assert_eq!(form.browser.selected, Some(0));
    assert!(form.container.is_none());
    assert_eq!(form.actions.text, format!("{:^20}   {:^20}", "[Tab] Save", "[Tab] Cancel"));

    pm.focused_field = FormField::Browser;
    let _ = pm.handle_key(key(Key::Enter));
    let _ = pm.handle_key(key(Key::Down));
    let s = manager_screen(&pm);
    let form = match s.body {
        ManagerBody::Form(f) => f,
        _ => panic!("expected the form"),
    };
    assert_eq!(form.browser.title, "Browser - ENTER to close");
    assert_eq!(form.browser.tone, Tone::Open);
    assert_eq!(form.browser.marks, vec![Mark::Plain, Mark::Highlighted]);
    let overlay = s.dropdown.expect("browser dropdown");
    assert_eq!(overlay.title, "Select Browser");
    assert_eq!(overlay.selected, 1);
}

#[test]
fn test_session_routes() {
    let ctrl = |c| KeyInput { code: Key::Char(c), ctrl: true };
    assert_eq!(route_key(false, ctrl('c')), KeyRoute::Quit);
    assert_eq!(route_key(true, ctrl('c')), KeyRoute::ClosePatternsThenScreen);
    assert_eq!(route_key(false, ctrl('p')), KeyRoute::OpenPatterns);
    assert_eq!(route_key(true, ctrl('p')), KeyRoute::Patterns);
    assert_eq!(route_key(false, key(Key::Char('p'))), KeyRoute::Screen);
    assert_eq!(route_key(true, key(Key::Tab)), KeyRoute::Patterns);
    assert_eq!(after_patterns_key(false, true), PatternsAfterKey::KeepOpen);
    assert_eq!(after_patterns_key(true, false), PatternsAfterKey::Close);
    assert_eq!(after_patterns_key(true, true), PatternsAfterKey::SaveAndClose);
    assert!(session_over(true, false));
    assert!(!session_over(true, true));
    assert!(!session_over(false, false));
}
