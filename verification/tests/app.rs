use bopen::app::{AfterContainers, AfterLists, App, AppRequest, Focus, Key, KeyInput};
use bopen::browser::Browser;
use bopen::config::Config;
use bopen::profile::{BrowserFamily, Container, Profile};
use std::path::PathBuf;

fn key(code: Key) -> KeyInput {
    KeyInput { code, ctrl: false }
}

fn browser(name: &str, command: &str) -> Browser {
    Browser { name: name.to_string(), command: command.to_string() }
}

fn profile(name: &str) -> Profile {
    Profile { name: name.to_string(), path: PathBuf::from(format!("/p/{}", name)), is_relative: false }
}

fn container(name: &str, id: u32) -> Container {
    Container { name: name.to_string(), user_context_id: id }
}

fn default_profile() -> Profile {
    Profile { name: "Default".to_string(), path: PathBuf::new(), is_relative: false }
}

/// An app with one browser of no known family, so no detection is asked for.
fn plain_app(url: Option<&str>) -> App {
    let mut app = App::new(url.map(|u| u.to_string()), Config::default());
    let r = app.refresh_browsers(vec![browser("Epiphany", "epiphany %u")]);
    assert!(matches!(r, AppRequest::Nothing));
    app
}

#[test]
fn test_app_new_with_and_without_url() {
    let app = App::new(Some("https://example.com".to_string()), Config::default());
    assert_eq!(app.url, "https://example.com");
    assert_eq!(app.url_cursor_pos, 19);
    assert_eq!(app.focus, Focus::Browser);
    assert!(!app.exit_requested);

    let app = App::new(Some("héllo".to_string()), Config::default());
    assert_eq!(app.url_cursor_pos, 6);

    let app = App::new(None, Config::default());
    assert_eq!(app.url, "");
    assert_eq!(app.url_cursor_pos, 0);
    assert_eq!(app.focus, Focus::Url);
}

#[test]
fn test_refresh_without_browsers() {
    let mut app = App::new(None, Config::default());
    let r = app.refresh_browsers(Vec::new());
    assert!(matches!(r, AppRequest::Nothing));
    assert_eq!(app.error.as_deref(), Some("No browsers found"));
}

#[test]
fn test_refresh_unknown_family_uses_default_profile() {
    let app = plain_app(None);
    assert_eq!(app.profiles, vec![default_profile()]);
    assert!(app.containers.is_empty());
    assert_eq!(app.selected_container, None);
}

#[test]
fn test_firefox_profiles_then_containers() {
    let mut app = App::new(None, Config::default());
    let r = app.refresh_browsers(vec![browser("Firefox", "firefox %u")]);
    match r {
        AppRequest::Profiles { family, binary_name, then } => {
            assert_eq!(family, BrowserFamily::Firefox);
            assert_eq!(binary_name, "firefox");
            assert_eq!(then, AfterLists::Done);
        }
        other => panic!("unexpected request {:?}", other),
    }
    let r = app.receive_profiles(BrowserFamily::Firefox, AfterLists::Done, vec![profile("a"), profile("b")]);
    match r {
        AppRequest::Containers { profile_index, then } => {
            assert_eq!(profile_index, 0);
            assert_eq!(then, AfterContainers::FinishLists(AfterLists::Done));
        }
        other => panic!("unexpected request {:?}", other),
    }
    let r = app.receive_containers(
        AfterContainers::FinishLists(AfterLists::Done),
        vec![container("Personal", 1), container("Work", 2)],
    );
    assert!(matches!(r, AppRequest::Nothing));
    assert_eq!(app.profiles.len(), 2);
    assert_eq!(app.containers.len(), 2);
    assert_eq!(app.selected_container, Some(0));
    assert!(app.is_container_row_visible());
}

#[test]
fn test_firefox_without_profiles_falls_back_to_default() {
    let mut app = App::new(None, Config::default());
    let _ = app.refresh_browsers(vec![browser("Firefox", "firefox %u")]);
    let r = app.receive_profiles(BrowserFamily::Firefox, AfterLists::Done, Vec::new());
    assert!(matches!(r, AppRequest::Nothing));
    assert_eq!(app.profiles, vec![default_profile()]);
    assert!(app.containers.is_empty());
}

#[test]
fn test_chromium_profiles() {
    let mut app = App::new(None, Config::default());
    let r = app.refresh_browsers(vec![browser("Chromium", "chromium %U")]);
    assert!(matches!(r, AppRequest::Profiles { family: BrowserFamily::Chromium, .. }));
    let r = app.receive_profiles(BrowserFamily::Chromium, AfterLists::Done, vec![profile("Default"), profile("Profile 1")]);
    assert!(matches!(r, AppRequest::Nothing));
    assert_eq!(app.profiles.len(), 2);
    assert!(app.containers.is_empty());
    assert!(!app.is_container_row_visible());
}

#[test]
fn test_last_container_is_restored() {
    let mut config = Config::default();
    config.last_container = Some("Work".to_string());
    let mut app = App::new(None, config);
    let _ = app.refresh_browsers(vec![browser("Firefox", "firefox")]);
    let _ = app.receive_profiles(BrowserFamily::Firefox, AfterLists::Done, vec![profile("a")]);
    let r = app.receive_containers(
        AfterContainers::FinishLists(AfterLists::Done),
        vec![container("Personal", 1), container("Work", 2)],
    );
    assert!(matches!(r, AppRequest::Nothing));
    assert_eq!(app.selected_container, Some(1));
}

#[test]
fn test_apply_config_selects_last_browser_and_toggles() {
    let mut config = Config::default();
    config.last_browser = Some("Falkon".to_string());
    config.last_profile = Some("Default".to_string());
    config.last_incognito = true;
    let mut app = App::new(None, config);
    let r = app.refresh_browsers(vec![browser("Epiphany", "epiphany"), browser("Falkon", "falkon")]);
    assert!(matches!(r, AppRequest::Nothing));
    assert_eq!(app.selected_browser, 0);
    let r = app.apply_config();
    assert!(matches!(r, AppRequest::Nothing));
    assert_eq!(app.selected_browser, 1);
    assert_eq!(app.selected_profile, 0);
    assert!(app.incognito);
    assert!(!app.new_window);
}

#[test]
fn test_url_editing() {
    let mut app = plain_app(None);
    assert_eq!(app.focus, Focus::Url);
    for c in ['a', 'b'] {
        let _ = app.handle_key_event(key(Key::Char(c)));
    }
    assert_eq!(app.url, "ab");
    assert_eq!(app.url_cursor_pos, 2);
    let _ = app.handle_key_event(key(Key::Left));
    let _ = app.handle_key_event(key(Key::Char('x')));
    assert_eq!(app.url, "axb");
    assert_eq!(app.url_cursor_pos, 2);
    let _ = app.handle_key_event(key(Key::Backspace));
    assert_eq!(app.url, "ab");
    assert_eq!(app.url_cursor_pos, 1);
    let _ = app.handle_key_event(key(Key::Delete));
    assert_eq!(app.url, "a");
    let _ = app.handle_key_event(key(Key::Right));
    let _ = app.handle_key_event(key(Key::Right));
    assert_eq!(app.url_cursor_pos, 1);
    let _ = app.handle_key_event(key(Key::Delete));
    assert_eq!(app.url, "a");
    let _ = app.handle_key_event(key(Key::Left));
    let _ = app.handle_key_event(key(Key::Left));
    assert_eq!(app.url_cursor_pos, 0);
    let _ = app.handle_key_event(key(Key::Backspace));
    assert_eq!(app.url, "a");
    // Control does not turn typing into a shortcut in the URL field.
    let _ = app.handle_key_event(KeyInput { code: Key::Char('q'), ctrl: true });
    assert_eq!(app.url, "qa");
    assert!(!app.exit_requested);
}

#[test]
fn test_focus_cycle_and_round_trip() {
    let mut app = plain_app(None);
    let order = [
        Focus::Browser,
        Focus::Profile,
        Focus::IncognitoToggle,
        Focus::NewWindowToggle,
        Focus::CopyButton,
        Focus::OpenButton,
        Focus::QuitButton,
        Focus::Url,
    ];
    for f in order {
        let _ = app.handle_key_event(key(Key::Tab));
        assert_eq!(app.focus, f);
    }
    let _ = app.handle_key_event(key(Key::Tab));
    let _ = app.handle_key_event(key(Key::BackTab));
    assert_eq!(app.focus, Focus::Url);
    let _ = app.handle_key_event(key(Key::Up));
    assert_eq!(app.focus, Focus::QuitButton);
    let _ = app.handle_key_event(key(Key::Down));
    assert_eq!(app.focus, Focus::Url);
}

#[test]
fn test_toggles_are_exclusive() {
    let mut app = plain_app(Some("https://x"));
    let _ = app.handle_key_event(key(Key::Char('w')));
    assert!(app.new_window && !app.incognito);
    let _ = app.handle_key_event(key(Key::Char('i')));
    assert!(app.incognito && !app.new_window);
    let _ = app.handle_key_event(key(Key::Char('i')));
    assert!(!app.incognito && !app.new_window);
    let _ = app.handle_key_event(KeyInput { code: Key::Char('w'), ctrl: true });
    assert!(app.new_window);
}

#[test]
fn test_incognito_warns_with_container() {
    let mut app = App::new(Some("https://x".to_string()), Config::default());
    let _ = app.refresh_browsers(vec![browser("Firefox", "firefox")]);
    let _ = app.receive_profiles(BrowserFamily::Firefox, AfterLists::Done, vec![profile("a")]);
    let _ = app.receive_containers(AfterContainers::FinishLists(AfterLists::Done), vec![container("Work", 2)]);
    app.toggle_incognito();
    assert!(app.incognito);
    assert_eq!(app.info.as_deref(), Some("Incognito is not available with containers"));
    app.focus = Focus::OpenButton;
    let r = app.handle_key_event(key(Key::Enter));
    assert!(matches!(r, AppRequest::Nothing));
    assert_eq!(app.error.as_deref(), Some("Incognito is not available with containers"));
}

#[test]
fn test_open_checks_and_launch() {
    let mut app = plain_app(None);
    app.focus = Focus::OpenButton;
    let r = app.handle_key_event(key(Key::Enter));
    assert!(matches!(r, AppRequest::Nothing));
    assert_eq!(app.error.as_deref(), Some("URL cannot be empty"));

    let mut app = App::new(Some("https://x".to_string()), Config::default());
    let _ = app.refresh_browsers(Vec::new());
    app.focus = Focus::OpenButton;
    let r = app.handle_key_event(key(Key::Enter));
    assert!(matches!(r, AppRequest::Nothing));
    assert_eq!(app.error.as_deref(), Some("No browsers available"));

    let mut app = plain_app(Some("https://x"));
    let _ = app.handle_key_event(key(Key::Char('w')));
    let r = app.handle_key_event(key(Key::Char('o')));
    assert!(matches!(r, AppRequest::Launch));
    assert_eq!(app.config.last_browser.as_deref(), Some("Epiphany"));
    assert_eq!(app.config.last_profile.as_deref(), Some("Default"));
    assert!(app.config.last_new_window);
    assert!(!app.config.last_incognito);

    app.finish_open(Err("no such file".to_string()));
    assert_eq!(app.error.as_deref(), Some("Failed to launch browser: no such file"));
    assert!(!app.exit_requested);
    app.finish_open(Ok(()));
    assert!(app.exit_requested);
}

#[test]
fn test_copy_requests() {
    let mut app = plain_app(None);
    app.focus = Focus::CopyButton;
    let _ = app.handle_key_event(key(Key::Enter));
    assert_eq!(app.error.as_deref(), Some("URL is empty"));

    let mut app = plain_app(Some("https://x"));
    let r = app.handle_key_event(key(Key::Char('C')));
    assert!(matches!(r, AppRequest::CopyUrl));
    app.finish_copy(Ok(()));
    assert_eq!(app.info.as_deref(), Some("URL copied to clipboard!"));
    app.finish_copy(Err("no clipboard".to_string()));
    assert_eq!(app.error.as_deref(), Some("Failed to copy: no clipboard"));
    // The next key press clears both messages.
    let _ = app.handle_key_event(key(Key::Other));
    assert_eq!(app.error, None);
    assert_eq!(app.info, None);
}

#[test]
fn test_browser_dropdown() {
    let mut app = App::new(Some("https://x".to_string()), Config::default());
    let _ = app.refresh_browsers(vec![browser("Epiphany", "epiphany"), browser("Falkon", "falkon")]);
    assert_eq!(app.focus, Focus::Browser);
    let _ = app.handle_key_event(key(Key::Enter));
    assert_eq!(app.dropdown_open, Some(Focus::Browser));
    let r = app.handle_key_event(key(Key::Down));
    assert!(matches!(r, AppRequest::Nothing));
    assert_eq!(app.selected_browser, 1);
    let _ = app.handle_key_event(key(Key::Down));
    assert_eq!(app.selected_browser, 0);
    let _ = app.handle_key_event(key(Key::Up));
    assert_eq!(app.selected_browser, 1);
    let _ = app.handle_key_event(key(Key::Esc));
    assert_eq!(app.dropdown_open, None);
    let _ = app.handle_key_event(key(Key::Enter));
    let _ = app.handle_key_event(key(Key::Enter));
    assert_eq!(app.dropdown_open, None);
}

#[test]
fn test_quit_key() {
    let mut app = plain_app(Some("https://x"));
    let _ = app.handle_key_event(key(Key::Char('q')));
    assert!(app.exit_requested);
    let mut app = plain_app(Some("https://x"));
    app.focus = Focus::QuitButton;
    let _ = app.handle_key_event(key(Key::Enter));
    assert!(app.exit_requested);
}

#[test]
fn test_type_then_backspace_restores_url() {
    let mut app = plain_app(Some("ab"));
    app.focus = Focus::Url;
    let _ = app.handle_key_event(key(Key::Left));
    assert_eq!(app.url_cursor_pos, 1);
    let _ = app.handle_key_event(key(Key::Char('é')));
    assert_eq!(app.url, "aéb");
    assert_eq!(app.url_cursor_pos, 3);
    let _ = app.handle_key_event(key(Key::Backspace));
    assert_eq!(app.url, "ab");
    assert_eq!(app.url_cursor_pos, 1);
}

#[test]
fn test_container_dropdown_steps_round_trip() {
    let mut app = App::new(Some("https://x".to_string()), Config::default());
    let _ = app.refresh_browsers(vec![browser("Firefox", "firefox")]);
    let _ = app.receive_profiles(BrowserFamily::Firefox, AfterLists::Done, vec![profile("a")]);
    let _ = app.receive_containers(
        AfterContainers::FinishLists(AfterLists::Done),
        vec![container("Personal", 1), container("Work", 2), container("Banking", 3)],
    );
    app.focus = Focus::Container;
    let _ = app.handle_key_event(key(Key::Enter));
    assert_eq!(app.dropdown_open, Some(Focus::Container));
    let _ = app.handle_key_event(key(Key::Up));
    assert_eq!(app.selected_container, Some(2));
    let _ = app.handle_key_event(key(Key::Down));
    assert_eq!(app.selected_container, Some(0));
    let _ = app.handle_key_event(key(Key::Down));
    let _ = app.handle_key_event(key(Key::Up));
    assert_eq!(app.selected_container, Some(0));
}

#[test]
fn test_cursor_moves_over_whole_characters() {
    let mut app = plain_app(Some("aé€b"));
    app.focus = Focus::Url;
    assert_eq!(app.url_cursor_pos, 7);
    let _ = app.handle_key_event(key(Key::Left));
    assert_eq!(app.url_cursor_pos, 6);
    let _ = app.handle_key_event(key(Key::Left));
    assert_eq!(app.url_cursor_pos, 3);
    let _ = app.handle_key_event(key(Key::Left));
    assert_eq!(app.url_cursor_pos, 1);
    let _ = app.handle_key_event(key(Key::Right));
    assert_eq!(app.url_cursor_pos, 3);
    let _ = app.handle_key_event(key(Key::Delete));
    assert_eq!(app.url, "aéb");
    assert_eq!(app.url_cursor_pos, 3);
    let _ = app.handle_key_event(key(Key::Backspace));
    assert_eq!(app.url, "ab");
    assert_eq!(app.url_cursor_pos, 1);
    let _ = app.handle_key_event(key(Key::Char('ü')));
    let _ = app.handle_key_event(key(Key::Char('x')));
    assert_eq!(app.url, "aüxb");
    assert_eq!(app.url_cursor_pos, 4);
    assert!(app.well_formed());
}
