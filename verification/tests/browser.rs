use bopen::browser::{
    browser_from_desktop_file, dedupe_browsers, is_browser_action, parse_desktop_entries,
    parse_single_entry, resolve_exec, Browser,
};

fn browser(name: &str, command: &str) -> Browser {
    Browser { name: name.to_string(), command: command.to_string() }
}

const FIREFOX_DESKTOP: &str = "[Desktop Entry]\n\
Name=Firefox\n\
Exec=firefox %u\n\
Type=Application\n\
Categories=Network;WebBrowser;\n\
\n\
[Desktop Action new-private-window]\n\
Name=New Private Window\n\
Exec=firefox --private-window %u\n";

#[test]
fn test_resolve_exec_drops_placeholders_and_arguments() {
    assert_eq!(resolve_exec("firefox %u"), "firefox");
    assert_eq!(resolve_exec("/usr/bin/google-chrome-stable %U --flag"), "/usr/bin/google-chrome-stable");
    assert_eq!(resolve_exec("  %f brave %F"), "brave");
    assert_eq!(resolve_exec(""), "");
    assert_eq!(resolve_exec("%u"), "");
}

#[test]
fn test_is_browser_action_keywords() {
    assert!(!is_browser_action("Firefox"));
    assert!(!is_browser_action("Google Chrome"));
    assert!(is_browser_action("New Private Window"));
    assert!(is_browser_action("Open PROFILE Manager"));
    assert!(is_browser_action("Tor Browser Launcher Settings"));
    assert!(is_browser_action("Firefox - Safe Mode"));
    assert!(!is_browser_action(""));
}

#[test]
fn test_parse_desktop_entries_keeps_only_desktop_entry_sections() {
    let entries = parse_desktop_entries(FIREFOX_DESKTOP);
    assert_eq!(entries.len(), 1);
    assert_eq!(
        entries[0],
        "[Desktop Entry]\nName=Firefox\nExec=firefox %u\nType=Application\nCategories=Network;WebBrowser;\n\n"
    );
}

#[test]
fn test_parse_desktop_entries_two_entries_and_blank_entry() {
    let contents = "[Desktop Entry]\nName=A\n[Other]\nName=B\n[Desktop Entry]\nName=C";
    let entries = parse_desktop_entries(contents);
    assert_eq!(entries, vec!["[Desktop Entry]\nName=A\n".to_string(), "[Desktop Entry]\nName=C\n".to_string()]);
    assert!(parse_desktop_entries("Name=Lonely\n").is_empty());
}

#[test]
fn test_parse_single_entry_browser() {
    let entry = "[Desktop Entry]\nType=Application\nName=Firefox\nExec=firefox %u\nCategories=Network;WebBrowser;\n";
    assert_eq!(parse_single_entry(entry), Some(browser("Firefox", "firefox %u")));
}

#[test]
fn test_parse_single_entry_rejections() {
    let not_app = "Type=Link\nName=Firefox\nExec=firefox\nCategories=WebBrowser;\n";
    assert_eq!(parse_single_entry(not_app), None);
    let not_browser = "Type=Application\nName=Editor\nExec=edit\nCategories=Utility;\n";
    assert_eq!(parse_single_entry(not_browser), None);
    let action = "Type=Application\nName=New Incognito Window\nExec=chrome --incognito\nCategories=WebBrowser;\n";
    assert_eq!(parse_single_entry(action), None);
}

#[test]
fn test_parse_single_entry_defaults_and_last_value() {
    let entry = "Type=Application\nCategories=WebBrowser\n# Name=Comment\n";
    assert_eq!(parse_single_entry(entry), Some(browser("Unknown", "")));
    let twice = "Type=Application\nName=First\nName=Second\nExec=x\nCategories=WebBrowser\n";
    assert_eq!(parse_single_entry(twice), Some(browser("Second", "x")));
}

#[test]
fn test_browser_from_desktop_file() {
    assert_eq!(browser_from_desktop_file(FIREFOX_DESKTOP), Some(browser("Firefox", "firefox %u")));
    assert_eq!(browser_from_desktop_file("[Desktop Entry]\nType=Application\nName=Calc\n"), None);
}

#[test]
fn test_dedupe_browsers_by_resolved_binary() {
    let found = vec![
        browser("Firefox", "firefox %u"),
        browser("Firefox (again)", "firefox"),
        browser("Chromium", "chromium %U"),
        browser("Firefox ESR", "firefox-esr %u"),
    ];
    let kept = dedupe_browsers(found);
    assert_eq!(
        kept,
        vec![
            browser("Firefox", "firefox %u"),
            browser("Chromium", "chromium %U"),
            browser("Firefox ESR", "firefox-esr %u"),
        ]
    );
}
