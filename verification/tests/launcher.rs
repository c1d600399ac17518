use bopen::launcher::{
    binary_name, build_chromium_args, build_firefox_args, clean_exec, launch_args, pick_binary,
    search_dirs,
};
use bopen::profile::{Container, Profile};
use std::path::PathBuf;

fn profile(name: &str) -> Profile {
    Profile { name: name.to_string(), path: PathBuf::from("/tmp/p"), is_relative: false }
}

fn strings(v: &[&str]) -> Vec<String> {
    v.iter().map(|s| s.to_string()).collect()
}

#[test]
fn test_clean_exec_removes_placeholders() {
    assert_eq!(clean_exec("firefox %u"), "firefox");
    assert_eq!(clean_exec("  brave %U %i %c %k "), "brave");
    assert_eq!(clean_exec("/opt/x/bin --flag %F"), "/opt/x/bin --flag");
    assert_eq!(clean_exec("a%fb"), "ab");
}

#[test]
fn test_firefox_args() {
    let p = profile("work");
    assert_eq!(
        build_firefox_args("/usr/bin/firefox", &p, None, "https://a.b", false, true),
        strings(&["/usr/bin/firefox", "--no-remote", "-P", "work", "--new-window", "https://a.b"])
    );
    assert_eq!(
        build_firefox_args("/usr/bin/firefox", &p, None, "https://a.b", true, true),
        strings(&["/usr/bin/firefox", "--no-remote", "-P", "work", "--private-window", "https://a.b"])
    );
    assert_eq!(
        build_firefox_args("/usr/bin/firefox", &p, None, "https://a.b", false, false),
        strings(&["/usr/bin/firefox", "--no-remote", "-P", "work", "https://a.b"])
    );
    let c = Container { name: "Banking".to_string(), user_context_id: 3 };
    assert_eq!(
        build_firefox_args("/usr/bin/firefox", &p, Some(&c), "https://a.b", true, true),
        strings(&["/usr/bin/firefox", "--no-remote", "-P", "work", "ext+container:name=Banking&url=https://a.b"])
    );
}

#[test]
fn test_chromium_args() {
    let p = profile("Profile 1");
    assert_eq!(
        build_chromium_args("/usr/bin/chromium", &p, "https://a.b", true, true),
        strings(&["/usr/bin/chromium", "--profile-directory=Profile 1", "--incognito", "--new-window", "https://a.b"])
    );
    assert_eq!(
        build_chromium_args("/usr/bin/chromium", &p, "https://a.b", false, false),
        strings(&["/usr/bin/chromium", "--profile-directory=Profile 1", "https://a.b"])
    );
}

#[test]
fn test_launch_args_by_family() {
    let p = profile("Default");
    assert_eq!(
        launch_args("/usr/bin/firefox", "firefox", &p, None, "u", false, false),
        strings(&["/usr/bin/firefox", "--no-remote", "-P", "Default", "u"])
    );
    assert_eq!(
        launch_args("/usr/bin/brave-browser", "brave-browser", &p, None, "u", false, true),
        strings(&["/usr/bin/brave-browser", "--profile-directory=Default", "--new-window", "u"])
    );
    assert_eq!(
        launch_args("/usr/bin/epiphany", "epiphany", &p, None, "u", true, true),
        strings(&["/usr/bin/epiphany", "u"])
    );
}

#[test]
fn test_binary_name_first_word() {
    assert_eq!(binary_name("firefox --new-instance"), "firefox");
    assert_eq!(binary_name("  /usr/bin/x  y"), "/usr/bin/x");
    assert_eq!(binary_name(""), "");
    assert_eq!(binary_name("   "), "   ");
}

#[test]
fn test_search_dirs() {
    assert_eq!(
        search_dirs(Some("/a:/b")),
        strings(&["/a", "/b", "/usr/bin", "/usr/local/bin", "/snap/bin", "/opt/bin"])
    );
    assert_eq!(
        search_dirs(Some("/a::/c")),
        strings(&["/a", "", "/c", "/usr/bin", "/usr/local/bin", "/snap/bin", "/opt/bin"])
    );
    assert_eq!(search_dirs(None), strings(&["/usr/bin", "/usr/local/bin", "/snap/bin", "/opt/bin"]));
}

#[test]
fn pick_binary_takes_first_found() {
    let found = vec![
        ("/usr/local/sbin/firefox".to_string(), false),
        ("/usr/bin/firefox".to_string(), true),
        ("/snap/bin/firefox".to_string(), true),
    ];
    assert_eq!(pick_binary("firefox", &found), "/usr/bin/firefox");
}

#[test]
fn pick_binary_falls_back_to_name() {
    let found = vec![("/usr/bin/firefox".to_string(), false)];
    assert_eq!(pick_binary("firefox", &found), "firefox");
    assert_eq!(pick_binary("firefox", &Vec::new()), "firefox");
}
