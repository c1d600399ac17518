use bopen::url_pattern::{find_matching_pattern, validate_patterns, UrlPattern};

#[test]
fn test_pattern_match() {
    let pattern = UrlPattern {
        pattern: r".*github\.com.*".to_string(),
        browser: "Firefox".to_string(),
        profile: Some("work".to_string()),
        container: None,
        incognito: false,
        new_window: false,
    };

    assert!(pattern.matches("https://github.com/user/repo"));
    assert!(pattern.matches("http://github.com"));
    assert!(!pattern.matches("https://google.com"));
}

#[test]
fn test_find_matching_pattern() {
    let patterns = vec![
        UrlPattern {
            pattern: r".*github\.com.*".to_string(),
            browser: "Firefox".to_string(),
            profile: Some("work".to_string()),
            container: None,
            incognito: false,
            new_window: false,
        },
        UrlPattern {
            pattern: r".*youtube\.com.*".to_string(),
            browser: "Google Chrome".to_string(),
            profile: Some("Personal".to_string()),
            container: None,
            incognito: false,
            new_window: false,
        },
    ];

    let result = find_matching_pattern("https://github.com/user/repo", &patterns);
    assert!(result.is_some());
    let match_result = result.unwrap();
    assert_eq!(match_result.browser_name, "Firefox");
    assert_eq!(match_result.profile_name, Some("work"));

    let result = find_matching_pattern("https://youtube.com/watch", &patterns);
    assert!(result.is_some());
    let match_result = result.unwrap();
    assert_eq!(match_result.browser_name, "Google Chrome");

    let result = find_matching_pattern("https://example.com", &patterns);
    assert!(result.is_none());
}

#[test]
fn test_invalid_pattern_fallback() {
    let pattern = UrlPattern {
        pattern: "github.com".to_string(),
        browser: "Firefox".to_string(),
        profile: None,
        container: None,
        incognito: false,
        new_window: false,
    };

    assert!(pattern.matches("https://github.com/user"));
    assert!(!pattern.matches("https://google.com"));
}

fn pat(p: &str, b: &str) -> UrlPattern {
    UrlPattern {
        pattern: p.to_string(),
        browser: b.to_string(),
        profile: None,
        container: Some("Banking".to_string()),
        incognito: true,
        new_window: false,
    }
}

#[test]
fn invalid_regex_falls_back_to_substring() {
    let p = pat("a(b", "X");
    assert!(p.matches("xxa(bxx"));
    assert!(!p.matches("ab"));
}

#[test]
fn first_matching_pattern_wins() {
    let patterns = vec![pat("bank", "First"), pat(".*bank.*", "Second")];
    let m = find_matching_pattern("https://mybank.example", &patterns).unwrap();
    assert_eq!(m.browser_name, "First");
    assert_eq!(m.container_name, Some("Banking"));
    assert_eq!(m.profile_name, None);
    assert!(m.incognito);
    assert!(!m.new_window);
    assert_eq!(m.pattern, &patterns[0]);
}

#[test]
fn validate_reports_the_invalid_pattern() {
    assert!(pat("ok", "X").validate().is_ok());
    let e = pat("[invalid", "X").validate().unwrap_err();
    assert!(e.starts_with("Invalid regex pattern '[invalid': "));
    assert!(e.len() > "Invalid regex pattern '[invalid': ".len());
}

#[test]
fn validate_patterns_lists_errors_in_order() {
    assert_eq!(validate_patterns(&[pat("a", "X"), pat("b", "Y")]), Ok(()));
    let errs = validate_patterns(&[pat("(", "X"), pat("fine", "Y"), pat("[", "Z")]).unwrap_err();
    assert_eq!(errs.len(), 2);
    assert!(errs[0].starts_with("Invalid regex pattern '(': "));
    assert!(errs[1].starts_with("Invalid regex pattern '[': "));
}
