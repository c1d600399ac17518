//! The settings kept between runs: the last choices made and the URL
//! patterns.
use vstd::prelude::*;
use crate::text::opt_view;
use crate::url_pattern::UrlPattern;

verus! {

/// Configuration structure for persistent settings
#[derive(Debug)]
pub struct Config {
    pub last_browser: Option<String>,
    pub last_profile: Option<String>,
    pub last_container: Option<String>,
    pub last_incognito: bool,
    pub last_new_window: bool,
    /// URL patterns for auto-launching browsers
    pub url_patterns: Vec<UrlPattern>,
}

/// What a configuration holds.
pub struct ConfigModel {
    pub last_browser: Option<Seq<char>>,
    pub last_profile: Option<Seq<char>>,
    pub last_container: Option<Seq<char>>,
    pub last_incognito: bool,
    pub last_new_window: bool,
    pub url_patterns: Seq<UrlPattern>,
}

impl View for Config {
    type V = ConfigModel;

    open spec fn view(&self) -> ConfigModel {
        ConfigModel {
            last_browser: opt_view(self.last_browser),
            last_profile: opt_view(self.last_profile),
            last_container: opt_view(self.last_container),
            last_incognito: self.last_incognito,
            last_new_window: self.last_new_window,
            url_patterns: self.url_patterns@,
        }
    }
}

impl Default for Config {
    fn default() -> (r: Config)
        ensures
            r.last_browser is None,
            r.last_profile is None,
            r.last_container is None,
            !r.last_incognito,
            !r.last_new_window,
            r.url_patterns@.len() == 0,
    {
        Config {
            last_browser: None,
            last_profile: None,
            last_container: None,
            last_incognito: false,
            last_new_window: false,
            url_patterns: Vec::new(),
        }
    }
}

} // verus!
