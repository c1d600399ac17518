//! Opening a URL straight away when a pattern matches it: which of the
//! browsers, profiles and containers found the matching pattern picks.
use vstd::prelude::*;
use crate::app::{
    browser_names, browser_position, container_names, container_position, profile_names,
    profile_position,
};
use crate::browser::Browser;
use crate::profile::{
    firefox_based,Container, Profile, is_firefox_based, profile_views};
use crate::text::{first_index, owned};
use crate::url_pattern::opt_str_view;

verus! {

/// The first of the browsers found with the name the pattern gives.
pub fn pick_browser(browsers: &Vec<Browser>, name: &str) -> (r: Option<usize>)
    ensures
        r matches Some(i) ==> i < browsers@.len(),
        match r {
            Some(i) => first_index(browser_names(browsers@), name@) == Some(i as int),
            None => first_index(browser_names(browsers@), name@) is None,
        },
{
    browser_position(browsers, &owned(name))
}

/// The profile to open with: the first with the name the pattern gives, or,
/// when the pattern names none, the first profile found.
pub fn pick_profile(profiles: &Vec<Profile>, wanted: Option<&str>) -> (r: Option<usize>)
    ensures
        r matches Some(i) ==> i < profiles@.len(),
        match wanted {
            Some(n) => match r {
                Some(i) => first_index(profile_names(profile_views(profiles@)), n@) == Some(
                    i as int,
                ),
                None => first_index(profile_names(profile_views(profiles@)), n@) is None,
            },
            None => r == (if profiles@.len() > 0 {
                Some(0usize)
            } else {
                None
            }),
        },
{
    match wanted {
        Some(n) => profile_position(profiles, &owned(n)),
        None => if profiles.len() > 0 {
            Some(0)
        } else {
            None
        },
    }
}

/// Containers are looked up only when the pattern names one and the browser
/// is Firefox-based.
pub fn wants_containers(container_name: Option<&str>, binary_name: &str) -> (r: bool)
    ensures
        r == (container_name is Some && firefox_based(binary_name@)),
{
    container_name.is_some() && is_firefox_based(binary_name)
}

/// The container the pattern names, among those found, if present.
pub fn pick_container(containers: &Vec<Container>, wanted: Option<&str>) -> (r: Option<usize>)
    ensures
        r matches Some(i) ==> i < containers@.len(),
        match opt_str_view(wanted) {
            Some(n) => match r {
                Some(i) => first_index(container_names(containers@), n) == Some(i as int),
                None => first_index(container_names(containers@), n) is None,
            },
            None => r is None,
        },
{
    match wanted {
        Some(n) => container_position(containers, &owned(n)),
        None => None,
    }
}

} // verus!
