//! `bopen`: a terminal launcher that opens a URL in a chosen browser,
//! profile and Firefox container, or straight away when a configured URL
//! pattern matches it.
//!
//! The modules hold what the launcher decides and computes, each function
//! with its contract: reading `.desktop` entries and `profiles.ini`, which
//! browser family a binary belongs to, the command line that starts a
//! browser, the URL patterns, the state of the launcher screen and of the
//! pattern manager and how keys change them, and what each screen shows.
//! Reading files, the clipboard, starting processes and drawing on the
//! terminal are left to the program built around this library.
pub mod text;
pub mod url_pattern;
pub mod browser;
pub mod profile;
pub mod json;
pub mod launcher;
pub mod config;
pub mod app;
pub mod pattern_manager;
pub mod screen;
pub mod session;
pub mod auto_launch;
