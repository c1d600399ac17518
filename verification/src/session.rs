//! The decisions of the interactive session: where a key press goes while
//! the launcher screen or the pattern manager is shown, what happens when
//! the pattern manager asks to close, and when the session ends.
use vstd::prelude::*;
use crate::app::{Key, KeyInput};

verus! {

/// Where a key press goes.
#[derive(Debug, Clone, Copy, PartialEq, Eq, Structural)]
pub enum KeyRoute {
    /// Leave the program.
    Quit,
    /// Close the pattern manager, then hand the key to the launcher screen.
    ClosePatternsThenScreen,
    /// Hand the key to the pattern manager.
    Patterns,
    /// Open the pattern manager.
    OpenPatterns,
    /// Hand the key to the launcher screen.
    Screen,
}

/// What becomes of the pattern manager after it has handled a key.
#[derive(Debug, Clone, Copy, PartialEq, Eq, Structural)]
pub enum PatternsAfterKey {
    /// It stays open.
    KeepOpen,
    /// It closes.
    Close,
    /// Its patterns go into the configuration, which is saved; then it
    /// closes.
    SaveAndClose,
}

/// Control-C leaves the program, or only the pattern manager when it is
/// open; Control-P opens the pattern manager; every other key goes to the
/// screen shown.
pub open spec fn key_route(patterns_open: bool, key: KeyInput) -> KeyRoute {
    if key.code == Key::Char('c') && key.ctrl {
        if patterns_open {
            KeyRoute::ClosePatternsThenScreen
        } else {
            KeyRoute::Quit
        }
    } else if patterns_open {
        KeyRoute::Patterns
    } else if key.code == Key::Char('p') && key.ctrl {
        KeyRoute::OpenPatterns
    } else {
        KeyRoute::Screen
    }
}

/// Where a key press goes, given whether the pattern manager is open.
pub fn route_key(patterns_open: bool, key: KeyInput) -> (r: KeyRoute)
    ensures
        r == key_route(patterns_open, key),
{
    if key.code == Key::Char('c') && key.ctrl {
        if patterns_open {
            KeyRoute::ClosePatternsThenScreen
        } else {
            KeyRoute::Quit
        }
    } else if patterns_open {
        KeyRoute::Patterns
    } else if key.code == Key::Char('p') && key.ctrl {
        KeyRoute::OpenPatterns
    } else {
        KeyRoute::Screen
    }
}

/// What becomes of the pattern manager once it has handled a key: it
/// closes when it asked to, saving first when its patterns changed.
pub fn after_patterns_key(should_close: bool, modified: bool) -> (r: PatternsAfterKey)
    ensures
        r == (if !should_close {
            PatternsAfterKey::KeepOpen
        } else if modified {
            PatternsAfterKey::SaveAndClose
        } else {
            PatternsAfterKey::Close
        }),
{
    if !should_close {
        PatternsAfterKey::KeepOpen
    } else if modified {
        PatternsAfterKey::SaveAndClose
    } else {
        PatternsAfterKey::Close
    }
}

/// The session ends once the launcher screen asked to exit and the pattern
/// manager is not shown.
pub fn session_over(exit_requested: bool, patterns_open: bool) -> (r: bool)
    ensures
        r == (exit_requested && !patterns_open),
{
    exit_requested && !patterns_open
}

} // verus!
