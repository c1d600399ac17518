//! The launcher screen: the URL being edited, the chosen browser, profile and
//! container, the toggles, focus and messages, and how keys change them.
//!
//! Finding profiles and containers reads the disk, so a step that needs them
//! stops and returns a request; the caller answers it with
//! `receive_profiles` or `receive_containers`, passing back the continuation
//! carried by the request. Opening the browser and copying the URL are
//! likewise requests, whose outcome `finish_open` and `finish_copy` take.
use vstd::prelude::*;
use std::path::PathBuf;
use crate::browser::Browser;
use crate::config::{Config, ConfigModel};
use crate::profile::{
    BrowserFamily, Container, Profile, browser_family, default_profiles, detect_unknown_profiles,
    family_of, firefox_based, is_firefox_based, profile_views,
};
use crate::text::{
    at_char_boundary, utf8,
    backspace, backspace_at, byte_len, concat, cursor_left, cursor_right, delete,
    delete_at, first_index, first_word, first_word_str, is_blank, lemma_backspace_after_typing, lemma_boundary_ends,
    lemma_first_index, lemma_first_index_found, move_left, move_right, opt_view, owned, string_of, trim, type_char,
    typed_at, };

verus! {

/// Represents the focusable elements in the TUI
#[derive(Debug, Clone, Copy, PartialEq, Eq, Structural)]
pub enum Focus {
    Url,
    Browser,
    Profile,
    Container,
    IncognitoToggle,
    NewWindowToggle,
    CopyButton,
    OpenButton,
    QuitButton,
}

/// The key of a key press, as the screens read it.
#[derive(Debug, Clone, Copy, PartialEq, Eq, Structural)]
pub enum Key {
    Char(char),
    Enter,
    Esc,
    Tab,
    BackTab,
    Up,
    Down,
    Left,
    Right,
    Backspace,
    Delete,
    Other,
}

/// A key press: the key and whether Control was held.
#[derive(Debug, Clone, Copy, PartialEq, Eq, Structural)]
pub struct KeyInput {
    pub code: Key,
    pub ctrl: bool,
}

/// What to do once the profile and container lists have been refreshed.
#[derive(Debug, Clone, Copy, PartialEq, Eq, Structural)]
pub enum AfterLists {
    Done,
    ApplyConfigProfile,
}

/// What to do once the container list has been refreshed.
#[derive(Debug, Clone, Copy, PartialEq, Eq, Structural)]
pub enum AfterContainers {
    Done,
    FinishLists(AfterLists),
    ApplyConfigContainer,
}

/// What the screen needs from outside before it can go on.
#[derive(Debug)]
pub enum AppRequest {
    /// Nothing: the step is complete.
    Nothing,
    /// The profiles of the selected browser, found the way its family finds
    /// them; answer with `receive_profiles(family, then, profiles)`.
    Profiles { family: BrowserFamily, binary_name: String, then: AfterLists },
    /// The containers of profile `profile_index`; answer with
    /// `receive_containers(then, containers)`.
    Containers { profile_index: usize, then: AfterContainers },
    /// Save the configuration and start the selected browser on the URL;
    /// report the outcome with `finish_open`.
    Launch,
    /// Copy the URL to the clipboard; report the outcome with `finish_copy`.
    CopyUrl,
}

/// A request, as a value.
pub enum RequestModel {
    Nothing,
    Profiles(BrowserFamily, Seq<char>, AfterLists),
    Containers(usize, AfterContainers),
    Launch,
    CopyUrl,
}

impl View for AppRequest {
    type V = RequestModel;

    open spec fn view(&self) -> RequestModel {
        match self {
            AppRequest::Nothing => RequestModel::Nothing,
            AppRequest::Profiles { family, binary_name, then } => RequestModel::Profiles(
                *family,
                binary_name@,
                *then,
            ),
            AppRequest::Containers { profile_index, then } => RequestModel::Containers(
                *profile_index,
                *then,
            ),
            AppRequest::Launch => RequestModel::Launch,
            AppRequest::CopyUrl => RequestModel::CopyUrl,
        }
    }
}

/// The main application state
#[derive(Debug)]
pub struct App {
    /// The URL to open
    pub url: String,
    /// Cursor position (a byte offset) in the URL field
    pub url_cursor_pos: usize,
    /// List of discovered browsers
    pub browsers: Vec<Browser>,
    /// List of profiles for the selected browser
    pub profiles: Vec<Profile>,
    /// List of containers for the selected profile (if Firefox-based)
    pub containers: Vec<Container>,
    /// Currently selected browser index
    pub selected_browser: usize,
    /// Currently selected profile index
    pub selected_profile: usize,
    /// Currently selected container index (None if not applicable or no selection)
    pub selected_container: Option<usize>,
    /// Whether incognito/private mode is enabled
    pub incognito: bool,
    /// Whether new window is enabled
    pub new_window: bool,
    /// Currently focused widget
    pub focus: Focus,
    /// Error message to display (if any)
    pub error: Option<String>,
    /// Info message to display (if any)
    pub info: Option<String>,
    /// Which dropdown is currently open (if any)
    pub dropdown_open: Option<Focus>,
    /// Persistent configuration
    pub config: Config,
    /// Flag to request application exit (allows cleanup before exit)
    pub exit_requested: bool,
}

/// The state of the screen, as a value.
pub struct AppModel {
    pub url: Seq<char>,
    pub url_cursor_pos: usize,
    pub browsers: Seq<Browser>,
    pub profiles: Seq<(Seq<char>, PathBuf, bool)>,
    pub containers: Seq<Container>,
    pub selected_browser: usize,
    pub selected_profile: usize,
    pub selected_container: Option<usize>,
    pub incognito: bool,
    pub new_window: bool,
    pub focus: Focus,
    pub error: Option<Seq<char>>,
    pub info: Option<Seq<char>>,
    pub dropdown_open: Option<Focus>,
    pub config: ConfigModel,
    pub exit_requested: bool,
}

impl View for App {
    type V = AppModel;

    open spec fn view(&self) -> AppModel {
        AppModel {
            url: self.url@,
            url_cursor_pos: self.url_cursor_pos,
            browsers: self.browsers@,
            profiles: profile_views(self.profiles@),
            containers: self.containers@,
            selected_browser: self.selected_browser,
            selected_profile: self.selected_profile,
            selected_container: self.selected_container,
            incognito: self.incognito,
            new_window: self.new_window,
            focus: self.focus,
            error: opt_view(self.error),
            info: opt_view(self.info),
            dropdown_open: self.dropdown_open,
            config: self.config@,
            exit_requested: self.exit_requested,
        }
    }
}

/// The URL's cursor is on a character boundary, the selections point into
/// their lists, and a selected container index leaves room to move on.
pub open spec fn wf(m: AppModel) -> bool {
    &&& at_char_boundary(m.url, m.url_cursor_pos as int)
    &&& m.browsers.len() > 0 ==> m.selected_browser < m.browsers.len()
    &&& m.profiles.len() > 0 ==> m.selected_profile < m.profiles.len()
    &&& m.selected_container matches Some(s) ==> s < usize::MAX
}

/// The binary of the selected browser: the first word of its `Exec` line.
pub open spec fn selected_binary(m: AppModel) -> Seq<char> {
    first_word(m.browsers[m.selected_browser as int].command@)
}

/// The names of a list of browsers.
pub open spec fn browser_names(bs: Seq<Browser>) -> Seq<Seq<char>> {
    bs.map_values(|b: Browser| b.name@)
}

/// The names of a list of profiles.
pub open spec fn profile_names(ps: Seq<(Seq<char>, PathBuf, bool)>) -> Seq<Seq<char>> {
    ps.map_values(|p: (Seq<char>, PathBuf, bool)| p.0)
}

/// The names of a list of containers.
pub open spec fn container_names(cs: Seq<Container>) -> Seq<Seq<char>> {
    cs.map_values(|c: Container| c.name@)
}

/// The profile selection, reset to the first when it points past the list.
pub open spec fn profile_in_range(m: AppModel) -> AppModel {
    if m.selected_profile >= m.profiles.len() {
        AppModel { selected_profile: 0, ..m }
    } else {
        m
    }
}

pub open spec fn rank_lists(k: AfterLists) -> nat {
    match k {
        AfterLists::Done => 0,
        AfterLists::ApplyConfigProfile => 4,
    }
}

pub open spec fn rank_containers(k: AfterContainers) -> nat {
    match k {
        AfterContainers::Done => 0,
        AfterContainers::ApplyConfigContainer => 1,
        AfterContainers::FinishLists(l) => rank_lists(l) + 1,
    }
}

/// Refreshing the profile and container lists for the selected browser:
/// with no browsers both lists empty; otherwise the profile selection goes
/// to the first and no container is selected, a browser of unknown family
/// gets the single default profile, and the others need their profiles.
pub open spec fn lists_update(m: AppModel, k: AfterLists) -> (AppModel, RequestModel)
    decreases rank_lists(k) + 1,
{
    if m.browsers.len() == 0 {
        lists_done(AppModel { profiles: seq![], containers: seq![], ..m }, k)
    } else {
        let m1 = AppModel { selected_profile: 0, selected_container: None, ..m };
        let bin = selected_binary(m1);
        match family_of(bin) {
            BrowserFamily::Other => lists_done(
                profile_in_range(
                    AppModel { profiles: default_profiles(), containers: seq![], ..m1 },
                ),
                k,
            ),
            fam => (m1, RequestModel::Profiles(fam, bin, k)),
        }
    }
}

/// The lists once the profiles of a browser of family `fam` are known: a
/// Firefox-based browser with profiles goes on to its containers; with none
/// found, the single default profile stands in.
pub open spec fn profiles_received(
    m: AppModel,
    fam: BrowserFamily,
    k: AfterLists,
    ps: Seq<(Seq<char>, PathBuf, bool)>,
) -> (AppModel, RequestModel) {
    if fam == BrowserFamily::Firefox && ps.len() > 0 {
        containers_update(AppModel { profiles: ps, ..m }, AfterContainers::FinishLists(k))
    } else {
        let chosen = if ps.len() > 0 {
            ps
        } else {
            default_profiles()
        };
        lists_done(profile_in_range(AppModel { profiles: chosen, containers: seq![], ..m }), k)
    }
}

/// What follows a refresh of the lists.
pub open spec fn lists_done(m: AppModel, k: AfterLists) -> (AppModel, RequestModel)
    decreases rank_lists(k),
{
    match k {
        AfterLists::Done => (m, RequestModel::Nothing),
        AfterLists::ApplyConfigProfile => apply_config_profile(m),
    }
}

/// Selecting the last used profile if the list holds it, then refreshing the
/// containers.
pub open spec fn apply_config_profile(m: AppModel) -> (AppModel, RequestModel)
    decreases 3nat,
{
    let m1 = match m.config.last_profile {
        Some(n) => match first_index(profile_names(m.profiles), n) {
            Some(i) => AppModel { selected_profile: i as usize, ..m },
            None => m,
        },
        None => m,
    };
    containers_update(m1, AfterContainers::ApplyConfigContainer)
}

/// Refreshing the container list for the selected profile: empty with no
/// browsers or profiles (the selection stays), empty and unselected for a
/// browser that is not Firefox-based, otherwise the containers are needed.
pub open spec fn containers_update(m: AppModel, k: AfterContainers) -> (AppModel, RequestModel)
    decreases rank_containers(k) + 1,
{
    if m.browsers.len() == 0 || m.profiles.len() == 0 {
        containers_done(AppModel { containers: seq![], ..m }, k)
    } else if firefox_based(selected_binary(m)) {
        (m, RequestModel::Containers(m.selected_profile, k))
    } else {
        containers_done(AppModel { containers: seq![], selected_container: None, ..m }, k)
    }
}

/// The container selected in a freshly read list: none when it is empty,
/// otherwise the last used one if present, else the first.
pub open spec fn restored_container(m: AppModel, cs: Seq<Container>) -> Option<usize> {
    if cs.len() == 0 {
        None
    } else {
        match m.config.last_container {
            Some(n) => match first_index(container_names(cs), n) {
                Some(i) => Some(i as usize),
                None => Some(0),
            },
            None => Some(0),
        }
    }
}

/// The lists once the containers of the selected profile are known.
pub open spec fn containers_received(m: AppModel, k: AfterContainers, cs: Seq<Container>) -> (
    AppModel,
    RequestModel,
) {
    containers_done(
        AppModel { containers: cs, selected_container: restored_container(m, cs), ..m },
        k,
    )
}

/// What follows a refresh of the containers.
pub open spec fn containers_done(m: AppModel, k: AfterContainers) -> (AppModel, RequestModel)
    decreases rank_containers(k),
{
    match k {
        AfterContainers::Done => (m, RequestModel::Nothing),
        AfterContainers::FinishLists(l) => lists_done(profile_in_range(m), l),
        AfterContainers::ApplyConfigContainer => (apply_config_container(m), RequestModel::Nothing),
    }
}

/// Selecting the last used container if the list holds it, and restoring
/// the toggles.
pub open spec fn apply_config_container(m: AppModel) -> AppModel {
    let m1 = match m.config.last_container {
        Some(n) => match first_index(container_names(m.containers), n) {
            Some(i) => AppModel { selected_container: Some(i as usize), ..m },
            None => m,
        },
        None => m,
    };
    AppModel { incognito: m.config.last_incognito, new_window: m.config.last_new_window, ..m1 }
}

/// Applying the saved configuration: the last used browser (refreshing the
/// lists for it), profile, container and toggles.
pub open spec fn apply_config_spec(m: AppModel) -> (AppModel, RequestModel) {
    match m.config.last_browser {
        Some(n) => match first_index(browser_names(m.browsers), n) {
            Some(i) => lists_update(
                AppModel { selected_browser: i as usize, ..m },
                AfterLists::ApplyConfigProfile,
            ),
            None => apply_config_profile(m),
        },
        None => apply_config_profile(m),
    }
}

/// Refreshing the list of browsers.
pub open spec fn browsers_refreshed(m: AppModel, bs: Seq<Browser>) -> (AppModel, RequestModel) {
    if bs.len() == 0 {
        (AppModel { browsers: bs, error: Some("No browsers found"@), ..m }, RequestModel::Nothing)
    } else {
        let sb = if m.selected_browser >= bs.len() {
            0
        } else {
            m.selected_browser
        };
        lists_update(AppModel { browsers: bs, selected_browser: sb, ..m }, AfterLists::Done)
    }
}

/// The configuration with the current choices recorded.
pub open spec fn saved(m: AppModel) -> AppModel {
    let c0 = m.config;
    let c1 = if m.selected_browser < m.browsers.len() {
        ConfigModel { last_browser: Some(m.browsers[m.selected_browser as int].name@), ..c0 }
    } else {
        c0
    };
    let c2 = if m.selected_profile < m.profiles.len() {
        ConfigModel { last_profile: Some(m.profiles[m.selected_profile as int].0), ..c1 }
    } else {
        c1
    };
    let c3 = match m.selected_container {
        Some(i) => if i < m.containers.len() {
            ConfigModel { last_container: Some(m.containers[i as int].name@), ..c2 }
        } else {
            c2
        },
        None => c2,
    };
    AppModel {
        config: ConfigModel {
            last_incognito: m.incognito,
            last_new_window: m.new_window,
            ..c3
        },
        ..m
    }
}

/// The dropdown for `f` opens, or closes when it was the open one.
pub open spec fn dropdown_toggled(m: AppModel, f: Focus) -> AppModel {
    AppModel {
        dropdown_open: if m.dropdown_open == Some(f) {
            None
        } else {
            Some(f)
        },
        ..m
    }
}

/// Incognito turned off, or on (turning new window off, with a note when a
/// container is selected).
pub open spec fn incognito_toggled(m: AppModel) -> AppModel {
    if m.incognito {
        AppModel { incognito: false, ..m }
    } else {
        AppModel {
            incognito: true,
            new_window: false,
            info: if m.selected_container is Some {
                Some("Incognito is not available with containers"@)
            } else {
                m.info
            },
            ..m
        }
    }
}

/// New window turned off, or on (turning incognito off).
pub open spec fn new_window_toggled(m: AppModel) -> AppModel {
    if m.new_window {
        AppModel { new_window: false, ..m }
    } else {
        AppModel { new_window: true, incognito: false, ..m }
    }
}

/// The container row shows: the selected browser is Firefox-based and has
/// containers.
pub open spec fn container_row_visible(m: AppModel) -> bool {
    m.browsers.len() > 0 && firefox_based(selected_binary(m)) && m.containers.len() > 0
}

/// The element after the focused one.
pub open spec fn next_focus(m: AppModel) -> Focus {
    match m.focus {
        Focus::Url => Focus::Browser,
        Focus::Browser => Focus::Profile,
        Focus::Profile => if container_row_visible(m) {
            Focus::Container
        } else {
            Focus::IncognitoToggle
        },
        Focus::Container => Focus::IncognitoToggle,
        Focus::IncognitoToggle => Focus::NewWindowToggle,
        Focus::NewWindowToggle => Focus::CopyButton,
        Focus::CopyButton => Focus::OpenButton,
        Focus::OpenButton => Focus::QuitButton,
        Focus::QuitButton => Focus::Url,
    }
}

/// The element before the focused one.
pub open spec fn previous_focus(m: AppModel) -> Focus {
    match m.focus {
        Focus::Url => Focus::QuitButton,
        Focus::Browser => Focus::Url,
        Focus::Profile => Focus::Browser,
        Focus::Container => Focus::Profile,
        Focus::IncognitoToggle => if container_row_visible(m) {
            Focus::Container
        } else {
            Focus::Profile
        },
        Focus::NewWindowToggle => Focus::IncognitoToggle,
        Focus::CopyButton => Focus::NewWindowToggle,
        Focus::OpenButton => Focus::CopyButton,
        Focus::QuitButton => Focus::OpenButton,
    }
}

/// Moving the selection of the open dropdown one step forward, wrapping;
/// a new browser refreshes both lists, a new profile the containers.
pub open spec fn next_in_dropdown(m: AppModel) -> (AppModel, RequestModel) {
    match m.dropdown_open {
        Some(Focus::Browser) => if m.browsers.len() > 0 {
            lists_update(
                AppModel {
                    selected_browser: ((m.selected_browser + 1) % (m.browsers.len() as int)) as usize,
                    ..m
                },
                AfterLists::Done,
            )
        } else {
            (m, RequestModel::Nothing)
        },
        Some(Focus::Profile) => if m.profiles.len() > 0 {
            containers_update(
                AppModel {
                    selected_profile: ((m.selected_profile + 1) % (m.profiles.len() as int)) as usize,
                    ..m
                },
                AfterContainers::Done,
            )
        } else {
            (m, RequestModel::Nothing)
        },
        Some(Focus::Container) => match m.selected_container {
            Some(s) => if m.containers.len() > 0 {
                (
                    AppModel {
                        selected_container: Some(((s + 1) % (m.containers.len() as int)) as usize),
                        ..m
                    },
                    RequestModel::Nothing,
                )
            } else {
                (m, RequestModel::Nothing)
            },
            None => (m, RequestModel::Nothing),
        },
        _ => (m, RequestModel::Nothing),
    }
}

/// The index before `i` in a list of `n`, wrapping to the last.
pub open spec fn wrap_back(i: usize, n: nat) -> usize {
    if i == 0 {
        (n - 1) as usize
    } else {
        (i - 1) as usize
    }
}

/// Moving the selection of the open dropdown one step back, wrapping.
pub open spec fn previous_in_dropdown(m: AppModel) -> (AppModel, RequestModel) {
    match m.dropdown_open {
        Some(Focus::Browser) => if m.browsers.len() > 0 {
            lists_update(
                AppModel {
                    selected_browser: wrap_back(m.selected_browser, m.browsers.len()),
                    ..m
                },
                AfterLists::Done,
            )
        } else {
            (m, RequestModel::Nothing)
        },
        Some(Focus::Profile) => if m.profiles.len() > 0 {
            containers_update(
                AppModel {
                    selected_profile: wrap_back(m.selected_profile, m.profiles.len()),
                    ..m
                },
                AfterContainers::Done,
            )
        } else {
            (m, RequestModel::Nothing)
        },
        Some(Focus::Container) => match m.selected_container {
            Some(s) => if m.containers.len() > 0 {
                (
                    AppModel {
                        selected_container: Some(wrap_back(s, m.containers.len())),
                        ..m
                    },
                    RequestModel::Nothing,
                )
            } else {
                (m, RequestModel::Nothing)
            },
            None => (m, RequestModel::Nothing),
        },
        _ => (m, RequestModel::Nothing),
    }
}

/// Asking to copy the URL: refused with a message when it is blank.
pub open spec fn copy_requested(m: AppModel) -> (AppModel, RequestModel) {
    if trim(m.url).len() == 0 {
        (AppModel { error: Some("URL is empty"@), ..m }, RequestModel::Nothing)
    } else {
        (m, RequestModel::CopyUrl)
    }
}

/// Asking to open the URL: refused with a message for a blank URL, no
/// browsers, or incognito together with a container; otherwise the choices
/// are recorded in the configuration and the browser is to be started.
pub open spec fn open_requested(m: AppModel) -> (AppModel, RequestModel) {
    if trim(m.url).len() == 0 {
        (AppModel { error: Some("URL cannot be empty"@), ..m }, RequestModel::Nothing)
    } else if m.browsers.len() == 0 {
        (AppModel { error: Some("No browsers available"@), ..m }, RequestModel::Nothing)
    } else if m.incognito && m.selected_container is Some {
        (
            AppModel { error: Some("Incognito is not available with containers"@), ..m },
            RequestModel::Nothing,
        )
    } else {
        (saved(m), RequestModel::Launch)
    }
}

/// Enter on the focused element.
pub open spec fn entered(m: AppModel) -> (AppModel, RequestModel) {
    match m.focus {
        Focus::Browser | Focus::Profile | Focus::Container => (
            dropdown_toggled(m, m.focus),
            RequestModel::Nothing,
        ),
        Focus::IncognitoToggle => (incognito_toggled(m), RequestModel::Nothing),
        Focus::NewWindowToggle => (new_window_toggled(m), RequestModel::Nothing),
        Focus::CopyButton => copy_requested(m),
        Focus::OpenButton => open_requested(m),
        Focus::QuitButton => (AppModel { exit_requested: true, ..m }, RequestModel::Nothing),
        Focus::Url => (m, RequestModel::Nothing),
    }
}

/// A shortcut letter outside the URL field: open, copy (not with Control),
/// incognito, new window, quit.
pub open spec fn shortcut(m: AppModel, c: char, ctrl: bool) -> (AppModel, RequestModel) {
    if c == 'o' {
        open_requested(m)
    } else if (c == 'c' || c == 'C') && !ctrl {
        copy_requested(m)
    } else if c == 'i' {
        (incognito_toggled(m), RequestModel::Nothing)
    } else if c == 'w' {
        (new_window_toggled(m), RequestModel::Nothing)
    } else if c == 'q' {
        (AppModel { exit_requested: true, ..m }, RequestModel::Nothing)
    } else {
        (m, RequestModel::Nothing)
    }
}

/// Focus moved forward, closing the dropdown.
pub open spec fn focused_next(m: AppModel) -> AppModel {
    AppModel { focus: next_focus(m), dropdown_open: None, ..m }
}

/// Focus moved back, closing the dropdown.
pub open spec fn focused_previous(m: AppModel) -> AppModel {
    AppModel { focus: previous_focus(m), dropdown_open: None, ..m }
}

/// A key press: messages are cleared, then Tab and Shift-Tab move focus,
/// Escape closes the dropdown, Enter acts on the focused element, Up and
/// Down move in the open dropdown or else between elements, the other keys
/// edit the URL at its cursor while it is focused, and letters elsewhere
/// are shortcuts.
pub open spec fn key_handled(m0: AppModel, key: KeyInput) -> (AppModel, RequestModel) {
    let m = AppModel { error: None, info: None, ..m0 };
    let at_url = m.focus == Focus::Url;
    let pos = m.url_cursor_pos;
    match key.code {
        Key::Tab => (focused_next(m), RequestModel::Nothing),
        Key::BackTab => (focused_previous(m), RequestModel::Nothing),
        Key::Esc => (AppModel { dropdown_open: None, ..m }, RequestModel::Nothing),
        Key::Enter => entered(m),
        Key::Up => if m.dropdown_open is Some {
            previous_in_dropdown(m)
        } else {
            (focused_previous(m), RequestModel::Nothing)
        },
        Key::Down => if m.dropdown_open is Some {
            next_in_dropdown(m)
        } else {
            (focused_next(m), RequestModel::Nothing)
        },
        Key::Left => if at_url {
            (AppModel { url_cursor_pos: cursor_left(m.url, pos), ..m }, RequestModel::Nothing)
        } else {
            (m, RequestModel::Nothing)
        },
        Key::Right => if at_url {
            (AppModel { url_cursor_pos: cursor_right(m.url, pos), ..m }, RequestModel::Nothing)
        } else {
            (m, RequestModel::Nothing)
        },
        Key::Backspace => if at_url {
            let (u, p) = backspace_at(m.url, pos);
            (AppModel { url: u, url_cursor_pos: p, ..m }, RequestModel::Nothing)
        } else {
            (m, RequestModel::Nothing)
        },
        Key::Delete => if at_url {
            let (u, p) = delete_at(m.url, pos);
            (AppModel { url: u, url_cursor_pos: p, ..m }, RequestModel::Nothing)
        } else {
            (m, RequestModel::Nothing)
        },
        Key::Char(c) => if at_url {
            let (u, p) = typed_at(m.url, pos, c);
            (AppModel { url: u, url_cursor_pos: p, ..m }, RequestModel::Nothing)
        } else {
            shortcut(m, c, key.ctrl)
        },
        Key::Other => (m, RequestModel::Nothing),
    }
}

/// Index of the browser named `name`, if any.
pub(crate) fn browser_position(bs: &Vec<Browser>, name: &String) -> (r: Option<usize>)
    ensures
        r matches Some(i) ==> i < bs@.len(),
        match r {
            Some(i) => first_index(browser_names(bs@), name@) == Some(i as int),
            None => first_index(browser_names(bs@), name@) is None,
        },
{
    let mut i: usize = 0;
    while i < bs.len()
        invariant
            i <= bs.len(),
            forall|j: int| 0 <= j < i ==> browser_names(bs@)[j] != name@,
        decreases bs.len() - i,
    {
        if bs[i].name == *name {
            proof {
                lemma_first_index(browser_names(bs@), name@, i as int);
            }
            return Some(i);
        }
        i += 1;
    }
    None
}

/// Index of the profile named `name`, if any.
pub(crate) fn profile_position(ps: &Vec<Profile>, name: &String) -> (r: Option<usize>)
    ensures
        r matches Some(i) ==> i < ps@.len(),
        match r {
            Some(i) => first_index(profile_names(profile_views(ps@)), name@) == Some(i as int),
            None => first_index(profile_names(profile_views(ps@)), name@) is None,
        },
{
    let ghost names = profile_names(profile_views(ps@));
    let mut i: usize = 0;
    while i < ps.len()
        invariant
            i <= ps.len(),
            names == profile_names(profile_views(ps@)),
            forall|j: int| 0 <= j < i ==> names[j] != name@,
        decreases ps.len() - i,
    {
        if ps[i].name == *name {
            proof {
                lemma_first_index(names, name@, i as int);
            }
            return Some(i);
        }
        i += 1;
    }
    None
}

/// Index of the container named `name`, if any.
pub(crate) fn container_position(cs: &Vec<Container>, name: &String) -> (r: Option<usize>)
    ensures
        r matches Some(i) ==> i < cs@.len(),
        match r {
            Some(i) => first_index(container_names(cs@), name@) == Some(i as int),
            None => first_index(container_names(cs@), name@) is None,
        },
{
    let mut i: usize = 0;
    while i < cs.len()
        invariant
            i <= cs.len(),
            forall|j: int| 0 <= j < i ==> container_names(cs@)[j] != name@,
        decreases cs.len() - i,
    {
        if cs[i].name == *name {
            proof {
                lemma_first_index(container_names(cs@), name@, i as int);
            }
            return Some(i);
        }
        i += 1;
    }
    None
}

impl App {
    /// Creates a new App instance with default state: the URL given (its
    /// cursor at the end) and the configuration, no browsers yet; focus
    /// starts on the browser menu when a URL was given.
    pub fn new(initial_url: Option<String>, config: Config) -> (r: App)
        ensures
            r@.url == (match initial_url {
                Some(u) => u@,
                None => Seq::<char>::empty(),
            }),
            r@.url_cursor_pos == utf8(r@.url).len(),
            r@.browsers.len() == 0,
            r@.profiles.len() == 0,
            r@.containers.len() == 0,
            r@.selected_browser == 0,
            r@.selected_profile == 0,
            r@.selected_container is None,
            !r@.incognito,
            !r@.new_window,
            r@.focus == (if initial_url is Some {
                Focus::Browser
            } else {
                Focus::Url
            }),
            r@.error is None,
            r@.info is None,
            r@.dropdown_open is None,
            r@.config == config@,
            !r@.exit_requested,
            r@ == new_model(
                match initial_url {
                    Some(u) => Some(u@),
                    None => None,
                },
                config@,
            ),
            wf(r@),
    {
        let url_provided = initial_url.is_some();
        let url = match initial_url {
            Some(u) => u,
            None => String::new(),
        };
        let url_len = byte_len(&url);
        let app = App {
            url,
            url_cursor_pos: url_len,
            browsers: Vec::new(),
            profiles: Vec::new(),
            containers: Vec::new(),
            selected_browser: 0,
            selected_profile: 0,
            selected_container: None,
            incognito: false,
            new_window: false,
            focus: if url_provided {
                Focus::Browser
            } else {
                Focus::Url
            },
            error: None,
            info: None,
            dropdown_open: None,
            config,
            exit_requested: false,
        };
        assert(profile_views(app.profiles@) =~= Seq::<(Seq<char>, PathBuf, bool)>::empty());
        proof {
            lemma_boundary_ends(app.url@);
        }
        app
    }

    /// Whether the state keeps its invariant `wf`: the cursor on a character
    /// boundary and the selections in their lists.
    pub fn well_formed(&self) -> (r: bool)
        ensures
            r == wf(self@),
    {
        self.url.as_str().is_char_boundary(self.url_cursor_pos)
            && (self.browsers.len() == 0 || self.selected_browser < self.browsers.len())
            && (self.profiles.len() == 0 || self.selected_profile < self.profiles.len())
            && match self.selected_container {
            Some(s) => s < usize::MAX,
            None => true,
        }
    }

    /// The binary of the selected browser.
    pub(crate) fn selected_binary_name(&self) -> (r: String)
        requires
            self.selected_browser < self.browsers@.len(),
        ensures
            r@ == selected_binary(self@),
    {
        let w = first_word_str(self.browsers[self.selected_browser].command.as_str());
        string_of(&w)
    }

    /// Refreshes the list of browsers with the ones found.
    pub fn refresh_browsers(&mut self, browsers: Vec<Browser>) -> (r: AppRequest)
        requires
            wf(old(self)@),
        ensures
            (final(self)@, r@) == browsers_refreshed(old(self)@, browsers@),
            wf(final(self)@),
    {
        let empty = browsers.len() == 0;
        self.browsers = browsers;
        if empty {
            self.error = Some(owned("No browsers found"));
            AppRequest::Nothing
        } else {
            if self.selected_browser >= self.browsers.len() {
                self.selected_browser = 0;
            }
            self.lists_update_from(AfterLists::Done)
        }
    }

    fn lists_update_from(&mut self, k: AfterLists) -> (r: AppRequest)
        requires
            wf(old(self)@),
        ensures
            (final(self)@, r@) == lists_update(old(self)@, k),
            wf(final(self)@),
        decreases rank_lists(k) + 1,
    {
        if self.browsers.len() == 0 {
            self.profiles = Vec::new();
            self.containers = Vec::new();
            assert(profile_views(self.profiles@) =~= Seq::<(Seq<char>, PathBuf, bool)>::empty());
            return self.lists_done(k);
        }
        self.selected_profile = 0;
        self.selected_container = None;
        let binary = self.selected_binary_name();
        match browser_family(binary.as_str()) {
            BrowserFamily::Other => {
                self.profiles = detect_unknown_profiles();
                self.containers = Vec::new();
                if self.selected_profile >= self.profiles.len() {
                    self.selected_profile = 0;
                }
                self.lists_done(k)
            },
            fam => AppRequest::Profiles { family: fam, binary_name: binary, then: k },
        }
    }

    /// Updates the profile and container lists based on the selected browser
    pub fn update_profile_and_container_lists(&mut self) -> (r: AppRequest)
        requires
            wf(old(self)@),
        ensures
            (final(self)@, r@) == lists_update(old(self)@, AfterLists::Done),
            wf(final(self)@),
    {
        self.lists_update_from(AfterLists::Done)
    }

    /// Takes the profiles found for the selected browser (of family
    /// `family`), then goes on as `then` says.
    pub fn receive_profiles(&mut self, family: BrowserFamily, then: AfterLists, detected: Vec<
        Profile,
    >) -> (r: AppRequest)
        requires
            wf(old(self)@),
            old(self).selected_profile == 0,
        ensures
            (final(self)@, r@) == profiles_received(old(self)@, family, then, profile_views(
                detected@,
            )),
            wf(final(self)@),
    {
        let nonempty = detected.len() > 0;
        if family == BrowserFamily::Firefox && nonempty {
            self.profiles = detected;
            self.containers_update_from(AfterContainers::FinishLists(then))
        } else {
            if nonempty {
                self.profiles = detected;
            } else {
                self.profiles = detect_unknown_profiles();
            }
            self.containers = Vec::new();
            if self.selected_profile >= self.profiles.len() {
                self.selected_profile = 0;
            }
            self.lists_done(then)
        }
    }

    fn lists_done(&mut self, k: AfterLists) -> (r: AppRequest)
        requires
            wf(old(self)@),
        ensures
            (final(self)@, r@) == lists_done(old(self)@, k),
            wf(final(self)@),
        decreases rank_lists(k),
    {
        match k {
            AfterLists::Done => AppRequest::Nothing,
            AfterLists::ApplyConfigProfile => self.apply_config_profile(),
        }
    }

    fn apply_config_profile(&mut self) -> (r: AppRequest)
        requires
            wf(old(self)@),
        ensures
            (final(self)@, r@) == apply_config_profile(old(self)@),
            wf(final(self)@),
        decreases 3nat,
    {
        let found = match &self.config.last_profile {
            Some(n) => profile_position(&self.profiles, n),
            None => None,
        };
        match found {
            Some(i) => {
                self.selected_profile = i;
            },
            None => {},
        }
        self.containers_update_from(AfterContainers::ApplyConfigContainer)
    }

    fn containers_update_from(&mut self, k: AfterContainers) -> (r: AppRequest)
        requires
            wf(old(self)@),
        ensures
            (final(self)@, r@) == containers_update(old(self)@, k),
            wf(final(self)@),
        decreases rank_containers(k) + 1,
    {
        if self.browsers.len() == 0 || self.profiles.len() == 0 {
            self.containers = Vec::new();
            return self.containers_done(k);
        }
        let binary = self.selected_binary_name();
        if is_firefox_based(binary.as_str()) {
            AppRequest::Containers { profile_index: self.selected_profile, then: k }
        } else {
            self.containers = Vec::new();
            self.selected_container = None;
            self.containers_done(k)
        }
    }

    /// Updates the container list for the currently selected profile
    pub fn update_containers(&mut self) -> (r: AppRequest)
        requires
            wf(old(self)@),
        ensures
            (final(self)@, r@) == containers_update(old(self)@, AfterContainers::Done),
            wf(final(self)@),
    {
        self.containers_update_from(AfterContainers::Done)
    }

    /// Takes the containers found for the selected profile, selecting the
    /// last used one if present, then goes on as `then` says.
    pub fn receive_containers(&mut self, then: AfterContainers, detected: Vec<Container>) -> (r:
        AppRequest)
        requires
            wf(old(self)@),
        ensures
            (final(self)@, r@) == containers_received(old(self)@, then, detected@),
            wf(final(self)@),
    {
        let selected = if detected.len() == 0 {
            None
        } else {
            match &self.config.last_container {
                Some(n) => match container_position(&detected, n) {
                    Some(i) => Some(i),
                    None => Some(0),
                },
                None => Some(0),
            }
        };
        self.containers = detected;
        self.selected_container = selected;
        self.containers_done(then)
    }

    fn containers_done(&mut self, k: AfterContainers) -> (r: AppRequest)
        requires
            wf(old(self)@),
        ensures
            (final(self)@, r@) == containers_done(old(self)@, k),
            wf(final(self)@),
        decreases rank_containers(k),
    {
        match k {
            AfterContainers::Done => AppRequest::Nothing,
            AfterContainers::FinishLists(l) => {
                if self.selected_profile >= self.profiles.len() {
                    self.selected_profile = 0;
                }
                self.lists_done(l)
            },
            AfterContainers::ApplyConfigContainer => {
                self.apply_config_container();
                AppRequest::Nothing
            },
        }
    }

    fn apply_config_container(&mut self)
        requires
            wf(old(self)@),
        ensures
            final(self)@ == apply_config_container(old(self)@),
            wf(final(self)@),
    {
        let found = match &self.config.last_container {
            Some(n) => container_position(&self.containers, n),
            None => None,
        };
        let n = self.containers.len();
        match found {
            Some(i) => {
                assert(i < n);
                self.selected_container = Some(i);
            },
            None => {},
        }
        self.incognito = self.config.last_incognito;
        self.new_window = self.config.last_new_window;
    }

    /// Applies the saved configuration to the app state
    pub fn apply_config(&mut self) -> (r: AppRequest)
        requires
            wf(old(self)@),
        ensures
            (final(self)@, r@) == apply_config_spec(old(self)@),
            wf(final(self)@),
    {
        let found = match &self.config.last_browser {
            Some(n) => browser_position(&self.browsers, n),
            None => None,
        };
        match found {
            Some(i) => {
                self.selected_browser = i;
                self.lists_update_from(AfterLists::ApplyConfigProfile)
            },
            None => self.apply_config_profile(),
        }
    }
}


impl App {
    /// Records the current choices in the configuration (writing it to disk
    /// is the caller's part).
    pub fn save_config(&mut self)
        requires
            wf(old(self)@),
        ensures
            final(self)@ == saved(old(self)@),
            wf(final(self)@),
    {
        if self.selected_browser < self.browsers.len() {
            self.config.last_browser = Some(self.browsers[self.selected_browser].name.clone());
        }
        if self.selected_profile < self.profiles.len() {
            self.config.last_profile = Some(self.profiles[self.selected_profile].name.clone());
        }
        match self.selected_container {
            Some(i) => {
                if i < self.containers.len() {
                    self.config.last_container = Some(self.containers[i].name.clone());
                }
            },
            None => {},
        }
        self.config.last_incognito = self.incognito;
        self.config.last_new_window = self.new_window;
    }

    /// Handles the tick event (for future use)
    pub fn tick(&mut self)
        ensures
            final(self)@ == old(self)@,
    {
    }

    /// Sets an error message
    pub fn set_error(&mut self, message: String)
        ensures
            final(self)@ == (AppModel { error: Some(message@), ..old(self)@ }),
    {
        self.error = Some(message);
    }

    /// Clears the error message
    pub fn clear_error(&mut self)
        ensures
            final(self)@ == (AppModel { error: None, ..old(self)@ }),
    {
        self.error = None;
    }

    /// Sets an info message
    pub fn set_info(&mut self, message: String)
        ensures
            final(self)@ == (AppModel { info: Some(message@), ..old(self)@ }),
    {
        self.info = Some(message);
    }

    /// Clears the info message
    pub fn clear_info(&mut self)
        ensures
            final(self)@ == (AppModel { info: None, ..old(self)@ }),
    {
        self.info = None;
    }

    /// Requests the application to exit (allows cleanup before exit)
    pub fn exit(&mut self)
        ensures
            final(self)@ == (AppModel { exit_requested: true, ..old(self)@ }),
    {
        self.exit_requested = true;
    }

    /// Toggles the dropdown for the given focus
    pub fn toggle_dropdown(&mut self, focus: Focus)
        ensures
            final(self)@ == dropdown_toggled(old(self)@, focus),
    {
        match self.dropdown_open {
            Some(open_focus) if open_focus == focus => {
                self.dropdown_open = None;
            },
            _ => {
                self.dropdown_open = Some(focus);
            },
        }
    }

    /// Closes the currently open dropdown
    pub fn close_dropdown(&mut self)
        ensures
            final(self)@ == (AppModel { dropdown_open: None, ..old(self)@ }),
    {
        self.dropdown_open = None;
    }

    /// Toggles incognito mode (mutually exclusive with new_window)
    pub fn toggle_incognito(&mut self)
        ensures
            final(self)@ == incognito_toggled(old(self)@),
            !(final(self).incognito && final(self).new_window),
    {
        if self.incognito {
            self.incognito = false;
        } else {
            self.incognito = true;
            self.new_window = false;
            if self.selected_container.is_some() {
                self.set_info(owned("Incognito is not available with containers"));
            }
        }
    }

    /// Toggles new window mode (mutually exclusive with incognito)
    pub fn toggle_new_window(&mut self)
        ensures
            final(self)@ == new_window_toggled(old(self)@),
            !(final(self).incognito && final(self).new_window),
    {
        if self.new_window {
            self.new_window = false;
        } else {
            self.new_window = true;
            self.incognito = false;
        }
    }

    /// Moves the selection in the currently open dropdown
    pub fn select_next_in_dropdown(&mut self) -> (r: AppRequest)
        requires
            wf(old(self)@),
        ensures
            (final(self)@, r@) == next_in_dropdown(old(self)@),
            wf(final(self)@),
    {
        match self.dropdown_open {
            Some(Focus::Browser) => {
                if self.browsers.len() > 0 {
                    self.selected_browser = (self.selected_browser + 1) % self.browsers.len();
                    return self.lists_update_from(AfterLists::Done);
                }
                AppRequest::Nothing
            },
            Some(Focus::Profile) => {
                if self.profiles.len() > 0 {
                    self.selected_profile = (self.selected_profile + 1) % self.profiles.len();
                    return self.containers_update_from(AfterContainers::Done);
                }
                AppRequest::Nothing
            },
            Some(Focus::Container) => {
                if self.containers.len() > 0 {
                    match self.selected_container {
                        Some(sel) => {
                            self.selected_container = Some((sel + 1) % self.containers.len());
                        },
                        None => {},
                    }
                }
                AppRequest::Nothing
            },
            _ => AppRequest::Nothing,
        }
    }

    /// Moves the selection in the currently open dropdown backwards
    pub fn select_previous_in_dropdown(&mut self) -> (r: AppRequest)
        requires
            wf(old(self)@),
        ensures
            (final(self)@, r@) == previous_in_dropdown(old(self)@),
            wf(final(self)@),
    {
        match self.dropdown_open {
            Some(Focus::Browser) => {
                if self.browsers.len() > 0 {
                    if self.selected_browser == 0 {
                        self.selected_browser = self.browsers.len() - 1;
                    } else {
                        self.selected_browser -= 1;
                    }
                    return self.lists_update_from(AfterLists::Done);
                }
                AppRequest::Nothing
            },
            Some(Focus::Profile) => {
                if self.profiles.len() > 0 {
                    if self.selected_profile == 0 {
                        self.selected_profile = self.profiles.len() - 1;
                    } else {
                        self.selected_profile -= 1;
                    }
                    return self.containers_update_from(AfterContainers::Done);
                }
                AppRequest::Nothing
            },
            Some(Focus::Container) => {
                if self.containers.len() > 0 {
                    match self.selected_container {
                        Some(sel) => {
                            if sel == 0 {
                                self.selected_container = Some(self.containers.len() - 1);
                            } else {
                                self.selected_container = Some(sel - 1);
                            }
                        },
                        None => {},
                    }
                }
                AppRequest::Nothing
            },
            _ => AppRequest::Nothing,
        }
    }

    /// Moves focus to the next focusable element
    pub fn focus_next(&mut self)
        requires
            wf(old(self)@),
        ensures
            final(self)@ == focused_next(old(self)@),
    {
        let visible = self.is_container_row_visible();
        self.focus = match self.focus {
            Focus::Url => Focus::Browser,
            Focus::Browser => Focus::Profile,
            Focus::Profile => if visible {
                Focus::Container
            } else {
                Focus::IncognitoToggle
            },
            Focus::Container => Focus::IncognitoToggle,
            Focus::IncognitoToggle => Focus::NewWindowToggle,
            Focus::NewWindowToggle => Focus::CopyButton,
            Focus::CopyButton => Focus::OpenButton,
            Focus::OpenButton => Focus::QuitButton,
            Focus::QuitButton => Focus::Url,
        };
        self.close_dropdown();
    }

    /// Moves focus to the previous focusable element
    pub fn focus_previous(&mut self)
        requires
            wf(old(self)@),
        ensures
            final(self)@ == focused_previous(old(self)@),
    {
        let visible = self.is_container_row_visible();
        self.focus = match self.focus {
            Focus::Url => Focus::QuitButton,
            Focus::Browser => Focus::Url,
            Focus::Profile => Focus::Browser,
            Focus::Container => Focus::Profile,
            Focus::IncognitoToggle => if visible {
                Focus::Container
            } else {
                Focus::Profile
            },
            Focus::NewWindowToggle => Focus::IncognitoToggle,
            Focus::CopyButton => Focus::NewWindowToggle,
            Focus::OpenButton => Focus::CopyButton,
            Focus::QuitButton => Focus::OpenButton,
        };
        self.close_dropdown();
    }

    /// Returns true if the container row should be visible
    pub fn is_container_row_visible(&mut self) -> (r: bool)
        requires
            wf(old(self)@),
        ensures
            r == container_row_visible(old(self)@),
            final(self)@ == old(self)@,
    {
        if self.browsers.len() == 0 {
            return false;
        }
        let binary = self.selected_binary_name();
        is_firefox_based(binary.as_str()) && self.containers.len() > 0
    }

    /// Handles the Enter key press based on current focus
    fn handle_enter(&mut self) -> (r: AppRequest)
        requires
            wf(old(self)@),
        ensures
            (final(self)@, r@) == entered(old(self)@),
            wf(final(self)@),
    {
        match self.focus {
            Focus::Browser | Focus::Profile | Focus::Container => {
                let f = self.focus;
                self.toggle_dropdown(f);
                AppRequest::Nothing
            },
            Focus::IncognitoToggle => {
                self.toggle_incognito();
                AppRequest::Nothing
            },
            Focus::NewWindowToggle => {
                self.toggle_new_window();
                AppRequest::Nothing
            },
            Focus::CopyButton => self.copy_url_to_clipboard(),
            Focus::OpenButton => self.handle_open(),
            Focus::QuitButton => {
                self.exit();
                AppRequest::Nothing
            },
            Focus::Url => AppRequest::Nothing,
        }
    }

    /// Asks to copy the current URL to the clipboard; a blank URL is refused
    /// with a message.
    pub fn copy_url_to_clipboard(&mut self) -> (r: AppRequest)
        ensures
            (final(self)@, r@) == copy_requested(old(self)@),
    {
        if is_blank(self.url.as_str()) {
            self.set_error(owned("URL is empty"));
            return AppRequest::Nothing;
        }
        AppRequest::CopyUrl
    }

    /// Reports how copying the URL went.
    pub fn finish_copy(&mut self, outcome: Result<(), String>)
        ensures
            final(self)@ == (match outcome {
                Ok(_) => AppModel { info: Some("URL copied to clipboard!"@), ..old(self)@ },
                Err(e) => AppModel { error: Some("Failed to copy: "@ + e@), ..old(self)@ },
            }),
    {
        match outcome {
            Ok(_) => self.set_info(owned("URL copied to clipboard!")),
            Err(e) => self.set_error(concat("Failed to copy: ", e.as_str())),
        }
    }

    /// Handles the open action: validates, records the choices and asks for
    /// the browser to be started.
    fn handle_open(&mut self) -> (r: AppRequest)
        requires
            wf(old(self)@),
        ensures
            (final(self)@, r@) == open_requested(old(self)@),
            wf(final(self)@),
    {
        if is_blank(self.url.as_str()) {
            self.set_error(owned("URL cannot be empty"));
            return AppRequest::Nothing;
        }
        if self.browsers.len() == 0 {
            self.set_error(owned("No browsers available"));
            return AppRequest::Nothing;
        }
        if self.incognito && self.selected_container.is_some() {
            self.set_error(owned("Incognito is not available with containers"));
            return AppRequest::Nothing;
        }
        self.save_config();
        AppRequest::Launch
    }

    /// Reports how starting the browser went: exit on success, a message on
    /// failure.
    pub fn finish_open(&mut self, outcome: Result<(), String>)
        ensures
            final(self)@ == (match outcome {
                Ok(_) => AppModel { exit_requested: true, ..old(self)@ },
                Err(e) => AppModel {
                    error: Some("Failed to launch browser: "@ + e@),
                    ..old(self)@
                },
            }),
    {
        match outcome {
            Ok(_) => self.exit(),
            Err(e) => self.set_error(concat("Failed to launch browser: ", e.as_str())),
        }
    }

    fn shortcut_key(&mut self, c: char, ctrl: bool) -> (r: AppRequest)
        requires
            wf(old(self)@),
        ensures
            (final(self)@, r@) == shortcut(old(self)@, c, ctrl),
            wf(final(self)@),
    {
        if c == 'o' {
            self.handle_open()
        } else if (c == 'c' || c == 'C') && !ctrl {
            self.copy_url_to_clipboard()
        } else if c == 'i' {
            self.toggle_incognito();
            AppRequest::Nothing
        } else if c == 'w' {
            self.toggle_new_window();
            AppRequest::Nothing
        } else if c == 'q' {
            self.exit();
            AppRequest::Nothing
        } else {
            AppRequest::Nothing
        }
    }

    /// Handles a key press event
    pub fn handle_key_event(&mut self, key: KeyInput) -> (r: AppRequest)
        requires
            wf(old(self)@),
        ensures
            (final(self)@, r@) == key_handled(old(self)@, key),
            wf(final(self)@),
    {
        self.clear_error();
        self.clear_info();
        let at_url = self.focus == Focus::Url;
        match key.code {
            Key::Tab => {
                self.focus_next();
                AppRequest::Nothing
            },
            Key::BackTab => {
                self.focus_previous();
                AppRequest::Nothing
            },
            Key::Esc => {
                self.close_dropdown();
                AppRequest::Nothing
            },
            Key::Enter => self.handle_enter(),
            Key::Up => {
                if self.dropdown_open.is_some() {
                    self.select_previous_in_dropdown()
                } else {
                    self.focus_previous();
                    AppRequest::Nothing
                }
            },
            Key::Down => {
                if self.dropdown_open.is_some() {
                    self.select_next_in_dropdown()
                } else {
                    self.focus_next();
                    AppRequest::Nothing
                }
            },
            Key::Left => {
                if at_url {
                    self.url_cursor_pos = move_left(&self.url, self.url_cursor_pos);
                }
                AppRequest::Nothing
            },
            Key::Right => {
                if at_url {
                    self.url_cursor_pos = move_right(&self.url, self.url_cursor_pos);
                }
                AppRequest::Nothing
            },
            Key::Backspace => {
                if at_url {
                    let (u, p) = backspace(&self.url, self.url_cursor_pos);
                    self.url = u;
                    self.url_cursor_pos = p;
                }
                AppRequest::Nothing
            },
            Key::Delete => {
                if at_url {
                    let (u, p) = delete(&self.url, self.url_cursor_pos);
                    self.url = u;
                    self.url_cursor_pos = p;
                }
                AppRequest::Nothing
            },
            Key::Char(c) => {
                if at_url {
                    let (u, p) = type_char(&self.url, self.url_cursor_pos, c);
                    self.url = u;
                    self.url_cursor_pos = p;
                    AppRequest::Nothing
                } else {
                    self.shortcut_key(c, key.ctrl)
                }
            },
            Key::Other => AppRequest::Nothing,
        }
    }
}


/// Law: moving focus forward and then back returns to the element that had
/// it, and so does moving back and then forward, unless the container row
/// was focused while hidden.
pub proof fn lemma_focus_round_trip(m: AppModel)
    requires
        m.focus != Focus::Container || container_row_visible(m),
    ensures
        focused_previous(focused_next(m)).focus == m.focus,
        focused_next(focused_previous(m)).focus == m.focus,
{
    assert(container_row_visible(focused_next(m)) == container_row_visible(m));
    assert(container_row_visible(focused_previous(m)) == container_row_visible(m));
}

/// Law: toggling the same dropdown twice leaves the dropdown state as it was,
/// when no other dropdown was open.
pub proof fn lemma_dropdown_toggle_twice(m: AppModel, f: Focus)
    requires
        m.dropdown_open is None || m.dropdown_open == Some(f),
    ensures
        dropdown_toggled(dropdown_toggled(m, f), f) == m,
{
}

/// Law: in the open container dropdown, stepping forward and then back (or
/// back and then forward) returns to the selected container.
pub proof fn lemma_container_step_round_trip(m: AppModel)
    requires
        m.dropdown_open == Some(Focus::Container),
        0 < m.containers.len() <= usize::MAX,
        m.selected_container matches Some(s) && s < m.containers.len(),
    ensures
        previous_in_dropdown(next_in_dropdown(m).0).0 == m,
        next_in_dropdown(previous_in_dropdown(m).0).0 == m,
{
    let s = m.selected_container->0;
    let n = m.containers.len() as int;
    let fwd: usize = ((s + 1) % n) as usize;
    if s + 1 < n {
        assert((s + 1) % n == s + 1) by (nonlinear_arith)
            requires
                0 <= s + 1 < n,
        ;
    } else {
        assert((s + 1) % n == 0) by (nonlinear_arith)
            requires
                s + 1 == n,
                n > 0,
        ;
    }
    let m1 = next_in_dropdown(m).0;
    assert(m1 == AppModel { selected_container: Some(fwd), ..m });
    assert(wrap_back(fwd, m.containers.len()) == s);
    let m2 = previous_in_dropdown(m1).0;
    assert(m2 == AppModel { selected_container: Some(s), ..m });
    let back = wrap_back(s, m.containers.len());
    assert(back < n);
    if s == 0 {
        assert((back + 1) % n == 0) by (nonlinear_arith)
            requires
                back + 1 == n,
                n > 0,
        ;
    } else {
        assert((back + 1) % n == s) by (nonlinear_arith)
            requires
                back + 1 == s,
                0 < s < n,
        ;
    }
    let m3 = previous_in_dropdown(m).0;
    assert(m3 == AppModel { selected_container: Some(back), ..m });
    let m4 = next_in_dropdown(m3).0;
    assert(m4 == AppModel { selected_container: Some(s), ..m });
}

/// Law: in the open browser dropdown, Up selects the browser before the
/// selected one, wrapping from the first to the last, and Down the one after
/// it, wrapping from the last to the first; Down then Up, or Up then Down,
/// returns to the selected browser. The browsers and the open dropdown stay.
pub proof fn lemma_browser_keys_round_trip(m: AppModel, ctrl: bool)
    requires
        m.dropdown_open == Some(Focus::Browser),
        0 < m.browsers.len() <= usize::MAX,
        m.selected_browser < m.browsers.len(),
    ensures
        key_handled(m, (KeyInput { code: Key::Up, ctrl })).0.selected_browser + 1 == (
        if m.selected_browser == 0 {
            m.browsers.len() as int
        } else {
            m.selected_browser as int
        }),
        key_handled(m, (KeyInput { code: Key::Down, ctrl })).0.selected_browser == (
        if m.selected_browser + 1 == m.browsers.len() {
            0
        } else {
            m.selected_browser + 1
        }),
        key_handled(m, (KeyInput { code: Key::Up, ctrl })).0.browsers == m.browsers,
        key_handled(m, (KeyInput { code: Key::Up, ctrl })).0.dropdown_open == m.dropdown_open,
        key_handled(m, (KeyInput { code: Key::Down, ctrl })).0.browsers == m.browsers,
        key_handled(m, (KeyInput { code: Key::Down, ctrl })).0.dropdown_open == m.dropdown_open,
        key_handled(
            key_handled(m, (KeyInput { code: Key::Down, ctrl })).0,
            (KeyInput { code: Key::Up, ctrl }),
        ).0.selected_browser == m.selected_browser,
        key_handled(
            key_handled(m, (KeyInput { code: Key::Up, ctrl })).0,
            (KeyInput { code: Key::Down, ctrl }),
        ).0.selected_browser == m.selected_browser,
{
    let s = m.selected_browser as int;
    let n = m.browsers.len() as int;
    if s + 1 < n {
        assert((s + 1) % n == s + 1) by (nonlinear_arith)
            requires
                0 <= s + 1 < n,
        ;
    } else {
        assert((s + 1) % n == 0) by (nonlinear_arith)
            requires
                s + 1 == n,
                n > 0,
        ;
    }
    let back = wrap_back(m.selected_browser, m.browsers.len()) as int;
    if s == 0 {
        assert((back + 1) % n == 0) by (nonlinear_arith)
            requires
                back + 1 == n,
                n > 0,
        ;
    } else {
        assert((back + 1) % n == s) by (nonlinear_arith)
            requires
                back + 1 == s,
                0 < s < n,
        ;
    }
}

/// Law: outside the URL field and without Control, `c` and `C` both do what
/// the Copy button does: the messages are cleared, and the URL is asked to be
/// copied exactly when it is not blank, else "URL is empty" is reported.
pub proof fn lemma_copy_keys(m: AppModel)
    requires
        m.focus != Focus::Url,
    ensures
        key_handled(m, (KeyInput { code: Key::Char('c'), ctrl: false })) == copy_requested(
            AppModel { error: None, info: None, ..m },
        ),
        key_handled(m, (KeyInput { code: Key::Char('C'), ctrl: false })) == copy_requested(
            AppModel { error: None, info: None, ..m },
        ),
        key_handled(m, (KeyInput { code: Key::Char('c'), ctrl: false })).1 is CopyUrl <==> trim(
            m.url,
        ).len() > 0,
        trim(m.url).len() == 0 ==> key_handled(m, (KeyInput { code: Key::Char('c'), ctrl: false }))
            == (AppModel { error: Some("URL is empty"@), info: None, ..m }, RequestModel::Nothing),
        m.focus == Focus::CopyButton ==> key_handled(m, (KeyInput { code: Key::Enter, ctrl: false }))
            == key_handled(m, (KeyInput { code: Key::Char('c'), ctrl: false })),
{
}

/// Law: incognito and a new window are never both chosen after either
/// toggle.
pub proof fn lemma_toggles_exclusive(m: AppModel)
    ensures
        !(incognito_toggled(m).incognito && incognito_toggled(m).new_window),
        !(new_window_toggled(m).incognito && new_window_toggled(m).new_window),
{
}

/// Law: a request to start the browser is only made with a non-blank URL,
/// some browser, and not incognito together with a container; and then the
/// configuration records the current choices.
pub proof fn lemma_open_guarded(m: AppModel)
    ensures
        open_requested(m).1 matches RequestModel::Launch ==> {
            &&& trim(m.url).len() > 0
            &&& m.browsers.len() > 0
            &&& !(m.incognito && m.selected_container is Some)
            &&& open_requested(m).0 == saved(m)
        },
{
}

/// Law: in the URL field, typing a character and then pressing Backspace
/// leaves the URL and its cursor as they were; only the messages are
/// cleared.
pub proof fn lemma_type_then_backspace(m: AppModel, c: char, ctrl: bool)
    requires
        wf(m),
        m.focus == Focus::Url,
        m.url_cursor_pos + utf8(seq![c]).len() <= usize::MAX,
    ensures
        key_handled(
            key_handled(m, (KeyInput { code: Key::Char(c), ctrl })).0,
            (KeyInput { code: Key::Backspace, ctrl }),
        ) == (AppModel { error: None, info: None, ..m }, RequestModel::Nothing),
{
    lemma_backspace_after_typing(m.url, m.url_cursor_pos, c);
}

/// Law: opening checks, in this order, that the URL is not blank, that a
/// browser is available, and that incognito is not chosen together with a
/// container; the first check that fails is reported and nothing else
/// changes; when all pass, the choices are recorded and the browser is
/// asked to start.
pub proof fn lemma_open_checks(m: AppModel)
    ensures
        trim(m.url).len() == 0 ==> open_requested(m) == (
            AppModel { error: Some("URL cannot be empty"@), ..m },
            RequestModel::Nothing,
        ),
        trim(m.url).len() > 0 && m.browsers.len() == 0 ==> open_requested(m) == (
            AppModel { error: Some("No browsers available"@), ..m },
            RequestModel::Nothing,
        ),
        trim(m.url).len() > 0 && m.browsers.len() > 0 && m.incognito && m.selected_container
            is Some ==> open_requested(m) == (
            AppModel { error: Some("Incognito is not available with containers"@), ..m },
            RequestModel::Nothing,
        ),
        trim(m.url).len() > 0 && m.browsers.len() > 0 && !(m.incognito
            && m.selected_container is Some) ==> open_requested(m) == (saved(m), RequestModel::Launch),
{
}

/// Law: refreshing the lists for the selected browser keeps the browsers
/// and the selected one; without browsers both lists end empty; otherwise
/// the profile selection goes back to the first and no container is
/// selected, and a browser of no known family gets the single default
/// profile and no containers, while the others ask for their profiles.
pub proof fn lemma_lists_refreshed(m: AppModel)
    ensures
        lists_update(m, AfterLists::Done).0.browsers == m.browsers,
        lists_update(m, AfterLists::Done).0.selected_browser == m.selected_browser,
        m.browsers.len() == 0 ==> lists_update(m, AfterLists::Done) == (
            AppModel { profiles: seq![], containers: seq![], ..m },
            RequestModel::Nothing,
        ),
        m.browsers.len() > 0 ==> lists_update(m, AfterLists::Done).0.selected_profile == 0,
        m.browsers.len() > 0 ==> lists_update(m, AfterLists::Done).0.selected_container is None,
        m.browsers.len() > 0 && family_of(selected_binary(m)) == BrowserFamily::Other
            ==> lists_update(m, AfterLists::Done) == (
            AppModel {
                profiles: default_profiles(),
                containers: seq![],
                selected_profile: 0,
                selected_container: None,
                ..m
            },
            RequestModel::Nothing,
        ),
        m.browsers.len() > 0 && family_of(selected_binary(m)) != BrowserFamily::Other
            ==> lists_update(m, AfterLists::Done).1 == RequestModel::Profiles(
            family_of(selected_binary(m)),
            selected_binary(m),
            AfterLists::Done,
        ),
{
}

/// Law: once the profiles of the selected browser are received, the list
/// holds them, or the single default profile when none were found; a
/// Firefox-based browser with profiles goes on to ask for the containers
/// of the selected profile.
pub proof fn lemma_profiles_received(m: AppModel, fam: BrowserFamily, ps: Seq<(Seq<char>, PathBuf, bool)>)
    requires
        m.browsers.len() > 0,
        m.selected_profile == 0,
    ensures
        profiles_received(m, fam, AfterLists::Done, ps).0.profiles == (if ps.len() > 0 {
            ps
        } else {
            default_profiles()
        }),
        profiles_received(m, fam, AfterLists::Done, ps).0.selected_profile == 0,
        fam == BrowserFamily::Firefox && ps.len() > 0 && firefox_based(selected_binary(m))
            ==> profiles_received(m, fam, AfterLists::Done, ps).1 == RequestModel::Containers(
            0,
            AfterContainers::FinishLists(AfterLists::Done),
        ),
        !(fam == BrowserFamily::Firefox && ps.len() > 0) ==> profiles_received(
            m,
            fam,
            AfterLists::Done,
            ps,
        ).1 == RequestModel::Nothing,
{
}

/// Law: once containers are received, a container is selected exactly when
/// there are some, and the selection is in the list: the last used one
/// when present, else the first.
pub proof fn lemma_containers_received(m: AppModel, cs: Seq<Container>)
    ensures
        containers_received(m, AfterContainers::Done, cs).0.containers == cs,
        (containers_received(m, AfterContainers::Done, cs).0.selected_container is None) == (cs.len()
            == 0),
        containers_received(m, AfterContainers::Done, cs).0.selected_container matches Some(i) ==> i
            < cs.len(),
        containers_received(m, AfterContainers::Done, cs).1 == RequestModel::Nothing,
{
    match m.config.last_container {
        Some(n) => {
            lemma_first_index_found(container_names(cs), n);
        },
        None => {},
    }
}

/// Law: applying the saved configuration ends, once the containers it asks
/// for are received, with the toggles as the configuration records them.
pub proof fn lemma_apply_config_toggles(m: AppModel, cs: Seq<Container>)
    ensures
        containers_received(m, AfterContainers::ApplyConfigContainer, cs).0.incognito
            == m.config.last_incognito,
        containers_received(m, AfterContainers::ApplyConfigContainer, cs).0.new_window
            == m.config.last_new_window,
        containers_received(m, AfterContainers::ApplyConfigContainer, cs).1 == RequestModel::Nothing,
{
}

proof fn lemma_apply_profile_toggles(m: AppModel)
    ensures
        apply_config_profile(m).1 == RequestModel::Nothing ==> apply_config_profile(m).0.incognito
            == m.config.last_incognito && apply_config_profile(m).0.new_window
            == m.config.last_new_window,
{
}

proof fn lemma_apply_lists_toggles(m: AppModel)
    ensures
        lists_update(m, AfterLists::ApplyConfigProfile).1 == RequestModel::Nothing ==> lists_update(
            m,
            AfterLists::ApplyConfigProfile,
        ).0.incognito == m.config.last_incognito && lists_update(
            m,
            AfterLists::ApplyConfigProfile,
        ).0.new_window == m.config.last_new_window,
{
    if m.browsers.len() == 0 {
        lemma_apply_profile_toggles(AppModel { profiles: seq![], containers: seq![], ..m });
    } else {
        let m1 = AppModel { selected_profile: 0, selected_container: None, ..m };
        lemma_apply_profile_toggles(
            profile_in_range(AppModel { profiles: default_profiles(), containers: seq![], ..m1 }),
        );
    }
}

/// Law: applying the saved configuration, when it needs nothing found on
/// disk, leaves the toggles as the configuration records them.
pub proof fn lemma_apply_config_done(m: AppModel)
    ensures
        apply_config_spec(m).1 == RequestModel::Nothing ==> apply_config_spec(m).0.incognito
            == m.config.last_incognito && apply_config_spec(m).0.new_window
            == m.config.last_new_window,
{
    lemma_apply_profile_toggles(m);
    match m.config.last_browser {
        Some(n) => match first_index(browser_names(m.browsers), n) {
            Some(i) => lemma_apply_lists_toggles(AppModel { selected_browser: i as usize, ..m }),
            None => {},
        },
        None => {},
    }
}

/// Law: after the browsers found are handed over, the screen lists exactly
/// them, with a selection in range; none found is reported; the URL, its
/// cursor, focus, toggles and configuration are untouched.
pub proof fn lemma_browsers_refreshed(m: AppModel, bs: Seq<Browser>)
    ensures
        browsers_refreshed(m, bs).0.browsers == bs,
        bs.len() == 0 ==> browsers_refreshed(m, bs).0.error == Some("No browsers found"@),
        bs.len() > 0 ==> browsers_refreshed(m, bs).0.selected_browser < bs.len(),
        browsers_refreshed(m, bs).0.url == m.url,
        browsers_refreshed(m, bs).0.url_cursor_pos == m.url_cursor_pos,
        browsers_refreshed(m, bs).0.focus == m.focus,
        browsers_refreshed(m, bs).0.incognito == m.incognito,
        browsers_refreshed(m, bs).0.new_window == m.new_window,
        browsers_refreshed(m, bs).0.config == m.config,
{
}

/// Law: outside the URL field, `o` (with or without Control) and Enter on
/// the Open button both open: the messages are cleared and then the checks
/// of opening decide, as `lemma_open_checks` lists them.
pub proof fn lemma_open_keys(m: AppModel, ctrl: bool)
    requires
        m.focus != Focus::Url,
    ensures
        key_handled(m, (KeyInput { code: Key::Char('o'), ctrl })) == open_requested(
            AppModel { error: None, info: None, ..m },
        ),
        m.focus == Focus::OpenButton ==> key_handled(m, (KeyInput { code: Key::Enter, ctrl }))
            == open_requested(AppModel { error: None, info: None, ..m }),
{
}

/// The lists after refreshing them for the selected browser, when the
/// profiles asked for are `ps` and the containers asked for are `cs`.
pub open spec fn lists_settled(m: AppModel, ps: Seq<(Seq<char>, PathBuf, bool)>, cs: Seq<Container>) -> AppModel {
    let (m1, r1) = lists_update(m, AfterLists::Done);
    match r1 {
        RequestModel::Profiles(fam, _, k) => {
            let (m2, r2) = profiles_received(m1, fam, k, ps);
            match r2 {
                RequestModel::Containers(_, k2) => containers_received(m2, k2, cs).0,
                _ => m2,
            }
        },
        _ => m1,
    }
}

/// Law: once the lists are refreshed for the selected browser and every
/// request answered, whatever profiles and containers were found: the
/// browsers and the selected one are unchanged; without browsers both lists
/// are empty; otherwise there is at least one profile, the first selected,
/// a container is selected exactly when there are containers, within the
/// list, and there are containers only for a Firefox-based browser.
pub proof fn lemma_lists_settled(m: AppModel, ps: Seq<(Seq<char>, PathBuf, bool)>, cs: Seq<Container>)
    ensures
        lists_settled(m, ps, cs).browsers == m.browsers,
        lists_settled(m, ps, cs).selected_browser == m.selected_browser,
        same_screen(lists_settled(m, ps, cs), m),
        lists_settled(m, ps, cs).config == m.config,
        m.browsers.len() == 0 ==> lists_settled(m, ps, cs).profiles.len() == 0
            && lists_settled(m, ps, cs).containers.len() == 0,
        m.browsers.len() > 0 ==> {
            let r = lists_settled(m, ps, cs);
            &&& r.profiles.len() >= 1
            &&& r.selected_profile == 0
            &&& (r.selected_container is None) == (r.containers.len() == 0)
            &&& (r.selected_container matches Some(i) ==> i < r.containers.len())
            &&& (r.containers.len() > 0 ==> firefox_based(selected_binary(m)))
        },
{
    let (m1, r1) = lists_update(m, AfterLists::Done);
    lemma_lists_refreshed(m);
    if m.browsers.len() > 0 {
        assert(selected_binary(m1) == selected_binary(m));
        match r1 {
            RequestModel::Profiles(fam, _, k) => {
                assert(k == AfterLists::Done);
                lemma_profiles_received(m1, fam, ps);
                let (m2, r2) = profiles_received(m1, fam, k, ps);
                if fam == BrowserFamily::Firefox && ps.len() > 0 {
                    let m2a = AppModel { profiles: ps, ..m1 };
                    assert(selected_binary(m2a) == selected_binary(m));
                    if firefox_based(selected_binary(m2a)) {
                        assert(r2 == RequestModel::Containers(0, AfterContainers::FinishLists(AfterLists::Done)));
                        assert(m2 == m2a);
                        lemma_containers_received(m2, cs);
                        match m2.config.last_container {
                            Some(n) => {
                                lemma_first_index_found(container_names(cs), n);
                            },
                            None => {},
                        }
                    } else {
                        assert(m2.containers.len() == 0);
                    }
                } else {
                    assert(m2.containers.len() == 0);
                    assert(m2.selected_container is None);
                }
            },
            _ => {},
        }
    }
}

/// The last used profile is selected, when the list holds it.
pub open spec fn profile_chosen(x: AppModel) -> bool {
    x.config.last_profile matches Some(q) ==> (first_index(profile_names(x.profiles), q) matches Some(
        j,
    ) ==> x.selected_profile == j as usize)
}

/// The last used container is selected, when the list holds it.
pub open spec fn container_chosen(x: AppModel) -> bool {
    x.config.last_container matches Some(c) ==> (first_index(container_names(x.containers), c)
        matches Some(k) ==> x.selected_container == Some(k as usize))
}

/// The toggles are as the configuration records them.
pub open spec fn toggles_restored(x: AppModel) -> bool {
    x.incognito == x.config.last_incognito && x.new_window == x.config.last_new_window
}

/// The screen after applying the saved configuration, when the profiles
/// asked for are `ps` and the containers asked for are `cs1`, then `cs2`.
pub open spec fn config_settled(m: AppModel, ps: Seq<(Seq<char>, PathBuf, bool)>, cs1: Seq<Container>, cs2: Seq<Container>) -> AppModel {
    let (m1, r1) = apply_config_spec(m);
    let (m2, r2) = match r1 {
        RequestModel::Profiles(fam, _, k) => profiles_received(m1, fam, k, ps),
        _ => (m1, r1),
    };
    let (m3, r3) = match r2 {
        RequestModel::Containers(_, k) => containers_received(m2, k, cs1),
        _ => (m2, r2),
    };
    match r3 {
        RequestModel::Containers(_, k) => containers_received(m3, k, cs2).0,
        _ => m3,
    }
}

/// The parts of the screen that refreshing the lists and applying the
/// configuration leave alone: the URL and its cursor, focus, browsers,
/// messages, the open dropdown and the exit request.
pub open spec fn same_screen(a: AppModel, b: AppModel) -> bool {
    &&& a.url == b.url
    &&& a.url_cursor_pos == b.url_cursor_pos
    &&& a.focus == b.focus
    &&& a.browsers == b.browsers
    &&& a.error == b.error
    &&& a.info == b.info
    &&& a.dropdown_open == b.dropdown_open
    &&& a.exit_requested == b.exit_requested
}

proof fn lemma_container_applied(x: AppModel, cs: Seq<Container>)
    ensures
        ({
            let (y, r) = containers_received(x, AfterContainers::ApplyConfigContainer, cs);
            &&& r == RequestModel::Nothing
            &&& container_chosen(y)
            &&& toggles_restored(y)
            &&& y.config == x.config
            &&& y.profiles == x.profiles
            &&& y.selected_profile == x.selected_profile
            &&& y.browsers == x.browsers
            &&& y.selected_browser == x.selected_browser
            &&& same_screen(y, x)
        }),
{
}

proof fn lemma_profile_applied(x: AppModel)
    ensures
        ({
            let (y, r) = apply_config_profile(x);
            &&& same_screen(y, x)
            &&& profile_chosen(y)
            &&& y.config == x.config
            &&& y.profiles == x.profiles
            &&& y.browsers == x.browsers
            &&& y.selected_browser == x.selected_browser
            &&& (r == RequestModel::Nothing ==> container_chosen(y) && toggles_restored(y))
            &&& (r == RequestModel::Nothing || r matches RequestModel::Containers(
                _,
                AfterContainers::ApplyConfigContainer,
            ))
        }),
{
    let k = AfterContainers::ApplyConfigContainer;
    let x1 = match x.config.last_profile {
        Some(n) => match first_index(profile_names(x.profiles), n) {
            Some(i) => AppModel { selected_profile: i as usize, ..x },
            None => x,
        },
        None => x,
    };
    assert(profile_chosen(x1));
    assert(apply_config_profile(x) == containers_update(x1, k));
    if x1.browsers.len() == 0 || x1.profiles.len() == 0 {
        let y0 = AppModel { containers: seq![], ..x1 };
        assert(containers_update(x1, k) == containers_done(y0, k));
        assert(containers_done(y0, k) == (apply_config_container(y0), RequestModel::Nothing));
        assert(container_names(y0.containers) =~= Seq::<Seq<char>>::empty());
    } else if firefox_based(selected_binary(x1)) {
        assert(containers_update(x1, k) == (x1, RequestModel::Containers(x1.selected_profile, k)));
    } else {
        let y0 = AppModel { containers: seq![], selected_container: None, ..x1 };
        assert(containers_update(x1, k) == containers_done(y0, k));
        assert(containers_done(y0, k) == (apply_config_container(y0), RequestModel::Nothing));
        assert(container_names(y0.containers) =~= Seq::<Seq<char>>::empty());
    }
}

proof fn lemma_lists_applied(x: AppModel) -> (z: AppModel)
    ensures
        lists_update(x, AfterLists::ApplyConfigProfile).1 matches RequestModel::Profiles(_, _, k)
            ==> k == AfterLists::ApplyConfigProfile,
        lists_update(x, AfterLists::ApplyConfigProfile).0.config == x.config,
        lists_update(x, AfterLists::ApplyConfigProfile).0.selected_browser == x.selected_browser,
        same_screen(lists_update(x, AfterLists::ApplyConfigProfile).0, x),
        same_screen(z, x),
        !(lists_update(x, AfterLists::ApplyConfigProfile).1 is Profiles) ==> lists_update(
            x,
            AfterLists::ApplyConfigProfile,
        ) == apply_config_profile(z),
        z.config == x.config,
        z.selected_browser == x.selected_browser,
{
    if x.browsers.len() == 0 {
        AppModel { profiles: seq![], containers: seq![], ..x }
    } else {
        let m1 = AppModel { selected_profile: 0, selected_container: None, ..x };
        profile_in_range(AppModel { profiles: default_profiles(), containers: seq![], ..m1 })
    }
}

proof fn lemma_profiles_applied_listed(x: AppModel, ps: Seq<(Seq<char>, PathBuf, bool)>) -> (z: AppModel)
    requires
        ps.len() > 0,
    ensures
        ({
            let (y, r) = profiles_received(
                x,
                BrowserFamily::Firefox,
                AfterLists::ApplyConfigProfile,
                ps,
            );
            &&& y.config == x.config
            &&& y.selected_browser == x.selected_browser
            &&& same_screen(y, x)
            &&& (r == RequestModel::Containers(
                x.selected_profile,
                AfterContainers::FinishLists(AfterLists::ApplyConfigProfile),
            ) || (y, r) == apply_config_profile(z))
        }),
        z.config == x.config,
        z.selected_browser == x.selected_browser,
        same_screen(z, x),
{
    let k = AfterLists::ApplyConfigProfile;
    let kc = AfterContainers::FinishLists(k);
    let x1 = AppModel { profiles: ps, ..x };
    assert(profiles_received(x, BrowserFamily::Firefox, k, ps) == containers_update(x1, kc));
    if x1.browsers.len() == 0 || x1.profiles.len() == 0 {
        let y0 = AppModel { containers: seq![], ..x1 };
        assert(containers_update(x1, kc) == containers_done(y0, kc));
        assert(containers_done(y0, kc) == lists_done(profile_in_range(y0), k));
        profile_in_range(y0)
    } else if firefox_based(selected_binary(x1)) {
        x
    } else {
        let y0 = AppModel { containers: seq![], selected_container: None, ..x1 };
        assert(containers_update(x1, kc) == containers_done(y0, kc));
        assert(containers_done(y0, kc) == lists_done(profile_in_range(y0), k));
        profile_in_range(y0)
    }
}

#[verifier::spinoff_prover]
#[verifier::rlimit(50)]
proof fn lemma_profiles_applied_other(x: AppModel, fam: BrowserFamily, ps: Seq<(Seq<char>, PathBuf, bool)>) -> (z: AppModel)
    requires
        !(fam == BrowserFamily::Firefox && ps.len() > 0),
    ensures
        ({
            let (y, r) = profiles_received(x, fam, AfterLists::ApplyConfigProfile, ps);
            &&& y.config == x.config
            &&& y.selected_browser == x.selected_browser
            &&& same_screen(y, x)
            &&& (r == RequestModel::Containers(
                x.selected_profile,
                AfterContainers::FinishLists(AfterLists::ApplyConfigProfile),
            ) || (y, r) == apply_config_profile(z))
        }),
        z.config == x.config,
        z.selected_browser == x.selected_browser,
        same_screen(z, x),
{
    let k = AfterLists::ApplyConfigProfile;
    let chosen = if ps.len() > 0 {
        ps
    } else {
        default_profiles()
    };
    let y0 = profile_in_range(AppModel { profiles: chosen, containers: seq![], ..x });
    assert(profiles_received(x, fam, k, ps) == lists_done(y0, k));
    y0
}

proof fn lemma_profiles_applied(x: AppModel, fam: BrowserFamily, ps: Seq<(Seq<char>, PathBuf, bool)>) -> (z: AppModel)
    ensures
        ({
            let (y, r) = profiles_received(x, fam, AfterLists::ApplyConfigProfile, ps);
            &&& y.config == x.config
            &&& y.selected_browser == x.selected_browser
            &&& same_screen(y, x)
            &&& (r == RequestModel::Containers(
                x.selected_profile,
                AfterContainers::FinishLists(AfterLists::ApplyConfigProfile),
            ) || (y, r) == apply_config_profile(z))
        }),
        z.config == x.config,
        z.selected_browser == x.selected_browser,
        same_screen(z, x),
{
    if fam == BrowserFamily::Firefox && ps.len() > 0 {
        lemma_profiles_applied_listed(x, ps)
    } else {
        lemma_profiles_applied_other(x, fam, ps)
    }
}

/// The state once the last used profile is applied and the containers it
/// may ask for (`cs`) are received.
pub open spec fn profile_step_settled(z: AppModel, cs: Seq<Container>) -> AppModel {
    let (y, r) = apply_config_profile(z);
    match r {
        RequestModel::Containers(_, k) => containers_received(y, k, cs).0,
        _ => y,
    }
}

proof fn lemma_profile_step_settled(z: AppModel, cs: Seq<Container>)
    ensures
        ({
            let f = profile_step_settled(z, cs);
            &&& f.config == z.config
            &&& f.selected_browser == z.selected_browser
            &&& same_screen(f, z)
            &&& toggles_restored(f)
            &&& profile_chosen(f)
            &&& container_chosen(f)
        }),
{
    lemma_profile_applied(z);
    let (y, r) = apply_config_profile(z);
    lemma_container_applied(y, cs);
}

/// Law: once the saved configuration is applied and every request
/// answered, whatever profiles and containers were found: the configuration
/// is unchanged, the toggles are as it records them, and the last used
/// browser, profile and container are selected (the first of each name)
/// when the lists hold them.
#[verifier::spinoff_prover]
#[verifier::rlimit(100)]
pub proof fn lemma_config_settled(
    m: AppModel,
    ps: Seq<(Seq<char>, PathBuf, bool)>,
    cs1: Seq<Container>,
    cs2: Seq<Container>,
)
    ensures
        ({
            let r = config_settled(m, ps, cs1, cs2);
            &&& same_screen(r, m)
            &&& r.config == m.config
            &&& toggles_restored(r)
            &&& profile_chosen(r)
            &&& container_chosen(r)
            &&& (m.config.last_browser matches Some(n) ==> (first_index(browser_names(m.browsers), n)
                matches Some(i) ==> r.selected_browser == i as usize))
        }),
{
    let (m1, r1) = apply_config_spec(m);
    let mb = match m.config.last_browser {
        Some(n) => match first_index(browser_names(m.browsers), n) {
            Some(i) => AppModel { selected_browser: i as usize, ..m },
            None => m,
        },
        None => m,
    };
    let via_lists = match m.config.last_browser {
        Some(n) => first_index(browser_names(m.browsers), n) is Some,
        None => false,
    };
    let z1 = if via_lists {
        lemma_lists_applied(mb)
    } else {
        mb
    };
    if !(r1 is Profiles) {
        assert((m1, r1) == apply_config_profile(z1));
        lemma_profile_step_settled(z1, cs1);
        assert(config_settled(m, ps, cs1, cs2) == profile_step_settled(z1, cs1));
    } else {
        let fam = r1->Profiles_0;
        let z2 = lemma_profiles_applied(m1, fam, ps);
        let (m2, r2) = profiles_received(m1, fam, AfterLists::ApplyConfigProfile, ps);
        if r2 == RequestModel::Containers(
            m1.selected_profile,
            AfterContainers::FinishLists(AfterLists::ApplyConfigProfile),
        ) {
            let z3 = AppModel {
                containers: cs1,
                selected_container: restored_container(m2, cs1),
                ..m2
            };
            let z4 = profile_in_range(z3);
            assert(containers_received(m2, AfterContainers::FinishLists(AfterLists::ApplyConfigProfile), cs1)
                == apply_config_profile(z4));
            lemma_profile_step_settled(z4, cs2);
            assert(config_settled(m, ps, cs1, cs2) == profile_step_settled(z4, cs2));
        } else {
            lemma_profile_step_settled(z2, cs1);
            assert(config_settled(m, ps, cs1, cs2) == profile_step_settled(z2, cs1));
        }
    }
}

/// The state a launcher screen starts in: the URL given with its cursor at
/// the end, focus on the browser menu when a URL was given, nothing found
/// yet, the configuration loaded.
pub open spec fn new_model(url: Option<Seq<char>>, config: ConfigModel) -> AppModel {
    let u = match url {
        Some(t) => t,
        None => seq![],
    };
    AppModel {
        url: u,
        url_cursor_pos: utf8(u).len() as usize,
        browsers: seq![],
        profiles: seq![],
        containers: seq![],
        selected_browser: 0,
        selected_profile: 0,
        selected_container: None,
        incognito: false,
        new_window: false,
        focus: if url is Some {
            Focus::Browser
        } else {
            Focus::Url
        },
        error: None,
        info: None,
        dropdown_open: None,
        config,
        exit_requested: false,
    }
}

/// The screen after handing over the browsers found, `bs`, with the
/// profiles asked for `ps` and the containers asked for `cs`.
pub open spec fn refreshed_settled(m: AppModel, bs: Seq<Browser>, ps: Seq<(Seq<char>, PathBuf, bool)>, cs: Seq<Container>) -> AppModel {
    let (m1, r1) = browsers_refreshed(m, bs);
    match r1 {
        RequestModel::Profiles(fam, _, k) => {
            let (m2, r2) = profiles_received(m1, fam, k, ps);
            match r2 {
                RequestModel::Containers(_, k2) => containers_received(m2, k2, cs).0,
                _ => m2,
            }
        },
        _ => m1,
    }
}

/// Law: starting the launcher screen (a new state, the browsers found
/// handed over, the saved configuration applied, every request answered,
/// whatever was found) keeps the URL given with its cursor at its end,
/// focuses the browser menu when a URL was given, lists exactly the
/// browsers found, reports when there are none, restores the toggles of
/// the configuration, and opens no dropdown and no exit.
pub proof fn lemma_startup(
    url: Option<Seq<char>>,
    c: ConfigModel,
    bs: Seq<Browser>,
    ps1: Seq<(Seq<char>, PathBuf, bool)>,
    cs1: Seq<Container>,
    ps2: Seq<(Seq<char>, PathBuf, bool)>,
    cs2: Seq<Container>,
    cs3: Seq<Container>,
)
    ensures
        ({
            let m0 = new_model(url, c);
            let r = config_settled(refreshed_settled(m0, bs, ps1, cs1), ps2, cs2, cs3);
            &&& r.url == m0.url
            &&& r.url_cursor_pos == m0.url_cursor_pos
            &&& r.focus == m0.focus
            &&& r.browsers == bs
            &&& (bs.len() == 0 ==> r.error == Some("No browsers found"@))
            &&& (bs.len() > 0 ==> r.error is None)
            &&& r.incognito == c.last_incognito
            &&& r.new_window == c.last_new_window
            &&& r.dropdown_open is None
            &&& !r.exit_requested
            &&& r.config == c
        }),
{
    let m0 = new_model(url, c);
    let m1 = refreshed_settled(m0, bs, ps1, cs1);
    if bs.len() == 0 {
        assert(m1 == AppModel { browsers: bs, error: Some("No browsers found"@), ..m0 });
    } else {
        let mb = AppModel { browsers: bs, selected_browser: 0, ..m0 };
        assert(browsers_refreshed(m0, bs) == lists_update(mb, AfterLists::Done));
        assert(m1 == lists_settled(mb, ps1, cs1));
        lemma_lists_settled(mb, ps1, cs1);
    }
    lemma_config_settled(m1, ps2, cs2, cs3);
}

} // verus!
