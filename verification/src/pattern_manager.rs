//! The pattern manager screen: the list of URL patterns and the form that
//! adds or edits one, with dropdowns for browser, profile and container.
//!
//! As on the launcher screen, a step that needs the profiles or containers
//! found on disk stops and returns a request, which the caller answers with
//! `receive_profiles` or `receive_containers`.
use vstd::prelude::*;
use std::path::PathBuf;
use crate::app::{
    Key, KeyInput, browser_names, browser_position, container_names, container_position,
    profile_names, profile_position,
};
use crate::browser::Browser;
use crate::config::Config;
use crate::profile::{
    BrowserFamily, Container, Profile, browser_family, default_profiles, detect_unknown_profiles,
    family_of, firefox_based, is_firefox_based, profile_views,
};
use crate::text::{
    at_char_boundary, byte_len, lemma_boundary_ends,
    backspace, backspace_at, concat, cursor_left, cursor_right, delete,
    delete_at, first_index, first_word, first_word_str, is_blank, lemma_backspace_after_typing,
    lemma_first_index, move_left, move_right, opt_view, owned, string_of, trim,
    type_char, typed_at, utf8,
};
use crate::url_pattern::{UrlPattern, invalid_regex_message, regex_new_error};

verus! {

/// Represents the current mode of the pattern manager
#[derive(Debug, Clone, Copy, PartialEq, Eq, Structural)]
pub enum PatternManagerMode {
    /// Viewing the list of patterns
    List,
    /// Adding a new pattern
    Add,
    /// Editing an existing pattern
    Edit,
}

/// Represents which field is currently focused in the form
#[derive(Debug, Clone, Copy, PartialEq, Eq, Structural)]
pub enum FormField {
    Pattern,
    Browser,
    Profile,
    Container,
    Incognito,
    NewWindow,
    SaveButton,
    CancelButton,
}

/// Form data for creating/editing a pattern
#[derive(Debug, Clone)]
pub struct PatternForm {
    pub pattern: String,
    pub browser: String,
    pub profile: String,
    pub container: String,
    pub incognito: bool,
    pub new_window: bool,
}

/// The contents of the form, as a value.
pub struct FormModel {
    pub pattern: Seq<char>,
    pub browser: Seq<char>,
    pub profile: Seq<char>,
    pub container: Seq<char>,
    pub incognito: bool,
    pub new_window: bool,
}

impl View for PatternForm {
    type V = FormModel;

    open spec fn view(&self) -> FormModel {
        FormModel {
            pattern: self.pattern@,
            browser: self.browser@,
            profile: self.profile@,
            container: self.container@,
            incognito: self.incognito,
            new_window: self.new_window,
        }
    }
}

/// The empty form.
pub open spec fn empty_form() -> FormModel {
    FormModel {
        pattern: seq![],
        browser: seq![],
        profile: seq![],
        container: seq![],
        incognito: false,
        new_window: false,
    }
}

impl Default for PatternForm {
    fn default() -> (r: PatternForm)
        ensures
            r@ == empty_form(),
    {
        PatternForm {
            pattern: String::new(),
            browser: String::new(),
            profile: String::new(),
            container: String::new(),
            incognito: false,
            new_window: false,
        }
    }
}

/// A URL pattern, as a value.
pub struct PatternModel {
    pub pattern: Seq<char>,
    pub browser: Seq<char>,
    pub profile: Option<Seq<char>>,
    pub container: Option<Seq<char>>,
    pub incognito: bool,
    pub new_window: bool,
}

/// The value of a URL pattern.
pub open spec fn pattern_model(p: UrlPattern) -> PatternModel {
    PatternModel {
        pattern: p.pattern@,
        browser: p.browser@,
        profile: opt_view(p.profile),
        container: opt_view(p.container),
        incognito: p.incognito,
        new_window: p.new_window,
    }
}

/// The values of a list of URL patterns.
pub open spec fn pattern_models(ps: Seq<UrlPattern>) -> Seq<PatternModel> {
    ps.map_values(|p: UrlPattern| pattern_model(p))
}

/// What to do once the profiles for the form's browser have been refreshed.
#[derive(Debug, Clone, Copy, PartialEq, Eq, Structural)]
pub enum AfterProfiles {
    Done,
    EditSelectProfile,
}

/// What to do once the containers for the form's profile have been refreshed.
#[derive(Debug, Clone, Copy, PartialEq, Eq, Structural)]
pub enum AfterFormContainers {
    Done,
    FinishProfiles(AfterProfiles),
    EditSelectContainer,
}

/// What the pattern manager needs from outside before it can go on.
#[derive(Debug)]
pub enum PatternRequest {
    /// Nothing: the step is complete.
    Nothing,
    /// The profiles of the form's browser; answer with
    /// `receive_profiles(family, then, profiles)`.
    Profiles { family: BrowserFamily, binary_name: String, then: AfterProfiles },
    /// The containers of profile `profile_index`; answer with
    /// `receive_containers(then, containers)`.
    Containers { profile_index: usize, then: AfterFormContainers },
}

/// A request, as a value.
pub enum PatternRequestModel {
    Nothing,
    Profiles(BrowserFamily, Seq<char>, AfterProfiles),
    Containers(usize, AfterFormContainers),
}

impl View for PatternRequest {
    type V = PatternRequestModel;

    open spec fn view(&self) -> PatternRequestModel {
        match self {
            PatternRequest::Nothing => PatternRequestModel::Nothing,
            PatternRequest::Profiles { family, binary_name, then } => PatternRequestModel::Profiles(
                *family,
                binary_name@,
                *then,
            ),
            PatternRequest::Containers { profile_index, then } => PatternRequestModel::Containers(
                *profile_index,
                *then,
            ),
        }
    }
}

/// Manages the URL pattern configuration UI
#[derive(Debug)]
pub struct PatternManager {
    /// Current mode (List, Add, Edit)
    pub mode: PatternManagerMode,
    /// List of patterns being managed
    pub patterns: Vec<UrlPattern>,
    /// Currently selected pattern index (for List mode)
    pub selected_index: usize,
    /// Form data for Add/Edit mode
    pub form: PatternForm,
    /// Cursor position (a byte offset) in the pattern field
    pub pattern_cursor_pos: usize,
    /// Which form field is focused
    pub focused_field: FormField,
    /// Which dropdown is open (if any)
    pub dropdown_open: Option<FormField>,
    /// Available browsers for dropdown
    pub available_browsers: Vec<Browser>,
    /// Available profiles for dropdown (based on selected browser)
    pub available_profiles: Vec<Profile>,
    /// Available containers for dropdown (based on selected profile)
    pub available_containers: Vec<Container>,
    /// Selected browser index in dropdown
    pub selected_browser_index: usize,
    /// Selected profile index in dropdown
    pub selected_profile_index: usize,
    /// Selected container index in dropdown
    pub selected_container_index: usize,
    /// Error message to display
    pub error: Option<String>,
    /// Info message to display
    pub info: Option<String>,
    /// Whether the pattern manager should close
    pub should_close: bool,
    /// Whether patterns were modified
    pub modified: bool,
}

/// The state of the pattern manager, as a value.
pub struct ManagerModel {
    pub mode: PatternManagerMode,
    pub patterns: Seq<PatternModel>,
    pub selected_index: usize,
    pub form: FormModel,
    pub pattern_cursor_pos: usize,
    pub focused_field: FormField,
    pub dropdown_open: Option<FormField>,
    pub browsers: Seq<Browser>,
    pub profiles: Seq<(Seq<char>, PathBuf, bool)>,
    pub containers: Seq<Container>,
    pub selected_browser_index: usize,
    pub selected_profile_index: usize,
    pub selected_container_index: usize,
    pub error: Option<Seq<char>>,
    pub info: Option<Seq<char>>,
    pub should_close: bool,
    pub modified: bool,
}

impl View for PatternManager {
    type V = ManagerModel;

    open spec fn view(&self) -> ManagerModel {
        ManagerModel {
            mode: self.mode,
            patterns: pattern_models(self.patterns@),
            selected_index: self.selected_index,
            form: self.form@,
            pattern_cursor_pos: self.pattern_cursor_pos,
            focused_field: self.focused_field,
            dropdown_open: self.dropdown_open,
            browsers: self.available_browsers@,
            profiles: profile_views(self.available_profiles@),
            containers: self.available_containers@,
            selected_browser_index: self.selected_browser_index,
            selected_profile_index: self.selected_profile_index,
            selected_container_index: self.selected_container_index,
            error: opt_view(self.error),
            info: opt_view(self.info),
            should_close: self.should_close,
            modified: self.modified,
        }
    }
}

/// The pattern's cursor is on a character boundary and the selections
/// point into their non-empty lists.
pub open spec fn pm_wf(m: ManagerModel) -> bool {
    &&& at_char_boundary(m.form.pattern, m.pattern_cursor_pos as int)
    &&& m.patterns.len() > 0 ==> m.selected_index < m.patterns.len()
    &&& m.patterns.len() == 0 ==> m.selected_index == 0
    &&& m.browsers.len() > 0 ==> m.selected_browser_index < m.browsers.len()
    &&& m.profiles.len() > 0 ==> m.selected_profile_index < m.profiles.len()
    &&& m.containers.len() > 0 ==> m.selected_container_index < m.containers.len()
}

/// The binary of browser `i`: the first word of its `Exec` line.
pub open spec fn binary_of(bs: Seq<Browser>, i: int) -> Seq<char> {
    first_word(bs[i].command@)
}

pub open spec fn rank_profiles(k: AfterProfiles) -> nat {
    match k {
        AfterProfiles::Done => 0,
        AfterProfiles::EditSelectProfile => 4,
    }
}

pub open spec fn rank_form_containers(k: AfterFormContainers) -> nat {
    match k {
        AfterFormContainers::Done => 0,
        AfterFormContainers::EditSelectContainer => 1,
        AfterFormContainers::FinishProfiles(l) => rank_profiles(l) + 1,
    }
}

/// Refreshing the profiles for the form's browser: the lists, the form's
/// profile and container and their selections are cleared; if the browser
/// is one of the available ones, a browser of unknown family gets the single
/// default profile and the others need their profiles.
pub open spec fn profiles_update(m: ManagerModel, k: AfterProfiles) -> (
    ManagerModel,
    PatternRequestModel,
)
    decreases rank_profiles(k) + 4,
{
    let m1 = ManagerModel {
        profiles: seq![],
        containers: seq![],
        form: FormModel { profile: seq![], container: seq![], ..m.form },
        selected_profile_index: 0,
        selected_container_index: 0,
        ..m
    };
    match first_index(browser_names(m.browsers), m.form.browser) {
        None => profiles_done(m1, k),
        Some(i) => {
            let bin = binary_of(m.browsers, i);
            match family_of(bin) {
                BrowserFamily::Other => profiles_got(m1, k, default_profiles()),
                fam => (m1, PatternRequestModel::Profiles(fam, bin, k)),
            }
        },
    }
}

/// The form once the profiles are known: the first becomes the form's
/// profile, and its containers are refreshed.
pub open spec fn profiles_got(
    m: ManagerModel,
    k: AfterProfiles,
    ps: Seq<(Seq<char>, PathBuf, bool)>,
) -> (ManagerModel, PatternRequestModel)
    decreases rank_profiles(k) + 3,
{
    let m1 = ManagerModel { profiles: ps, ..m };
    if ps.len() > 0 {
        form_containers_update(
            ManagerModel { form: FormModel { profile: ps[0].0, ..m1.form }, ..m1 },
            AfterFormContainers::FinishProfiles(k),
        )
    } else {
        profiles_done(m1, k)
    }
}

/// What follows a refresh of the profiles.
pub open spec fn profiles_done(m: ManagerModel, k: AfterProfiles) -> (
    ManagerModel,
    PatternRequestModel,
)
    decreases rank_profiles(k),
{
    match k {
        AfterProfiles::Done => (m, PatternRequestModel::Nothing),
        AfterProfiles::EditSelectProfile => edit_select_profile(m),
    }
}

/// Refreshing the containers for the form's profile: list, form value and
/// selection are cleared; for a Firefox-based browser whose profile list
/// holds the form's profile, that profile's containers are needed.
pub open spec fn form_containers_update(m: ManagerModel, k: AfterFormContainers) -> (
    ManagerModel,
    PatternRequestModel,
)
    decreases rank_form_containers(k) + 1,
{
    let m1 = ManagerModel {
        containers: seq![],
        form: FormModel { container: seq![], ..m.form },
        selected_container_index: 0,
        ..m
    };
    match first_index(browser_names(m.browsers), m.form.browser) {
        None => form_containers_done(m1, k),
        Some(i) => if !firefox_based(binary_of(m.browsers, i)) {
            form_containers_done(m1, k)
        } else {
            match first_index(profile_names(m.profiles), m.form.profile) {
                None => form_containers_done(m1, k),
                Some(j) => (m1, PatternRequestModel::Containers(j as usize, k)),
            }
        },
    }
}

/// The form once the containers are known: the first becomes the form's
/// container.
pub open spec fn form_containers_got(m: ManagerModel, k: AfterFormContainers, cs: Seq<Container>) -> (
    ManagerModel,
    PatternRequestModel,
) {
    let m1 = ManagerModel { containers: cs, ..m };
    if cs.len() > 0 {
        form_containers_done(
            ManagerModel { form: FormModel { container: cs[0].name@, ..m1.form }, ..m1 },
            k,
        )
    } else {
        form_containers_done(m1, k)
    }
}

/// What follows a refresh of the containers.
pub open spec fn form_containers_done(m: ManagerModel, k: AfterFormContainers) -> (
    ManagerModel,
    PatternRequestModel,
)
    decreases rank_form_containers(k),
{
    match k {
        AfterFormContainers::Done => (m, PatternRequestModel::Nothing),
        AfterFormContainers::FinishProfiles(l) => profiles_done(m, l),
        AfterFormContainers::EditSelectContainer => (
            edit_select_container(m),
            PatternRequestModel::Nothing,
        ),
    }
}

/// The profile and container an edit keeps: those of the pattern being
/// edited (empty where it names none); outside a valid selection, the
/// form's own.
pub open spec fn edit_wanted(m: ManagerModel) -> (Seq<char>, Seq<char>) {
    if m.selected_index < m.patterns.len() {
        let f = form_of(m.patterns[m.selected_index as int]);
        (f.profile, f.container)
    } else {
        (m.form.profile, m.form.container)
    }
}

/// While starting an edit: the form gets back the pattern's profile and
/// container; the profile is selected, if listed, and its containers are
/// refreshed.
pub open spec fn edit_select_profile(m: ManagerModel) -> (ManagerModel, PatternRequestModel)
    decreases 3nat,
{
    let w = edit_wanted(m);
    let m0 = ManagerModel { form: FormModel { profile: w.0, container: w.1, ..m.form }, ..m };
    match first_index(profile_names(m.profiles), w.0) {
        Some(i) => form_containers_update(
            ManagerModel { selected_profile_index: i as usize, ..m0 },
            AfterFormContainers::EditSelectContainer,
        ),
        None => (edit_finish(m0), PatternRequestModel::Nothing),
    }
}

/// While starting an edit: the form gets back the pattern's container,
/// which is selected, if listed.
pub open spec fn edit_select_container(m: ManagerModel) -> ManagerModel {
    let w = edit_wanted(m);
    let m0 = ManagerModel { form: FormModel { container: w.1, ..m.form }, ..m };
    let m1 = match first_index(container_names(m.containers), w.1) {
        Some(i) => ManagerModel { selected_container_index: i as usize, ..m0 },
        None => m0,
    };
    edit_finish(m1)
}

/// The end of starting an edit: the form's browser selected if listed, focus
/// on the pattern, dropdown closed, messages cleared.
pub open spec fn edit_finish(m: ManagerModel) -> ManagerModel {
    let m1 = match first_index(browser_names(m.browsers), m.form.browser) {
        Some(i) => ManagerModel { selected_browser_index: i as usize, ..m },
        None => m,
    };
    ManagerModel {
        focused_field: FormField::Pattern,
        dropdown_open: None,
        error: None,
        info: None,
        ..m1
    }
}

/// The container field shows: the form's browser is available,
/// Firefox-based, and there are containers.
pub open spec fn container_field_visible(m: ManagerModel) -> bool {
    match first_index(browser_names(m.browsers), m.form.browser) {
        Some(i) => firefox_based(binary_of(m.browsers, i)) && m.containers.len() > 0,
        None => false,
    }
}

/// Starting to add a pattern: an empty form with the first available browser
/// chosen (refreshing its profiles), focus on the pattern, messages cleared.
pub open spec fn add_started(m: ManagerModel) -> (ManagerModel, PatternRequestModel) {
    let m1 = ManagerModel {
        mode: PatternManagerMode::Add,
        form: empty_form(),
        pattern_cursor_pos: 0,
        focused_field: FormField::Pattern,
        dropdown_open: None,
        error: None,
        info: None,
        ..m
    };
    if m.browsers.len() > 0 {
        profiles_update(
            ManagerModel { form: FormModel { browser: m.browsers[0].name@, ..m1.form }, ..m1 },
            AfterProfiles::Done,
        )
    } else {
        (m1, PatternRequestModel::Nothing)
    }
}

/// The form filled from a pattern.
pub open spec fn form_of(p: PatternModel) -> FormModel {
    FormModel {
        pattern: p.pattern,
        browser: p.browser,
        profile: match p.profile {
            Some(s) => s,
            None => seq![],
        },
        container: match p.container {
            Some(s) => s,
            None => seq![],
        },
        incognito: p.incognito,
        new_window: p.new_window,
    }
}

/// Starting to edit the selected pattern: refused with a message when there
/// are none; the form takes the pattern, the cursor goes to its end, and the
/// profiles and containers are refreshed and selected.
pub open spec fn edit_started(m: ManagerModel) -> (ManagerModel, PatternRequestModel) {
    if m.patterns.len() == 0 {
        (ManagerModel { error: Some("No patterns to edit"@), ..m }, PatternRequestModel::Nothing)
    } else if m.selected_index < m.patterns.len() {
        let p = m.patterns[m.selected_index as int];
        profiles_update(
            ManagerModel {
                mode: PatternManagerMode::Edit,
                form: form_of(p),
                pattern_cursor_pos: utf8(p.pattern).len() as usize,
                ..m
            },
            AfterProfiles::EditSelectProfile,
        )
    } else {
        (m, PatternRequestModel::Nothing)
    }
}

/// Deleting the selected pattern: refused with a message when there are
/// none; otherwise it is removed, the selection moves back if it fell off
/// the end, and the change is noted.
pub open spec fn deleted(m: ManagerModel) -> ManagerModel {
    if m.patterns.len() == 0 {
        ManagerModel { error: Some("No patterns to delete"@), ..m }
    } else {
        let ps = m.patterns.remove(m.selected_index as int);
        ManagerModel {
            patterns: ps,
            modified: true,
            selected_index: if m.selected_index >= ps.len() && ps.len() > 0 {
                (ps.len() - 1) as usize
            } else {
                m.selected_index
            },
            info: Some("Pattern deleted"@),
            ..m
        }
    }
}

/// An optional field of a pattern: absent when blank.
pub open spec fn unless_blank(s: Seq<char>) -> Option<Seq<char>> {
    if trim(s).len() == 0 {
        None
    } else {
        Some(s)
    }
}

/// The pattern that the form describes.
pub open spec fn form_pattern(f: FormModel) -> PatternModel {
    PatternModel {
        pattern: f.pattern,
        browser: f.browser,
        profile: unless_blank(f.profile),
        container: unless_blank(f.container),
        incognito: f.incognito,
        new_window: f.new_window,
    }
}

/// Saving the form: a blank pattern or browser, or a pattern that does not
/// compile, is refused with a message and the form stays; otherwise the
/// pattern is added (Add) or replaces the selected one (Edit), the change is
/// noted and the list is shown again.
pub open spec fn form_saved(m: ManagerModel) -> ManagerModel {
    if trim(m.form.pattern).len() == 0 {
        ManagerModel { error: Some("Pattern cannot be empty"@), ..m }
    } else if trim(m.form.browser).len() == 0 {
        ManagerModel { error: Some("Browser cannot be empty"@), ..m }
    } else if regex_new_error(m.form.pattern) is Some {
        ManagerModel {
            error: Some(
                "Invalid pattern: "@ + invalid_regex_message(
                    m.form.pattern,
                    regex_new_error(m.form.pattern)->0,
                ),
            ),
            ..m
        }
    } else {
        let p = form_pattern(m.form);
        let m1 = match m.mode {
            PatternManagerMode::Add => ManagerModel {
                patterns: m.patterns.push(p),
                info: Some("Pattern added"@),
                ..m
            },
            PatternManagerMode::Edit => if m.selected_index < m.patterns.len() {
                ManagerModel {
                    patterns: m.patterns.update(m.selected_index as int, p),
                    info: Some("Pattern updated"@),
                    ..m
                }
            } else {
                m
            },
            PatternManagerMode::List => m,
        };
        ManagerModel { modified: true, mode: PatternManagerMode::List, dropdown_open: None, ..m1 }
    }
}

/// Leaving the form without saving.
pub open spec fn form_cancelled(m: ManagerModel) -> ManagerModel {
    ManagerModel {
        mode: PatternManagerMode::List,
        dropdown_open: None,
        error: None,
        info: None,
        ..m
    }
}

/// Enter on a dropdown field: it closes if open, otherwise opens when it has
/// entries, its selection moved to the form's current value if listed.
pub open spec fn form_dropdown_toggled(m: ManagerModel) -> ManagerModel {
    match m.focused_field {
        FormField::Browser => if m.dropdown_open == Some(FormField::Browser) {
            ManagerModel { dropdown_open: None, ..m }
        } else if m.browsers.len() > 0 {
            ManagerModel {
                dropdown_open: Some(FormField::Browser),
                selected_browser_index: match first_index(
                    browser_names(m.browsers),
                    m.form.browser,
                ) {
                    Some(i) => i as usize,
                    None => m.selected_browser_index,
                },
                ..m
            }
        } else {
            m
        },
        FormField::Profile => if m.dropdown_open == Some(FormField::Profile) {
            ManagerModel { dropdown_open: None, ..m }
        } else if m.profiles.len() > 0 {
            ManagerModel {
                dropdown_open: Some(FormField::Profile),
                selected_profile_index: match first_index(
                    profile_names(m.profiles),
                    m.form.profile,
                ) {
                    Some(i) => i as usize,
                    None => m.selected_profile_index,
                },
                ..m
            }
        } else {
            m
        },
        FormField::Container => if m.dropdown_open == Some(FormField::Container) {
            ManagerModel { dropdown_open: None, ..m }
        } else if m.containers.len() > 0 {
            ManagerModel {
                dropdown_open: Some(FormField::Container),
                selected_container_index: match first_index(
                    container_names(m.containers),
                    m.form.container,
                ) {
                    Some(i) => i as usize,
                    None => m.selected_container_index,
                },
                ..m
            }
        } else {
            m
        },
        _ => m,
    }
}

/// Moving the open dropdown's selection to index `i`, the form taking that
/// entry: a new browser refreshes the profiles, a new profile the
/// containers.
pub open spec fn dropdown_moved(m: ManagerModel, i: usize) -> (ManagerModel, PatternRequestModel) {
    match m.dropdown_open {
        Some(FormField::Browser) => profiles_update(
            ManagerModel {
                selected_browser_index: i,
                form: FormModel { browser: m.browsers[i as int].name@, ..m.form },
                ..m
            },
            AfterProfiles::Done,
        ),
        Some(FormField::Profile) => form_containers_update(
            ManagerModel {
                selected_profile_index: i,
                form: FormModel { profile: m.profiles[i as int].0, ..m.form },
                ..m
            },
            AfterFormContainers::Done,
        ),
        Some(FormField::Container) => (
            ManagerModel {
                selected_container_index: i,
                form: FormModel { container: m.containers[i as int].name@, ..m.form },
                ..m
            },
            PatternRequestModel::Nothing,
        ),
        _ => (m, PatternRequestModel::Nothing),
    }
}

/// The length of the open dropdown's list, and its selection.
pub open spec fn dropdown_list(m: ManagerModel) -> (nat, usize) {
    match m.dropdown_open {
        Some(FormField::Browser) => (m.browsers.len(), m.selected_browser_index),
        Some(FormField::Profile) => (m.profiles.len(), m.selected_profile_index),
        Some(FormField::Container) => (m.containers.len(), m.selected_container_index),
        _ => (0, 0),
    }
}

/// The next entry of the open dropdown, wrapping.
pub open spec fn form_next_in_dropdown(m: ManagerModel) -> (ManagerModel, PatternRequestModel) {
    let (n, s) = dropdown_list(m);
    if n > 0 {
        dropdown_moved(m, ((s + 1) % (n as int)) as usize)
    } else {
        (m, PatternRequestModel::Nothing)
    }
}

/// The previous entry of the open dropdown, wrapping.
pub open spec fn form_previous_in_dropdown(m: ManagerModel) -> (ManagerModel, PatternRequestModel) {
    let (n, s) = dropdown_list(m);
    if n > 0 {
        dropdown_moved(
            m,
            if s == 0 {
                (n - 1) as usize
            } else {
                (s - 1) as usize
            },
        )
    } else {
        (m, PatternRequestModel::Nothing)
    }
}

/// The field after the focused one.
pub open spec fn field_after(m: ManagerModel) -> FormField {
    match m.focused_field {
        FormField::Pattern => FormField::Browser,
        FormField::Browser => FormField::Profile,
        FormField::Profile => if container_field_visible(m) {
            FormField::Container
        } else {
            FormField::Incognito
        },
        FormField::Container => FormField::Incognito,
        FormField::Incognito => FormField::NewWindow,
        FormField::NewWindow => FormField::SaveButton,
        FormField::SaveButton => FormField::CancelButton,
        FormField::CancelButton => FormField::Pattern,
    }
}

/// The field before the focused one.
pub open spec fn field_before(m: ManagerModel) -> FormField {
    match m.focused_field {
        FormField::Pattern => FormField::CancelButton,
        FormField::Browser => FormField::Pattern,
        FormField::Profile => FormField::Browser,
        FormField::Container => FormField::Profile,
        FormField::Incognito => if container_field_visible(m) {
            FormField::Container
        } else {
            FormField::Profile
        },
        FormField::NewWindow => FormField::Incognito,
        FormField::SaveButton => FormField::NewWindow,
        FormField::CancelButton => FormField::SaveButton,
    }
}

/// Focus moved to the next field, closing the dropdown.
pub open spec fn moved_to_next_field(m: ManagerModel) -> ManagerModel {
    ManagerModel { focused_field: field_after(m), dropdown_open: None, ..m }
}

/// Focus moved to the previous field, closing the dropdown.
pub open spec fn moved_to_previous_field(m: ManagerModel) -> ManagerModel {
    ManagerModel { focused_field: field_before(m), dropdown_open: None, ..m }
}

/// The selection moved to the next pattern, wrapping.
pub open spec fn pattern_after(m: ManagerModel) -> ManagerModel {
    if m.patterns.len() > 0 {
        ManagerModel {
            selected_index: ((m.selected_index + 1) % (m.patterns.len() as int)) as usize,
            ..m
        }
    } else {
        m
    }
}

/// The selection moved to the previous pattern, wrapping.
pub open spec fn pattern_before(m: ManagerModel) -> ManagerModel {
    if m.patterns.len() > 0 {
        ManagerModel {
            selected_index: if m.selected_index == 0 {
                (m.patterns.len() - 1) as usize
            } else {
                (m.selected_index - 1) as usize
            },
            ..m
        }
    } else {
        m
    }
}

/// The form's incognito box flipped; when it turns on, new window turns off.
pub open spec fn form_incognito_toggled(m: ManagerModel) -> ManagerModel {
    let on = !m.form.incognito;
    ManagerModel {
        form: FormModel {
            incognito: on,
            new_window: if on {
                false
            } else {
                m.form.new_window
            },
            ..m.form
        },
        ..m
    }
}

/// The form's new window box flipped; when it turns on, incognito turns off.
pub open spec fn form_new_window_toggled(m: ManagerModel) -> ManagerModel {
    let on = !m.form.new_window;
    ManagerModel {
        form: FormModel {
            new_window: on,
            incognito: if on {
                false
            } else {
                m.form.incognito
            },
            ..m.form
        },
        ..m
    }
}

/// A key in the list: quit or Escape close the manager, `a` adds, `e`
/// edits, `d` or Delete deletes, Up and Down move the selection.
pub open spec fn list_key(m: ManagerModel, key: KeyInput) -> (ManagerModel, PatternRequestModel) {
    match key.code {
        Key::Char('q') | Key::Esc => (
            ManagerModel { should_close: true, ..m },
            PatternRequestModel::Nothing,
        ),
        Key::Char('a') => add_started(m),
        Key::Char('e') => edit_started(m),
        Key::Char('d') | Key::Delete => (deleted(m), PatternRequestModel::Nothing),
        Key::Up => (pattern_before(m), PatternRequestModel::Nothing),
        Key::Down => (pattern_after(m), PatternRequestModel::Nothing),
        _ => (m, PatternRequestModel::Nothing),
    }
}

/// A key in the form: with a dropdown open, Escape or Enter close it and Up
/// and Down move in it; otherwise Tab, Shift-Tab, Up and Down move between
/// fields, Escape cancels, Enter acts on the focused field, the editing keys
/// change the pattern at its cursor, and `i`, `w` flip the boxes from the
/// boxes and buttons.
pub open spec fn form_key(m: ManagerModel, key: KeyInput) -> (ManagerModel, PatternRequestModel) {
    let at_pattern = m.focused_field == FormField::Pattern;
    let pos = m.pattern_cursor_pos;
    if m.dropdown_open is Some && (key.code == Key::Esc || key.code == Key::Enter) {
        (ManagerModel { dropdown_open: None, ..m }, PatternRequestModel::Nothing)
    } else if m.dropdown_open is Some && key.code == Key::Up {
        form_previous_in_dropdown(m)
    } else if m.dropdown_open is Some && key.code == Key::Down {
        form_next_in_dropdown(m)
    } else {
        match key.code {
            Key::Tab => (moved_to_next_field(m), PatternRequestModel::Nothing),
            Key::BackTab => (moved_to_previous_field(m), PatternRequestModel::Nothing),
            Key::Esc => (form_cancelled(m), PatternRequestModel::Nothing),
            Key::Enter => match m.focused_field {
                FormField::Browser | FormField::Profile | FormField::Container => (
                    form_dropdown_toggled(m),
                    PatternRequestModel::Nothing,
                ),
                FormField::SaveButton => (form_saved(m), PatternRequestModel::Nothing),
                FormField::CancelButton => (form_cancelled(m), PatternRequestModel::Nothing),
                FormField::Incognito => (form_incognito_toggled(m), PatternRequestModel::Nothing),
                FormField::NewWindow => (form_new_window_toggled(m), PatternRequestModel::Nothing),
                FormField::Pattern => (m, PatternRequestModel::Nothing),
            },
            Key::Left => if at_pattern {
                (
                    ManagerModel { pattern_cursor_pos: cursor_left(m.form.pattern, pos), ..m },
                    PatternRequestModel::Nothing,
                )
            } else {
                (m, PatternRequestModel::Nothing)
            },
            Key::Right => if at_pattern {
                (
                    ManagerModel { pattern_cursor_pos: cursor_right(m.form.pattern, pos), ..m },
                    PatternRequestModel::Nothing,
                )
            } else {
                (m, PatternRequestModel::Nothing)
            },
            Key::Up => (moved_to_previous_field(m), PatternRequestModel::Nothing),
            Key::Down => (moved_to_next_field(m), PatternRequestModel::Nothing),
            Key::Char(c) => match m.focused_field {
                FormField::Pattern => {
                    let (t, p) = typed_at(m.form.pattern, pos, c);
                    (
                        ManagerModel {
                            form: FormModel { pattern: t, ..m.form },
                            pattern_cursor_pos: p,
                            ..m
                        },
                        PatternRequestModel::Nothing,
                    )
                },
                FormField::Incognito | FormField::NewWindow | FormField::SaveButton
                | FormField::CancelButton => if c == 'i' {
                    (form_incognito_toggled(m), PatternRequestModel::Nothing)
                } else if c == 'w' {
                    (form_new_window_toggled(m), PatternRequestModel::Nothing)
                } else {
                    (m, PatternRequestModel::Nothing)
                },
                _ => (m, PatternRequestModel::Nothing),
            },
            Key::Backspace => if at_pattern {
                let (t, p) = backspace_at(m.form.pattern, pos);
                (
                    ManagerModel {
                        form: FormModel { pattern: t, ..m.form },
                        pattern_cursor_pos: p,
                        ..m
                    },
                    PatternRequestModel::Nothing,
                )
            } else {
                (m, PatternRequestModel::Nothing)
            },
            Key::Delete => if at_pattern {
                let (t, p) = delete_at(m.form.pattern, pos);
                (
                    ManagerModel {
                        form: FormModel { pattern: t, ..m.form },
                        pattern_cursor_pos: p,
                        ..m
                    },
                    PatternRequestModel::Nothing,
                )
            } else {
                (m, PatternRequestModel::Nothing)
            },
            Key::Other => (m, PatternRequestModel::Nothing),
        }
    }
}

/// A key press: messages are cleared, then the list or the form handles it.
pub open spec fn manager_key(m0: ManagerModel, key: KeyInput) -> (
    ManagerModel,
    PatternRequestModel,
) {
    let m = ManagerModel { error: None, info: None, ..m0 };
    match m.mode {
        PatternManagerMode::List => list_key(m, key),
        _ => form_key(m, key),
    }
}

/// The pattern manager as it opens: the configured patterns in list mode,
/// an empty form, the given browsers, nothing selected beyond the first.
pub open spec fn opened(patterns: Seq<UrlPattern>, bs: Seq<Browser>) -> ManagerModel {
    ManagerModel {
        mode: PatternManagerMode::List,
        patterns: pattern_models(patterns),
        selected_index: 0,
        form: empty_form(),
        pattern_cursor_pos: 0,
        focused_field: FormField::Pattern,
        dropdown_open: None,
        browsers: bs,
        profiles: seq![],
        containers: seq![],
        selected_browser_index: 0,
        selected_profile_index: 0,
        selected_container_index: 0,
        error: None,
        info: None,
        should_close: false,
        modified: false,
    }
}

/// Opening the pattern manager: with browsers available the first is chosen
/// in the form and its profiles refreshed.
pub open spec fn opened_with_browser(patterns: Seq<UrlPattern>, bs: Seq<Browser>) -> (
    ManagerModel,
    PatternRequestModel,
) {
    let m = opened(patterns, bs);
    if bs.len() > 0 {
        profiles_update(
            ManagerModel { form: FormModel { browser: bs[0].name@, ..m.form }, ..m },
            AfterProfiles::Done,
        )
    } else {
        (m, PatternRequestModel::Nothing)
    }
}

/// A copy of a list of patterns.
pub fn clone_patterns(v: &Vec<UrlPattern>) -> (r: Vec<UrlPattern>)
    ensures
        r@ == v@,
{
    let mut out: Vec<UrlPattern> = Vec::new();
    let mut i: usize = 0;
    while i < v.len()
        invariant
            i <= v.len(),
            out@ == v@.take(i as int),
        decreases v.len() - i,
    {
        out.push(v[i].duplicate());
        assert(v@.take(i + 1) =~= v@.take(i as int).push(v@[i as int]));
        i += 1;
    }
    assert(v@.take(v.len() as int) =~= v@);
    out
}

impl PatternManager {
    /// Creates a new PatternManager from the current config and the browsers
    /// found.
    pub fn new(config: &Config, browsers: Vec<Browser>) -> (r: (PatternManager, PatternRequest))
        ensures
            (r.0@, r.1@) == opened_with_browser(config.url_patterns@, browsers@),
            pm_wf(r.0@),
    {
        let mut pm = PatternManager {
            mode: PatternManagerMode::List,
            patterns: clone_patterns(&config.url_patterns),
            selected_index: 0,
            form: PatternForm::default(),
            pattern_cursor_pos: 0,
            focused_field: FormField::Pattern,
            dropdown_open: None,
            available_browsers: browsers,
            available_profiles: Vec::new(),
            available_containers: Vec::new(),
            selected_browser_index: 0,
            selected_profile_index: 0,
            selected_container_index: 0,
            error: None,
            info: None,
            should_close: false,
            modified: false,
        };
        assert(profile_views(pm.available_profiles@) =~= Seq::<(Seq<char>, PathBuf, bool)>::empty());
        assert(pm@ == opened(config.url_patterns@, pm.available_browsers@));
        if pm.available_browsers.len() > 0 {
            pm.form.browser = pm.available_browsers[0].name.clone();
            let req = pm.update_profiles_for_browser();
            (pm, req)
        } else {
            (pm, PatternRequest::Nothing)
        }
    }

    /// The binary of available browser `i`.
    fn binary_at(&self, i: usize) -> (r: String)
        requires
            i < self.available_browsers@.len(),
        ensures
            r@ == binary_of(self@.browsers, i as int),
    {
        let w = first_word_str(self.available_browsers[i].command.as_str());
        string_of(&w)
    }

    fn profiles_update_from(&mut self, k: AfterProfiles) -> (r: PatternRequest)
        requires
            pm_wf(old(self)@),
        ensures
            (final(self)@, r@) == profiles_update(old(self)@, k),
            pm_wf(final(self)@),
        decreases rank_profiles(k) + 4,
    {
        let found = browser_position(&self.available_browsers, &self.form.browser);
        self.available_profiles = Vec::new();
        self.available_containers = Vec::new();
        self.form.profile = String::new();
        self.form.container = String::new();
        self.selected_profile_index = 0;
        self.selected_container_index = 0;
        assert(profile_views(self.available_profiles@) =~= Seq::<(Seq<char>, PathBuf, bool)>::empty());
        match found {
            None => self.profiles_done(k),
            Some(i) => {
                let binary = self.binary_at(i);
                match browser_family(binary.as_str()) {
                    BrowserFamily::Other => self.profiles_got(k, detect_unknown_profiles()),
                    fam => PatternRequest::Profiles { family: fam, binary_name: binary, then: k },
                }
            },
        }
    }

    /// Updates available profiles based on selected browser
    fn update_profiles_for_browser(&mut self) -> (r: PatternRequest)
        requires
            pm_wf(old(self)@),
        ensures
            (final(self)@, r@) == profiles_update(old(self)@, AfterProfiles::Done),
            pm_wf(final(self)@),
    {
        self.profiles_update_from(AfterProfiles::Done)
    }

    fn profiles_got(&mut self, k: AfterProfiles, ps: Vec<Profile>) -> (r: PatternRequest)
        requires
            pm_wf(old(self)@),
            old(self).selected_profile_index == 0,
        ensures
            (final(self)@, r@) == profiles_got(old(self)@, k, profile_views(ps@)),
            pm_wf(final(self)@),
        decreases rank_profiles(k) + 3,
    {
        self.available_profiles = ps;
        if self.available_profiles.len() > 0 {
            self.form.profile = self.available_profiles[0].name.clone();
            self.form_containers_update_from(AfterFormContainers::FinishProfiles(k))
        } else {
            self.profiles_done(k)
        }
    }

    /// Takes the profiles found for the form's browser, then goes on as
    /// `then` says.
    pub fn receive_profiles(&mut self, then: AfterProfiles, detected: Vec<Profile>) -> (r:
        PatternRequest)
        requires
            pm_wf(old(self)@),
            old(self).selected_profile_index == 0,
        ensures
            (final(self)@, r@) == profiles_got(old(self)@, then, profile_views(detected@)),
            pm_wf(final(self)@),
    {
        self.profiles_got(then, detected)
    }

    fn profiles_done(&mut self, k: AfterProfiles) -> (r: PatternRequest)
        requires
            pm_wf(old(self)@),
        ensures
            (final(self)@, r@) == profiles_done(old(self)@, k),
            pm_wf(final(self)@),
        decreases rank_profiles(k),
    {
        match k {
            AfterProfiles::Done => PatternRequest::Nothing,
            AfterProfiles::EditSelectProfile => self.edit_select_profile(),
        }
    }

    fn form_containers_update_from(&mut self, k: AfterFormContainers) -> (r: PatternRequest)
        requires
            pm_wf(old(self)@),
        ensures
            (final(self)@, r@) == form_containers_update(old(self)@, k),
            pm_wf(final(self)@),
        decreases rank_form_containers(k) + 1,
    {
        self.available_containers = Vec::new();
        self.form.container = String::new();
        self.selected_container_index = 0;
        match browser_position(&self.available_browsers, &self.form.browser) {
            None => self.form_containers_done(k),
            Some(i) => {
                let binary = self.binary_at(i);
                if !is_firefox_based(binary.as_str()) {
                    return self.form_containers_done(k);
                }
                match profile_position(&self.available_profiles, &self.form.profile) {
                    None => self.form_containers_done(k),
                    Some(j) => PatternRequest::Containers { profile_index: j, then: k },
                }
            },
        }
    }

    /// Updates available containers based on selected profile (Firefox only)
    fn update_containers_for_profile(&mut self) -> (r: PatternRequest)
        requires
            pm_wf(old(self)@),
        ensures
            (final(self)@, r@) == form_containers_update(old(self)@, AfterFormContainers::Done),
            pm_wf(final(self)@),
    {
        self.form_containers_update_from(AfterFormContainers::Done)
    }

    /// Takes the containers found for the form's profile, then goes on as
    /// `then` says.
    pub fn receive_containers(&mut self, then: AfterFormContainers, detected: Vec<Container>) -> (r:
        PatternRequest)
        requires
            pm_wf(old(self)@),
            old(self).selected_container_index == 0,
        ensures
            (final(self)@, r@) == form_containers_got(old(self)@, then, detected@),
            pm_wf(final(self)@),
    {
        self.available_containers = detected;
        if self.available_containers.len() > 0 {
            self.form.container = self.available_containers[0].name.clone();
        }
        self.form_containers_done(then)
    }

    fn form_containers_done(&mut self, k: AfterFormContainers) -> (r: PatternRequest)
        requires
            pm_wf(old(self)@),
        ensures
            (final(self)@, r@) == form_containers_done(old(self)@, k),
            pm_wf(final(self)@),
        decreases rank_form_containers(k),
    {
        match k {
            AfterFormContainers::Done => PatternRequest::Nothing,
            AfterFormContainers::FinishProfiles(l) => self.profiles_done(l),
            AfterFormContainers::EditSelectContainer => {
                self.edit_select_container();
                PatternRequest::Nothing
            },
        }
    }

    fn wanted_on_edit(&self) -> (r: (String, String))
        ensures
            r.0@ == edit_wanted(self@).0,
            r.1@ == edit_wanted(self@).1,
    {
        if self.selected_index < self.patterns.len() {
            let p = &self.patterns[self.selected_index];
            let profile = match &p.profile {
                Some(n) => n.clone(),
                None => String::new(),
            };
            let container = match &p.container {
                Some(n) => n.clone(),
                None => String::new(),
            };
            (profile, container)
        } else {
            (self.form.profile.clone(), self.form.container.clone())
        }
    }

    fn edit_select_profile(&mut self) -> (r: PatternRequest)
        requires
            pm_wf(old(self)@),
        ensures
            (final(self)@, r@) == edit_select_profile(old(self)@),
            pm_wf(final(self)@),
        decreases 3nat,
    {
        let (profile, container) = self.wanted_on_edit();
        self.form.profile = profile;
        self.form.container = container;
        match profile_position(&self.available_profiles, &self.form.profile) {
            Some(i) => {
                self.selected_profile_index = i;
                self.form_containers_update_from(AfterFormContainers::EditSelectContainer)
            },
            None => {
                self.edit_finish();
                PatternRequest::Nothing
            },
        }
    }

    fn edit_select_container(&mut self)
        requires
            pm_wf(old(self)@),
        ensures
            final(self)@ == edit_select_container(old(self)@),
            pm_wf(final(self)@),
    {
        let (_, container) = self.wanted_on_edit();
        self.form.container = container;
        match container_position(&self.available_containers, &self.form.container) {
            Some(i) => {
                self.selected_container_index = i;
            },
            None => {},
        }
        self.edit_finish();
    }

    fn edit_finish(&mut self)
        requires
            pm_wf(old(self)@),
        ensures
            final(self)@ == edit_finish(old(self)@),
            pm_wf(final(self)@),
    {
        match browser_position(&self.available_browsers, &self.form.browser) {
            Some(i) => {
                self.selected_browser_index = i;
            },
            None => {},
        }
        self.focused_field = FormField::Pattern;
        self.dropdown_open = None;
        self.clear_error();
        self.clear_info();
    }

    /// Whether the state keeps its invariant `pm_wf`: the cursor on a
    /// character boundary and the selections in their lists.
    pub fn well_formed(&self) -> (r: bool)
        ensures
            r == pm_wf(self@),
    {
        self.form.pattern.as_str().is_char_boundary(self.pattern_cursor_pos)
            && (self.patterns.len() == 0 || self.selected_index < self.patterns.len())
            && (self.patterns.len() != 0 || self.selected_index == 0)
            && (self.available_browsers.len() == 0
            || self.selected_browser_index < self.available_browsers.len())
            && (self.available_profiles.len() == 0
            || self.selected_profile_index < self.available_profiles.len())
            && (self.available_containers.len() == 0
            || self.selected_container_index < self.available_containers.len())
    }

    /// Returns true if container field should be visible
    pub fn is_container_field_visible(&self) -> (r: bool)
        ensures
            r == container_field_visible(self@),
    {
        match browser_position(&self.available_browsers, &self.form.browser) {
            Some(i) => {
                let binary = self.binary_at(i);
                is_firefox_based(binary.as_str()) && self.available_containers.len() > 0
            },
            None => false,
        }
    }

    /// Starts adding a new pattern
    pub fn start_add(&mut self) -> (r: PatternRequest)
        requires
            pm_wf(old(self)@),
        ensures
            (final(self)@, r@) == add_started(old(self)@),
            pm_wf(final(self)@),
    {
        self.mode = PatternManagerMode::Add;
        self.form = PatternForm::default();
        self.pattern_cursor_pos = 0;
        self.focused_field = FormField::Pattern;
        self.dropdown_open = None;
        self.clear_error();
        self.clear_info();
        if self.available_browsers.len() > 0 {
            self.form.browser = self.available_browsers[0].name.clone();
            return self.update_profiles_for_browser();
        }
        PatternRequest::Nothing
    }

    /// Starts editing the selected pattern
    pub fn start_edit(&mut self) -> (r: PatternRequest)
        requires
            pm_wf(old(self)@),
        ensures
            (final(self)@, r@) == edit_started(old(self)@),
            pm_wf(final(self)@),
    {
        if self.patterns.len() == 0 {
            self.set_error(owned("No patterns to edit"));
            return PatternRequest::Nothing;
        }
        if self.selected_index < self.patterns.len() {
            let p = &self.patterns[self.selected_index];
            let form = PatternForm {
                pattern: p.pattern.clone(),
                browser: p.browser.clone(),
                profile: match &p.profile {
                    Some(x) => x.clone(),
                    None => String::new(),
                },
                container: match &p.container {
                    Some(x) => x.clone(),
                    None => String::new(),
                },
                incognito: p.incognito,
                new_window: p.new_window,
            };
            let cursor = byte_len(&p.pattern);
            self.mode = PatternManagerMode::Edit;
            self.form = form;
            self.pattern_cursor_pos = cursor;
            proof {
                lemma_boundary_ends(self.form.pattern@);
            }
            return self.profiles_update_from(AfterProfiles::EditSelectProfile);
        }
        PatternRequest::Nothing
    }

    /// Deletes the selected pattern
    pub fn delete_selected(&mut self)
        requires
            pm_wf(old(self)@),
        ensures
            final(self)@ == deleted(old(self)@),
            pm_wf(final(self)@),
    {
        if self.patterns.len() == 0 {
            self.set_error(owned("No patterns to delete"));
            return;
        }
        let ghost before = self.patterns@;
        self.patterns.remove(self.selected_index);
        assert(pattern_models(self.patterns@) =~= pattern_models(before).remove(
            old(self).selected_index as int,
        ));
        self.modified = true;
        if self.selected_index >= self.patterns.len() && self.patterns.len() > 0 {
            self.selected_index = self.patterns.len() - 1;
        }
        self.set_info(owned("Pattern deleted"));
    }

    /// Saves the current form (Add or Edit mode)
    pub fn save_form(&mut self)
        requires
            pm_wf(old(self)@),
        ensures
            final(self)@ == form_saved(old(self)@),
            pm_wf(final(self)@),
    {
        if is_blank(self.form.pattern.as_str()) {
            self.set_error(owned("Pattern cannot be empty"));
            return;
        }
        if is_blank(self.form.browser.as_str()) {
            self.set_error(owned("Browser cannot be empty"));
            return;
        }
        let pattern = UrlPattern {
            pattern: self.form.pattern.clone(),
            browser: self.form.browser.clone(),
            profile: if is_blank(self.form.profile.as_str()) {
                None
            } else {
                Some(self.form.profile.clone())
            },
            container: if is_blank(self.form.container.as_str()) {
                None
            } else {
                Some(self.form.container.clone())
            },
            incognito: self.form.incognito,
            new_window: self.form.new_window,
        };
        assert(pattern_model(pattern) == form_pattern(self.form@));
        match pattern.validate() {
            Err(e) => {
                self.set_error(concat("Invalid pattern: ", e.as_str()));
                return;
            },
            Ok(_) => {},
        }
        let ghost before = self.patterns@;
        match self.mode {
            PatternManagerMode::Add => {
                self.patterns.push(pattern);
                assert(pattern_models(self.patterns@) =~= pattern_models(before).push(
                    pattern_model(pattern),
                ));
                self.set_info(owned("Pattern added"));
            },
            PatternManagerMode::Edit => {
                if self.selected_index < self.patterns.len() {
                    self.patterns.set(self.selected_index, pattern);
                    assert(pattern_models(self.patterns@) =~= pattern_models(before).update(
                        old(self).selected_index as int,
                        pattern_model(pattern),
                    ));
                    self.set_info(owned("Pattern updated"));
                }
            },
            PatternManagerMode::List => {},
        }
        self.modified = true;
        self.mode = PatternManagerMode::List;
        self.dropdown_open = None;
    }

    /// Cancels the current Add/Edit operation
    pub fn cancel_form(&mut self)
        ensures
            final(self)@ == form_cancelled(old(self)@),
    {
        self.mode = PatternManagerMode::List;
        self.dropdown_open = None;
        self.clear_error();
        self.clear_info();
    }

    /// Toggles the dropdown for the current field
    pub fn toggle_dropdown(&mut self)
        requires
            pm_wf(old(self)@),
        ensures
            final(self)@ == form_dropdown_toggled(old(self)@),
            pm_wf(final(self)@),
    {
        match self.focused_field {
            FormField::Browser => {
                if self.dropdown_open == Some(FormField::Browser) {
                    self.dropdown_open = None;
                } else if self.available_browsers.len() > 0 {
                    self.dropdown_open = Some(FormField::Browser);
                    match browser_position(&self.available_browsers, &self.form.browser) {
                        Some(idx) => {
                            self.selected_browser_index = idx;
                        },
                        None => {},
                    }
                }
            },
            FormField::Profile => {
                if self.dropdown_open == Some(FormField::Profile) {
                    self.dropdown_open = None;
                } else if self.available_profiles.len() > 0 {
                    self.dropdown_open = Some(FormField::Profile);
                    match profile_position(&self.available_profiles, &self.form.profile) {
                        Some(idx) => {
                            self.selected_profile_index = idx;
                        },
                        None => {},
                    }
                }
            },
            FormField::Container => {
                if self.dropdown_open == Some(FormField::Container) {
                    self.dropdown_open = None;
                } else if self.available_containers.len() > 0 {
                    self.dropdown_open = Some(FormField::Container);
                    match container_position(&self.available_containers, &self.form.container) {
                        Some(idx) => {
                            self.selected_container_index = idx;
                        },
                        None => {},
                    }
                }
            },
            _ => {},
        }
    }

    /// Closes any open dropdown
    pub fn close_dropdown(&mut self)
        ensures
            final(self)@ == (ManagerModel { dropdown_open: None, ..old(self)@ }),
    {
        self.dropdown_open = None;
    }

    /// Moves to the next item in the open dropdown
    pub fn select_next_in_dropdown(&mut self) -> (r: PatternRequest)
        requires
            pm_wf(old(self)@),
        ensures
            (final(self)@, r@) == form_next_in_dropdown(old(self)@),
            pm_wf(final(self)@),
    {
        match self.dropdown_open {
            Some(FormField::Browser) => {
                if self.available_browsers.len() > 0 {
                    self.selected_browser_index = (self.selected_browser_index + 1)
                        % self.available_browsers.len();
                    self.form.browser = self.available_browsers[self.selected_browser_index].name.clone();
                    return self.update_profiles_for_browser();
                }
                PatternRequest::Nothing
            },
            Some(FormField::Profile) => {
                if self.available_profiles.len() > 0 {
                    self.selected_profile_index = (self.selected_profile_index + 1)
                        % self.available_profiles.len();
                    self.form.profile = self.available_profiles[self.selected_profile_index].name.clone();
                    return self.update_containers_for_profile();
                }
                PatternRequest::Nothing
            },
            Some(FormField::Container) => {
                if self.available_containers.len() > 0 {
                    self.selected_container_index = (self.selected_container_index + 1)
                        % self.available_containers.len();
                    self.form.container = self.available_containers[self.selected_container_index].name.clone();
                }
                PatternRequest::Nothing
            },
            _ => PatternRequest::Nothing,
        }
    }

    /// Moves to the previous item in the open dropdown
    pub fn select_previous_in_dropdown(&mut self) -> (r: PatternRequest)
        requires
            pm_wf(old(self)@),
        ensures
            (final(self)@, r@) == form_previous_in_dropdown(old(self)@),
            pm_wf(final(self)@),
    {
        match self.dropdown_open {
            Some(FormField::Browser) => {
                if self.available_browsers.len() > 0 {
                    if self.selected_browser_index == 0 {
                        self.selected_browser_index = self.available_browsers.len() - 1;
                    } else {
                        self.selected_browser_index -= 1;
                    }
                    self.form.browser = self.available_browsers[self.selected_browser_index].name.clone();
                    return self.update_profiles_for_browser();
                }
                PatternRequest::Nothing
            },
            Some(FormField::Profile) => {
                if self.available_profiles.len() > 0 {
                    if self.selected_profile_index == 0 {
                        self.selected_profile_index = self.available_profiles.len() - 1;
                    } else {
                        self.selected_profile_index -= 1;
                    }
                    self.form.profile = self.available_profiles[self.selected_profile_index].name.clone();
                    return self.update_containers_for_profile();
                }
                PatternRequest::Nothing
            },
            Some(FormField::Container) => {
                if self.available_containers.len() > 0 {
                    if self.selected_container_index == 0 {
                        self.selected_container_index = self.available_containers.len() - 1;
                    } else {
                        self.selected_container_index -= 1;
                    }
                    self.form.container = self.available_containers[self.selected_container_index].name.clone();
                }
                PatternRequest::Nothing
            },
            _ => PatternRequest::Nothing,
        }
    }

    /// Moves to the next field in the form
    pub fn next_field(&mut self)
        ensures
            final(self)@ == moved_to_next_field(old(self)@),
    {
        let visible = self.is_container_field_visible();
        self.close_dropdown();
        self.focused_field = match self.focused_field {
            FormField::Pattern => FormField::Browser,
            FormField::Browser => FormField::Profile,
            FormField::Profile => if visible {
                FormField::Container
            } else {
                FormField::Incognito
            },
            FormField::Container => FormField::Incognito,
            FormField::Incognito => FormField::NewWindow,
            FormField::NewWindow => FormField::SaveButton,
            FormField::SaveButton => FormField::CancelButton,
            FormField::CancelButton => FormField::Pattern,
        };
    }

    /// Moves to the previous field in the form
    pub fn previous_field(&mut self)
        ensures
            final(self)@ == moved_to_previous_field(old(self)@),
    {
        let visible = self.is_container_field_visible();
        self.close_dropdown();
        self.focused_field = match self.focused_field {
            FormField::Pattern => FormField::CancelButton,
            FormField::Browser => FormField::Pattern,
            FormField::Profile => FormField::Browser,
            FormField::Container => FormField::Profile,
            FormField::Incognito => if visible {
                FormField::Container
            } else {
                FormField::Profile
            },
            FormField::NewWindow => FormField::Incognito,
            FormField::SaveButton => FormField::NewWindow,
            FormField::CancelButton => FormField::SaveButton,
        };
    }

    /// Moves to the next pattern in the list
    pub fn next_pattern(&mut self)
        requires
            pm_wf(old(self)@),
        ensures
            final(self)@ == pattern_after(old(self)@),
            pm_wf(final(self)@),
    {
        if self.patterns.len() > 0 {
            self.selected_index = (self.selected_index + 1) % self.patterns.len();
        }
    }

    /// Moves to the previous pattern in the list
    pub fn previous_pattern(&mut self)
        requires
            pm_wf(old(self)@),
        ensures
            final(self)@ == pattern_before(old(self)@),
            pm_wf(final(self)@),
    {
        if self.patterns.len() > 0 {
            if self.selected_index == 0 {
                self.selected_index = self.patterns.len() - 1;
            } else {
                self.selected_index -= 1;
            }
        }
    }

    /// Toggles the incognito checkbox
    pub fn toggle_incognito(&mut self)
        ensures
            final(self)@ == form_incognito_toggled(old(self)@),
            !(final(self).form.incognito && final(self).form.new_window),
    {
        self.form.incognito = !self.form.incognito;
        if self.form.incognito {
            self.form.new_window = false;
        }
    }

    /// Toggles the new window checkbox
    pub fn toggle_new_window(&mut self)
        ensures
            final(self)@ == form_new_window_toggled(old(self)@),
            !(final(self).form.incognito && final(self).form.new_window),
    {
        self.form.new_window = !self.form.new_window;
        if self.form.new_window {
            self.form.incognito = false;
        }
    }

    /// Handles a key event
    pub fn handle_key(&mut self, key: KeyInput) -> (r: PatternRequest)
        requires
            pm_wf(old(self)@),
        ensures
            (final(self)@, r@) == manager_key(old(self)@, key),
            pm_wf(final(self)@),
    {
        self.clear_error();
        self.clear_info();
        match self.mode {
            PatternManagerMode::List => self.handle_list_key(key),
            _ => self.handle_form_key(key),
        }
    }

    fn handle_list_key(&mut self, key: KeyInput) -> (r: PatternRequest)
        requires
            pm_wf(old(self)@),
        ensures
            (final(self)@, r@) == list_key(old(self)@, key),
            pm_wf(final(self)@),
    {
        match key.code {
            Key::Char('q') | Key::Esc => {
                self.should_close = true;
                PatternRequest::Nothing
            },
            Key::Char('a') => self.start_add(),
            Key::Char('e') => self.start_edit(),
            Key::Char('d') | Key::Delete => {
                self.delete_selected();
                PatternRequest::Nothing
            },
            Key::Up => {
                self.previous_pattern();
                PatternRequest::Nothing
            },
            Key::Down => {
                self.next_pattern();
                PatternRequest::Nothing
            },
            _ => PatternRequest::Nothing,
        }
    }

    fn handle_form_key(&mut self, key: KeyInput) -> (r: PatternRequest)
        requires
            pm_wf(old(self)@),
            old(self).mode != PatternManagerMode::List,
        ensures
            (final(self)@, r@) == form_key(old(self)@, key),
            pm_wf(final(self)@),
    {
        if self.dropdown_open.is_some() {
            match key.code {
                Key::Esc | Key::Enter => {
                    self.close_dropdown();
                    return PatternRequest::Nothing;
                },
                Key::Up => {
                    return self.select_previous_in_dropdown();
                },
                Key::Down => {
                    return self.select_next_in_dropdown();
                },
                _ => {},
            }
        }
        let at_pattern = self.focused_field == FormField::Pattern;
        match key.code {
            Key::Tab => {
                self.next_field();
                PatternRequest::Nothing
            },
            Key::BackTab => {
                self.previous_field();
                PatternRequest::Nothing
            },
            Key::Esc => {
                self.cancel_form();
                PatternRequest::Nothing
            },
            Key::Enter => {
                match self.focused_field {
                    FormField::Browser | FormField::Profile | FormField::Container => {
                        self.toggle_dropdown();
                    },
                    FormField::SaveButton => {
                        self.save_form();
                    },
                    FormField::CancelButton => {
                        self.cancel_form();
                    },
                    FormField::Incognito => {
                        self.toggle_incognito();
                    },
                    FormField::NewWindow => {
                        self.toggle_new_window();
                    },
                    _ => {},
                }
                PatternRequest::Nothing
            },
            Key::Left => {
                if at_pattern {
                    self.pattern_cursor_pos = move_left(&self.form.pattern, self.pattern_cursor_pos);
                }
                PatternRequest::Nothing
            },
            Key::Right => {
                if at_pattern {
                    self.pattern_cursor_pos = move_right(&self.form.pattern, self.pattern_cursor_pos);
                }
                PatternRequest::Nothing
            },
            Key::Up => {
                self.previous_field();
                PatternRequest::Nothing
            },
            Key::Down => {
                self.next_field();
                PatternRequest::Nothing
            },
            Key::Char(c) => {
                match self.focused_field {
                    FormField::Pattern => {
                        let (t, p) = type_char(&self.form.pattern, self.pattern_cursor_pos, c);
                        self.form.pattern = t;
                        self.pattern_cursor_pos = p;
                    },
                    FormField::Incognito | FormField::NewWindow | FormField::SaveButton
                    | FormField::CancelButton => {
                        if c == 'i' {
                            self.toggle_incognito();
                        } else if c == 'w' {
                            self.toggle_new_window();
                        }
                    },
                    _ => {},
                }
                PatternRequest::Nothing
            },
            Key::Backspace => {
                if at_pattern {
                    let (t, p) = backspace(&self.form.pattern, self.pattern_cursor_pos);
                    self.form.pattern = t;
                    self.pattern_cursor_pos = p;
                }
                PatternRequest::Nothing
            },
            Key::Delete => {
                if at_pattern {
                    let (t, p) = delete(&self.form.pattern, self.pattern_cursor_pos);
                    self.form.pattern = t;
                    self.pattern_cursor_pos = p;
                }
                PatternRequest::Nothing
            },
            Key::Other => PatternRequest::Nothing,
        }
    }

    /// Puts the patterns into the configuration (writing it to disk is the
    /// caller's part).
    pub fn save_to_config(&self, config: &mut Config)
        ensures
            final(config).url_patterns@ == self.patterns@,
            final(config).last_browser == old(config).last_browser,
            final(config).last_profile == old(config).last_profile,
            final(config).last_container == old(config).last_container,
            final(config).last_incognito == old(config).last_incognito,
            final(config).last_new_window == old(config).last_new_window,
    {
        config.url_patterns = clone_patterns(&self.patterns);
    }

    /// Reports that saving the patterns failed: the reason is shown and the
    /// pattern manager stays open.
    pub fn save_failed(&mut self, reason: String)
        ensures
            final(self)@ == (ManagerModel {
                error: Some("Failed to save: "@ + reason@),
                should_close: false,
                ..old(self)@
            }),
    {
        self.error = Some(concat("Failed to save: ", reason.as_str()));
        self.should_close = false;
    }

    /// Sets an error message
    pub fn set_error(&mut self, message: String)
        ensures
            final(self)@ == (ManagerModel { error: Some(message@), ..old(self)@ }),
    {
        self.error = Some(message);
    }

    /// Clears the error message
    pub fn clear_error(&mut self)
        ensures
            final(self)@ == (ManagerModel { error: None, ..old(self)@ }),
    {
        self.error = None;
    }

    /// Sets an info message
    pub fn set_info(&mut self, message: String)
        ensures
            final(self)@ == (ManagerModel { info: Some(message@), ..old(self)@ }),
    {
        self.info = Some(message);
    }

    /// Clears the info message
    pub fn clear_info(&mut self)
        ensures
            final(self)@ == (ManagerModel { info: None, ..old(self)@ }),
    {
        self.info = None;
    }
}


/// Law: moving to the next pattern and back (or back and then on) returns
/// to the selected one.
pub proof fn lemma_pattern_step_round_trip(m: ManagerModel)
    requires
        pm_wf(m),
        m.patterns.len() <= usize::MAX,
    ensures
        pattern_before(pattern_after(m)) == m,
        pattern_after(pattern_before(m)) == m,
{
    if m.patterns.len() > 0 {
        let n = m.patterns.len() as int;
        let s = m.selected_index as int;
        if s + 1 < n {
            assert((s + 1) % n == s + 1) by (nonlinear_arith)
                requires
                    0 <= s + 1 < n,
            ;
        } else {
            assert((s + 1) % n == 0) by (nonlinear_arith)
                requires
                    s + 1 == n,
                    n > 0,
            ;
        }
        let b = if s == 0 {
            n - 1
        } else {
            s - 1
        };
        if s == 0 {
            assert((b + 1) % n == 0) by (nonlinear_arith)
                requires
                    b + 1 == n,
                    n > 0,
            ;
        } else {
            assert((b + 1) % n == s) by (nonlinear_arith)
                requires
                    b + 1 == s,
                    0 < s < n,
            ;
        }
        assert(pattern_before(pattern_after(m)) == m);
        assert(pattern_after(pattern_before(m)) == m);
    }
}

/// Law: moving to the next field and back (or back and then on) returns to
/// the focused field, unless the container field was focused while hidden.
pub proof fn lemma_field_round_trip(m: ManagerModel)
    requires
        m.focused_field != FormField::Container || container_field_visible(m),
    ensures
        moved_to_previous_field(moved_to_next_field(m)).focused_field == m.focused_field,
        moved_to_next_field(moved_to_previous_field(m)).focused_field == m.focused_field,
{
    assert(container_field_visible(moved_to_next_field(m)) == container_field_visible(m));
    assert(container_field_visible(moved_to_previous_field(m)) == container_field_visible(m));
}

/// Law: saving the form changes the list of patterns only with a pattern
/// that is not blank, names a browser, and compiles; the list then grows by
/// that pattern (adding) or has it in place of the selected one (editing).
pub proof fn lemma_saved_patterns_compile(m: ManagerModel)
    ensures
        form_saved(m).patterns != m.patterns ==> {
            &&& trim(m.form.pattern).len() > 0
            &&& trim(m.form.browser).len() > 0
            &&& regex_new_error(m.form.pattern) is None
            &&& (m.mode == PatternManagerMode::Add ==> form_saved(m).patterns == m.patterns.push(
                form_pattern(m.form),
            ))
            &&& (m.mode == PatternManagerMode::Edit ==> form_saved(m).patterns
                == m.patterns.update(m.selected_index as int, form_pattern(m.form)))
        },
{
}

/// Law: a successful save stores the form's values field by field: the
/// pattern text, the browser, incognito and new window as they are, the
/// profile and the container as given or as none when blank. Adding puts the
/// pattern last and editing in place of the selected one; the other patterns
/// are kept.
pub proof fn lemma_save_stores_form(m: ManagerModel)
    requires
        trim(m.form.pattern).len() > 0,
        trim(m.form.browser).len() > 0,
        regex_new_error(m.form.pattern) is None,
        m.mode == PatternManagerMode::Add || (m.mode == PatternManagerMode::Edit
            && m.selected_index < m.patterns.len()),
    ensures
        ({
            let at: int = if m.mode == PatternManagerMode::Add {
                m.patterns.len() as int
            } else {
                m.selected_index as int
            };
            let saved = form_saved(m).patterns;
            let p = saved[at];
            &&& saved.len() == (if m.mode == PatternManagerMode::Add {
                m.patterns.len() + 1
            } else {
                m.patterns.len() + 0
            })
            &&& p.pattern == m.form.pattern
            &&& p.browser == m.form.browser
            &&& p.incognito == m.form.incognito
            &&& p.new_window == m.form.new_window
            &&& (trim(m.form.profile).len() == 0 ==> p.profile is None)
            &&& (trim(m.form.profile).len() > 0 ==> p.profile == Some(m.form.profile))
            &&& (trim(m.form.container).len() == 0 ==> p.container is None)
            &&& (trim(m.form.container).len() > 0 ==> p.container == Some(m.form.container))
            &&& forall|j: int| 0 <= j < m.patterns.len() && j != at ==> saved[j] == m.patterns[j]
        }),
        form_saved(m).mode == PatternManagerMode::List,
        form_saved(m).modified,
{
}

/// Law: deleting a pattern removes exactly the selected one and keeps the
/// selection in range.
pub proof fn lemma_delete_removes_selected(m: ManagerModel)
    requires
        pm_wf(m),
        m.patterns.len() > 0,
    ensures
        deleted(m).patterns == m.patterns.remove(m.selected_index as int),
        deleted(m).patterns.len() + 1 == m.patterns.len(),
        pm_wf(deleted(m)),
{
}

/// Law: in the open container dropdown, stepping forward and then back
/// returns to the selected container and the form's container.
pub proof fn lemma_form_container_round_trip(m: ManagerModel)
    requires
        pm_wf(m),
        m.dropdown_open == Some(FormField::Container),
        0 < m.containers.len() <= usize::MAX,
        m.form.container == m.containers[m.selected_container_index as int].name@,
    ensures
        form_previous_in_dropdown(form_next_in_dropdown(m).0).0 == m,
{
    let n = m.containers.len() as int;
    let s = m.selected_container_index as int;
    if s + 1 < n {
        assert((s + 1) % n == s + 1) by (nonlinear_arith)
            requires
                0 <= s + 1 < n,
        ;
    } else {
        assert((s + 1) % n == 0) by (nonlinear_arith)
            requires
                s + 1 == n,
                n > 0,
        ;
    }
    let m1 = form_next_in_dropdown(m).0;
    let m2 = form_previous_in_dropdown(m1).0;
    assert(m2.selected_container_index == m.selected_container_index);
    assert(m2.form == m.form);
    assert(m2 == m);
}

/// Law: in the pattern field of the form, typing a character and then
/// pressing Backspace leaves the pattern and its cursor as they were; only
/// the messages are cleared.
pub proof fn lemma_pattern_type_then_backspace(m: ManagerModel, c: char, ctrl: bool)
    requires
        pm_wf(m),
        m.mode != PatternManagerMode::List,
        m.focused_field == FormField::Pattern,
        m.pattern_cursor_pos + utf8(seq![c]).len() <= usize::MAX,
    ensures
        manager_key(
            manager_key(m, (KeyInput { code: Key::Char(c), ctrl })).0,
            (KeyInput { code: Key::Backspace, ctrl }),
        ) == (ManagerModel { error: None, info: None, ..m }, PatternRequestModel::Nothing),
{
    lemma_backspace_after_typing(m.form.pattern, m.pattern_cursor_pos, c);
}

/// Law: the pattern manager, opened on a configuration, lists exactly the
/// patterns last saved into it, in their order, in list mode with the first
/// one selected and nothing modified.
pub proof fn lemma_reopen_lists_saved(ps: Seq<UrlPattern>, bs: Seq<Browser>)
    ensures
        opened_with_browser(ps, bs).0.patterns == pattern_models(ps),
        opened_with_browser(ps, bs).0.mode == PatternManagerMode::List,
        opened_with_browser(ps, bs).0.selected_index == 0,
        !opened_with_browser(ps, bs).0.modified,
{
}

/// Law: while a dropdown of the form is open, Escape and Enter only close
/// it: the form, the mode, the focus and the patterns stay as they were.
pub proof fn lemma_dropdown_keys_close(m: ManagerModel, key: KeyInput)
    requires
        m.mode != PatternManagerMode::List,
        m.dropdown_open is Some,
        key.code == Key::Esc || key.code == Key::Enter,
    ensures
        manager_key(m, key) == (
            ManagerModel { dropdown_open: None, error: None, info: None, ..m },
            PatternRequestModel::Nothing,
        ),
{
}

/// Law: stepping forward in the open browser dropdown selects the next
/// browser, wrapping, makes it the form's browser and starts its profile
/// and container selections afresh; the pattern, the toggles and the open
/// dropdown stay.
pub proof fn lemma_browser_step(m: ManagerModel)
    requires
        m.dropdown_open == Some(FormField::Browser),
        0 < m.browsers.len() <= usize::MAX,
        m.selected_browser_index < m.browsers.len(),
    ensures
        ({
            let r = form_next_in_dropdown(m).0;
            let i = ((m.selected_browser_index + 1) % (m.browsers.len() as int)) as usize;
            &&& r.selected_browser_index == i
            &&& r.form.browser == m.browsers[i as int].name@
            &&& r.selected_profile_index == 0
            &&& r.selected_container_index == 0
            &&& r.form.pattern == m.form.pattern
            &&& r.form.incognito == m.form.incognito
            &&& r.form.new_window == m.form.new_window
            &&& r.dropdown_open == m.dropdown_open
            &&& r.patterns == m.patterns
        }),
{
}

/// Moving to browser `i` in the open browser dropdown selects it, makes it the
/// form's browser and keeps the browsers and the open dropdown.
proof fn lemma_browser_moved(m: ManagerModel, i: usize)
    requires
        m.dropdown_open == Some(FormField::Browser),
        i < m.browsers.len(),
    ensures
        dropdown_moved(m, i).0.selected_browser_index == i,
        dropdown_moved(m, i).0.form.browser == m.browsers[i as int].name@,
        dropdown_moved(m, i).0.dropdown_open == m.dropdown_open,
        dropdown_moved(m, i).0.browsers == m.browsers,
{
}

/// Law: in the form's open browser dropdown, stepping back selects the
/// browser before the selected one, wrapping from the first to the last;
/// stepping forward and then back, or back and then forward, returns to the
/// selected browser and makes it the form's browser again.
pub proof fn lemma_form_browser_round_trip(m: ManagerModel)
    requires
        m.dropdown_open == Some(FormField::Browser),
        0 < m.browsers.len() <= usize::MAX,
        m.selected_browser_index < m.browsers.len(),
    ensures
        form_previous_in_dropdown(m).0.selected_browser_index + 1 == (
        if m.selected_browser_index == 0 {
            m.browsers.len() as int
        } else {
            m.selected_browser_index as int
        }),
        form_previous_in_dropdown(m).0.dropdown_open == m.dropdown_open,
        form_previous_in_dropdown(m).0.browsers == m.browsers,
        form_previous_in_dropdown(form_next_in_dropdown(m).0).0.selected_browser_index
            == m.selected_browser_index,
        form_next_in_dropdown(form_previous_in_dropdown(m).0).0.selected_browser_index
            == m.selected_browser_index,
        form_previous_in_dropdown(form_next_in_dropdown(m).0).0.form.browser
            == m.browsers[m.selected_browser_index as int].name@,
        form_next_in_dropdown(form_previous_in_dropdown(m).0).0.form.browser
            == m.browsers[m.selected_browser_index as int].name@,
{
    let s = m.selected_browser_index as int;
    let n = m.browsers.len() as int;
    if s + 1 < n {
        assert((s + 1) % n == s + 1) by (nonlinear_arith)
            requires
                0 <= s + 1 < n,
        ;
    } else {
        assert((s + 1) % n == 0) by (nonlinear_arith)
            requires
                s + 1 == n,
                n > 0,
        ;
    }
    let fwd: usize = ((s + 1) % n) as usize;
    let back: usize = (if s == 0 { n - 1 } else { s - 1 }) as usize;
    if s == 0 {
        assert((back + 1) % n == 0) by (nonlinear_arith)
            requires
                back + 1 == n,
                n > 0,
        ;
    } else {
        assert((back + 1) % n == s) by (nonlinear_arith)
            requires
                back + 1 == s,
                0 < s < n,
        ;
    }
    lemma_browser_moved(m, fwd);
    let m1 = form_next_in_dropdown(m).0;
    assert(m1 == dropdown_moved(m, fwd).0);
    lemma_browser_moved(m1, back_of(fwd, m.browsers.len()));
    assert(form_previous_in_dropdown(m1).0 == dropdown_moved(m1, back_of(fwd, m.browsers.len())).0);
    lemma_browser_moved(m, back);
    let m2 = form_previous_in_dropdown(m).0;
    assert(m2 == dropdown_moved(m, back).0);
    let fwd2: usize = ((back + 1) % n) as usize;
    lemma_browser_moved(m2, fwd2);
    assert(form_next_in_dropdown(m2).0 == dropdown_moved(m2, fwd2).0);
}

/// The entry before `i` in a list of `n`, wrapping to the last.
spec fn back_of(i: usize, n: nat) -> usize {
    if i == 0 {
        (n - 1) as usize
    } else {
        (i - 1) as usize
    }
}

/// Law: while an edit is starting, each step that completes leaves the form
/// with the pattern's profile and container and the rest of the form as it
/// was.
pub proof fn lemma_edit_steps_keep_choices(m: ManagerModel, cs: Seq<Container>)
    requires
        m.selected_index < m.patterns.len(),
    ensures
        edit_select_profile(m).0.mode == m.mode,
        edit_select_profile(m).1 == PatternRequestModel::Nothing ==> edit_select_profile(m).0.form
            == (FormModel {
            profile: edit_wanted(m).0,
            container: edit_wanted(m).1,
            ..m.form
        }),
        form_containers_got(m, AfterFormContainers::EditSelectContainer, cs).0.form == (FormModel {
            container: edit_wanted(m).1,
            ..m.form
        }),
{
    let w = edit_wanted(m);
    let m0 = ManagerModel { form: FormModel { profile: w.0, container: w.1, ..m.form }, ..m };
    match first_index(profile_names(m.profiles), w.0) {
        Some(i) => {
            let m1 = ManagerModel { selected_profile_index: i as usize, ..m0 };
            let m2 = ManagerModel {
                containers: seq![],
                form: FormModel { container: seq![], ..m1.form },
                selected_container_index: 0,
                ..m1
            };
            assert(edit_wanted(m2) == w);
        },
        None => {},
    }
    let m3 = ManagerModel { containers: cs, ..m };
    if cs.len() > 0 {
        let m4 = ManagerModel { form: FormModel { container: cs[0].name@, ..m3.form }, ..m3 };
        assert(edit_wanted(m4).1 == edit_wanted(m).1);
    } else {
        assert(edit_wanted(m3).1 == edit_wanted(m).1);
    }
}

/// Law: starting an edit, when it needs nothing found on disk, fills the
/// form with the selected pattern, its profile and container included.
pub proof fn lemma_edit_keeps_pattern(m: ManagerModel)
    requires
        pm_wf(m),
        m.patterns.len() > 0,
    ensures
        edit_started(m).1 == PatternRequestModel::Nothing ==> edit_started(m).0.form == form_of(
            m.patterns[m.selected_index as int],
        ),
        edit_started(m).0.mode == PatternManagerMode::Edit,
{
    let p = m.patterns[m.selected_index as int];
    let k = AfterProfiles::EditSelectProfile;
    let m2 = ManagerModel {
        mode: PatternManagerMode::Edit,
        form: form_of(p),
        pattern_cursor_pos: utf8(p.pattern).len() as usize,
        ..m
    };
    assert(edit_started(m) == profiles_update(m2, k));
    let m1 = ManagerModel {
        profiles: seq![],
        containers: seq![],
        form: FormModel { profile: seq![], container: seq![], ..m2.form },
        selected_profile_index: 0,
        selected_container_index: 0,
        ..m2
    };
    assert(edit_wanted(m1) == (form_of(p).profile, form_of(p).container));
    match first_index(browser_names(m2.browsers), m2.form.browser) {
        None => {
            assert(profiles_update(m2, k) == profiles_done(m1, k));
            lemma_edit_steps_keep_choices(m1, seq![]);
        },
        Some(i) => {
            let bin = binary_of(m2.browsers, i);
            if family_of(bin) == BrowserFamily::Other {
                let ps = default_profiles();
                assert(profiles_update(m2, k) == profiles_got(m1, k, ps));
                let m3 = ManagerModel { profiles: ps, ..m1 };
                let m4 = ManagerModel { form: FormModel { profile: ps[0].0, ..m3.form }, ..m3 };
                let m5 = ManagerModel {
                    containers: seq![],
                    form: FormModel { container: seq![], ..m4.form },
                    selected_container_index: 0,
                    ..m4
                };
                assert(!firefox_based(bin));
                assert(profiles_got(m1, k, ps) == form_containers_update(
                    m4,
                    AfterFormContainers::FinishProfiles(k),
                ));
                assert(form_containers_update(m4, AfterFormContainers::FinishProfiles(k))
                    == edit_select_profile(m5));
                assert(edit_wanted(m5) == edit_wanted(m1));
                lemma_edit_steps_keep_choices(m5, seq![]);
                assert(m5.form.pattern == form_of(p).pattern);
            }
        },
    }
}

/// The form and the selection of an edit in progress are those of starting
/// to edit `p` in `m`, but for the profile and container of the form.
pub open spec fn edit_base(z: ManagerModel, m: ManagerModel) -> bool {
    let p = m.patterns[m.selected_index as int];
    &&& z.patterns == m.patterns
    &&& z.selected_index == m.selected_index
    &&& z.mode == PatternManagerMode::Edit
    &&& z.pattern_cursor_pos == utf8(p.pattern).len() as usize
    &&& z.form.pattern == form_of(p).pattern
    &&& z.form.browser == form_of(p).browser
    &&& z.form.incognito == form_of(p).incognito
    &&& z.form.new_window == form_of(p).new_window
}

/// The manager after starting to edit the selected pattern, when the
/// profiles asked for are `ps` and the containers asked for are `cs1`, then
/// `cs2`.
pub open spec fn edit_settled(m: ManagerModel, ps: Seq<(Seq<char>, PathBuf, bool)>, cs1: Seq<Container>, cs2: Seq<Container>) -> ManagerModel {
    let (m1, r1) = edit_started(m);
    let (m2, r2) = match r1 {
        PatternRequestModel::Profiles(_, _, k) => profiles_got(m1, k, ps),
        _ => (m1, r1),
    };
    let (m3, r3) = match r2 {
        PatternRequestModel::Containers(_, k) => form_containers_got(m2, k, cs1),
        _ => (m2, r2),
    };
    match r3 {
        PatternRequestModel::Containers(_, k) => form_containers_got(m3, k, cs2).0,
        _ => m3,
    }
}

/// The manager once the pattern's profile is selected and the containers
/// it may ask for (`cs`) are received.
pub open spec fn select_settled(z: ManagerModel, cs: Seq<Container>) -> ManagerModel {
    let (y, r) = edit_select_profile(z);
    match r {
        PatternRequestModel::Containers(_, k) => form_containers_got(y, k, cs).0,
        _ => y,
    }
}

proof fn lemma_select_settled(z: ManagerModel, m: ManagerModel, cs: Seq<Container>)
    requires
        m.selected_index < m.patterns.len(),
        edit_base(z, m),
    ensures
        edit_base(select_settled(z, cs), m),
        select_settled(z, cs).form == form_of(m.patterns[m.selected_index as int]),
{
    let p = m.patterns[m.selected_index as int];
    let w = edit_wanted(z);
    assert(w == (form_of(p).profile, form_of(p).container));
    let m0 = ManagerModel { form: FormModel { profile: w.0, container: w.1, ..z.form }, ..z };
    let kc = AfterFormContainers::EditSelectContainer;
    match first_index(profile_names(z.profiles), w.0) {
        Some(i) => {
            let m1 = ManagerModel { selected_profile_index: i as usize, ..m0 };
            let m2 = ManagerModel {
                containers: seq![],
                form: FormModel { container: seq![], ..m1.form },
                selected_container_index: 0,
                ..m1
            };
            assert(edit_wanted(m2) == w);
            assert(edit_select_profile(z) == form_containers_update(m1, kc));
            match first_index(browser_names(m1.browsers), m1.form.browser) {
                None => {
                    assert(form_containers_update(m1, kc) == (edit_select_container(m2), PatternRequestModel::Nothing));
                },
                Some(b) => {
                    if !firefox_based(binary_of(m1.browsers, b)) {
                        assert(form_containers_update(m1, kc) == (edit_select_container(m2), PatternRequestModel::Nothing));
                    } else {
                        match first_index(profile_names(m1.profiles), m1.form.profile) {
                            None => {
                                assert(form_containers_update(m1, kc) == (edit_select_container(m2), PatternRequestModel::Nothing));
                            },
                            Some(j) => {
                                assert(form_containers_update(m1, kc) == (m2, PatternRequestModel::Containers(j as usize, kc)));
                                let m3 = ManagerModel { containers: cs, ..m2 };
                                if cs.len() > 0 {
                                    let m4 = ManagerModel { form: FormModel { container: cs[0].name@, ..m3.form }, ..m3 };
                                    assert(edit_wanted(m4) == w);
                                } else {
                                    assert(edit_wanted(m3) == w);
                                }
                            },
                        }
                    }
                },
            }
        },
        None => {},
    }
}

/// Law: once an edit is started and every request answered, whatever
/// profiles and containers were found, the manager is in edit mode with the
/// form filled from the selected pattern, its profile and container
/// included, and the cursor at the end of the pattern.
#[verifier::spinoff_prover]
#[verifier::rlimit(100)]
pub proof fn lemma_edit_settled(
    m: ManagerModel,
    ps: Seq<(Seq<char>, PathBuf, bool)>,
    cs1: Seq<Container>,
    cs2: Seq<Container>,
)
    requires
        pm_wf(m),
        m.patterns.len() > 0,
    ensures
        edit_settled(m, ps, cs1, cs2).mode == PatternManagerMode::Edit,
        edit_settled(m, ps, cs1, cs2).form == form_of(m.patterns[m.selected_index as int]),
        edit_settled(m, ps, cs1, cs2).pattern_cursor_pos == utf8(
            m.patterns[m.selected_index as int].pattern,
        ).len() as usize,
{
    let p = m.patterns[m.selected_index as int];
    let k = AfterProfiles::EditSelectProfile;
    let m2 = ManagerModel {
        mode: PatternManagerMode::Edit,
        form: form_of(p),
        pattern_cursor_pos: utf8(p.pattern).len() as usize,
        ..m
    };
    assert(edit_started(m) == profiles_update(m2, k));
    let m1 = ManagerModel {
        profiles: seq![],
        containers: seq![],
        form: FormModel { profile: seq![], container: seq![], ..m2.form },
        selected_profile_index: 0,
        selected_container_index: 0,
        ..m2
    };
    assert(edit_base(m1, m));
    match first_index(browser_names(m2.browsers), m2.form.browser) {
        None => {
            assert(profiles_update(m2, k) == edit_select_profile(m1));
            lemma_select_settled(m1, m, cs1);
            assert(edit_settled(m, ps, cs1, cs2) == select_settled(m1, cs1));
        },
        Some(i) => {
            let bin = binary_of(m2.browsers, i);
            let fam = family_of(bin);
            if fam == BrowserFamily::Other {
                let dps = default_profiles();
                let m3 = ManagerModel { profiles: dps, ..m1 };
                let m4 = ManagerModel { form: FormModel { profile: dps[0].0, ..m3.form }, ..m3 };
                let m5 = ManagerModel {
                    containers: seq![],
                    form: FormModel { container: seq![], ..m4.form },
                    selected_container_index: 0,
                    ..m4
                };
                assert(!firefox_based(bin));
                assert(profiles_update(m2, k) == edit_select_profile(m5));
                assert(edit_base(m5, m));
                lemma_select_settled(m5, m, cs1);
                assert(edit_settled(m, ps, cs1, cs2) == select_settled(m5, cs1));
            } else {
                assert(profiles_update(m2, k) == (m1, PatternRequestModel::Profiles(fam, bin, k)));
                let m3 = ManagerModel { profiles: ps, ..m1 };
                if ps.len() > 0 {
                    let m4 = ManagerModel { form: FormModel { profile: ps[0].0, ..m3.form }, ..m3 };
                    let kf = AfterFormContainers::FinishProfiles(k);
                    assert(profiles_got(m1, k, ps) == form_containers_update(m4, kf));
                    let m5 = ManagerModel {
                        containers: seq![],
                        form: FormModel { container: seq![], ..m4.form },
                        selected_container_index: 0,
                        ..m4
                    };
                    assert(edit_base(m5, m));
                    if firefox_based(bin) && first_index(profile_names(m4.profiles), m4.form.profile) is Some {
                        let j = first_index(profile_names(m4.profiles), m4.form.profile)->0;
                        assert(form_containers_update(m4, kf) == (m5, PatternRequestModel::Containers(j as usize, kf)));
                        let m6 = ManagerModel { containers: cs1, ..m5 };
                        let m7 = if cs1.len() > 0 {
                            ManagerModel { form: FormModel { container: cs1[0].name@, ..m6.form }, ..m6 }
                        } else {
                            m6
                        };
                        assert(form_containers_got(m5, kf, cs1) == edit_select_profile(m7));
                        assert(edit_base(m7, m));
                        lemma_select_settled(m7, m, cs2);
                        assert(edit_settled(m, ps, cs1, cs2) == select_settled(m7, cs2));
                    } else {
                        assert(form_containers_update(m4, kf) == edit_select_profile(m5));
                        lemma_select_settled(m5, m, cs1);
                        assert(edit_settled(m, ps, cs1, cs2) == select_settled(m5, cs1));
                    }
                } else {
                    assert(profiles_got(m1, k, ps) == edit_select_profile(m3));
                    assert(edit_base(m3, m));
                    lemma_select_settled(m3, m, cs1);
                    assert(edit_settled(m, ps, cs1, cs2) == select_settled(m3, cs1));
                }
            }
        },
    }
}

} // verus!
