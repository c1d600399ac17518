//! What the two screens show: the title, tone and text of each panel, the
//! entries of each list and how each is marked, the messages and the list
//! drawn over the screen. Drawing these is left to the terminal front end.
use vstd::prelude::*;
use crate::app::{
    App, AppModel, Focus, browser_names, container_names, container_row_visible, profile_names, wf,
};
use crate::browser::Browser;
use crate::pattern_manager::{
    FormField, ManagerModel, PatternManager, PatternManagerMode, PatternModel,
    container_field_visible, pm_wf,
};
use crate::profile::{
    Container, Profile,is_firefox_based, profile_views};
use crate::text::{
    after_byte, before_byte, center, decimal_string, split_at_byte,
    centered, concat, decimal, opt_view, owned, string_views,
};
use crate::url_pattern::UrlPattern;

verus! {

/// How a panel is drawn: plain, focused, or focused with its dropdown open.
#[derive(Debug, Clone, Copy, PartialEq, Eq, Structural)]
pub enum Tone {
    Plain,
    Focused,
    Open,
}

/// How an entry of a list is drawn: plain, as the current choice of the
/// form, or highlighted as the entry under the cursor.
#[derive(Debug, Clone, Copy, PartialEq, Eq, Structural)]
pub enum Mark {
    Plain,
    Chosen,
    Highlighted,
}

/// A bordered panel of text.
pub struct TextPanel {
    pub title: String,
    pub tone: Tone,
    pub text: String,
}

/// A bordered list, with the entry its cursor is on.
pub struct ListPanel {
    pub title: String,
    pub tone: Tone,
    pub items: Vec<String>,
    pub marks: Vec<Mark>,
    pub selected: Option<usize>,
}

/// A list drawn over the screen, with the entry its cursor is on.
pub struct Overlay {
    pub title: String,
    pub items: Vec<String>,
    pub selected: usize,
}

/// What the launcher screen shows.
pub struct MainScreen {
    pub url: TextPanel,
    pub browser: ListPanel,
    pub profile: ListPanel,
    /// Present when the container row is visible.
    pub container: Option<ListPanel>,
    pub options: TextPanel,
    pub actions: TextPanel,
    pub error: Option<String>,
    pub info: Option<String>,
    pub dropdown: Option<Overlay>,
}

/// A text panel, as a value.
pub struct TextModel {
    pub title: Seq<char>,
    pub tone: Tone,
    pub text: Seq<char>,
}

/// A list panel, as a value.
pub struct ListModel {
    pub title: Seq<char>,
    pub tone: Tone,
    pub items: Seq<Seq<char>>,
    pub marks: Seq<Mark>,
    pub selected: Option<usize>,
}

/// An overlay, as a value.
pub struct OverlayModel {
    pub title: Seq<char>,
    pub items: Seq<Seq<char>>,
    pub selected: usize,
}

/// The launcher screen, as a value.
pub struct MainScreenModel {
    pub url: TextModel,
    pub browser: ListModel,
    pub profile: ListModel,
    pub container: Option<ListModel>,
    pub options: TextModel,
    pub actions: TextModel,
    pub error: Option<Seq<char>>,
    pub info: Option<Seq<char>>,
    pub dropdown: Option<OverlayModel>,
}

impl View for TextPanel {
    type V = TextModel;

    open spec fn view(&self) -> TextModel {
        TextModel { title: self.title@, tone: self.tone, text: self.text@ }
    }
}

impl View for ListPanel {
    type V = ListModel;

    open spec fn view(&self) -> ListModel {
        ListModel {
            title: self.title@,
            tone: self.tone,
            items: string_views(self.items@),
            marks: self.marks@,
            selected: self.selected,
        }
    }
}

impl View for Overlay {
    type V = OverlayModel;

    open spec fn view(&self) -> OverlayModel {
        OverlayModel { title: self.title@, items: string_views(self.items@), selected: self.selected }
    }
}

/// The value of an optional list panel.
pub open spec fn opt_list(o: Option<ListPanel>) -> Option<ListModel> {
    match o {
        Some(l) => Some(l@),
        None => None,
    }
}

/// The value of an optional overlay.
pub open spec fn opt_overlay(o: Option<Overlay>) -> Option<OverlayModel> {
    match o {
        Some(l) => Some(l@),
        None => None,
    }
}

impl View for MainScreen {
    type V = MainScreenModel;

    open spec fn view(&self) -> MainScreenModel {
        MainScreenModel {
            url: self.url@,
            browser: self.browser@,
            profile: self.profile@,
            container: opt_list(self.container),
            options: self.options@,
            actions: self.actions@,
            error: opt_view(self.error),
            info: opt_view(self.info),
            dropdown: opt_overlay(self.dropdown),
        }
    }
}

/// Focused or plain.
pub open spec fn focus_tone(focused: bool) -> Tone {
    if focused {
        Tone::Focused
    } else {
        Tone::Plain
    }
}

/// Every entry plain.
pub open spec fn plain_marks(n: nat) -> Seq<Mark> {
    Seq::new(n, |i: int| Mark::Plain)
}

/// A check box.
pub open spec fn check_box(on: bool) -> Seq<char> {
    if on {
        "[X]"@
    } else {
        "[ ]"@
    }
}

/// The line of the two toggles, each with its box and, when focused, its
/// name, else its shortcut key.
pub open spec fn toggles_line(incognito: bool, incognito_focused: bool, new_window: bool, new_window_focused: bool) -> Seq<char> {
    check_box(incognito) + (if incognito_focused {
        " INC"@
    } else {
        " [i]"@
    }) + " Incognito/Private     "@ + check_box(new_window) + (if new_window_focused {
        " WIN"@
    } else {
        " [w]"@
    }) + " New Window"@
}

/// The title of a list panel of the launcher screen.
pub open spec fn list_title(focused: bool, name: Seq<char>) -> Seq<char> {
    if focused {
        "[ ENTER to select ]"@
    } else {
        name
    }
}

/// The URL panel: when focused, the URL with `_` at its cursor.
pub open spec fn url_panel(m: AppModel) -> TextModel {
    let focused = m.focus == Focus::Url;
    let pos = m.url_cursor_pos as int;
    TextModel {
        title: if focused {
            "[ TYPE to enter URL ]"@
        } else {
            "URL"@
        },
        tone: focus_tone(focused),
        text: if focused {
            "> "@ + before_byte(m.url, pos) + "_ "@ + after_byte(m.url, pos)
        } else {
            m.url
        },
    }
}

/// A list panel of the launcher screen.
pub open spec fn main_list(focused: bool, name: Seq<char>, items: Seq<Seq<char>>, selected: Option<usize>) -> ListModel {
    ListModel {
        title: list_title(focused, name),
        tone: focus_tone(focused),
        items,
        marks: plain_marks(items.len()),
        selected,
    }
}

/// The three buttons of the launcher screen, each centred in 15 columns.
pub open spec fn main_actions_line(f: Focus) -> Seq<char> {
    centered(
        if f == Focus::OpenButton {
            "[ ENTER ] Open"@
        } else {
            "[o] Open"@
        },
        15,
    ) + "   "@ + centered(
        if f == Focus::CopyButton {
            "[ ENTER ] Copy"@
        } else {
            "[c] Copy"@
        },
        15,
    ) + "   "@ + centered(
        if f == Focus::QuitButton {
            "[ ESC ] Quit"@
        } else {
            "[q] Quit"@
        },
        15,
    )
}

/// The list over the launcher screen while a dropdown is open and has
/// entries.
pub open spec fn main_overlay(m: AppModel) -> Option<OverlayModel> {
    let (items, selected, title) = match m.dropdown_open {
        Some(Focus::Browser) => (browser_names(m.browsers), m.selected_browser, "Browser"@),
        Some(Focus::Profile) => (profile_names(m.profiles), m.selected_profile, "Profile"@),
        Some(Focus::Container) => (
            container_names(m.containers),
            match m.selected_container {
                Some(s) => s,
                None => 0,
            },
            "Container"@,
        ),
        _ => (seq![], 0, seq![]),
    };
    if items.len() > 0 {
        Some(OverlayModel { title, items, selected })
    } else {
        None
    }
}

/// What the launcher screen shows for a state.
pub open spec fn main_screen_model(m: AppModel) -> MainScreenModel {
    let f = m.focus;
    MainScreenModel {
        url: url_panel(m),
        browser: main_list(
            f == Focus::Browser,
            "Browser"@,
            browser_names(m.browsers),
            Some(m.selected_browser),
        ),
        profile: main_list(
            f == Focus::Profile,
            "Profile"@,
            profile_names(m.profiles),
            Some(m.selected_profile),
        ),
        container: if container_row_visible(m) {
            Some(
                main_list(
                    f == Focus::Container,
                    "Container"@,
                    container_names(m.containers),
                    m.selected_container,
                ),
            )
        } else {
            None
        },
        options: TextModel {
            title: "Options"@,
            tone: focus_tone(f == Focus::IncognitoToggle || f == Focus::NewWindowToggle),
            text: toggles_line(
                m.incognito,
                f == Focus::IncognitoToggle,
                m.new_window,
                f == Focus::NewWindowToggle,
            ),
        },
        actions: TextModel {
            title: "Actions"@,
            tone: focus_tone(
                f == Focus::OpenButton || f == Focus::CopyButton || f == Focus::QuitButton,
            ),
            text: main_actions_line(f),
        },
        error: m.error,
        info: m.info,
        dropdown: main_overlay(m),
    }
}

/// The names of the browsers.
pub fn browser_name_list(bs: &Vec<Browser>) -> (r: Vec<String>)
    ensures
        string_views(r@) == browser_names(bs@),
{
    let mut out: Vec<String> = Vec::new();
    let mut i: usize = 0;
    while i < bs.len()
        invariant
            i <= bs.len(),
            out.len() == i,
            forall|j: int| 0 <= j < i ==> #[trigger] out@[j]@ == bs@[j].name@,
        decreases bs.len() - i,
    {
        out.push(bs[i].name.clone());
        i += 1;
    }
    assert(string_views(out@) =~= browser_names(bs@));
    out
}

/// The names of the profiles.
pub fn profile_name_list(ps: &Vec<Profile>) -> (r: Vec<String>)
    ensures
        string_views(r@) == profile_names(profile_views(ps@)),
{
    let mut out: Vec<String> = Vec::new();
    let mut i: usize = 0;
    while i < ps.len()
        invariant
            i <= ps.len(),
            out.len() == i,
            forall|j: int| 0 <= j < i ==> #[trigger] out@[j]@ == ps@[j].name@,
        decreases ps.len() - i,
    {
        out.push(ps[i].name.clone());
        i += 1;
    }
    assert(string_views(out@) =~= profile_names(profile_views(ps@)));
    out
}

/// The names of the containers.
pub fn container_name_list(cs: &Vec<Container>) -> (r: Vec<String>)
    ensures
        string_views(r@) == container_names(cs@),
{
    let mut out: Vec<String> = Vec::new();
    let mut i: usize = 0;
    while i < cs.len()
        invariant
            i <= cs.len(),
            out.len() == i,
            forall|j: int| 0 <= j < i ==> #[trigger] out@[j]@ == cs@[j].name@,
        decreases cs.len() - i,
    {
        out.push(cs[i].name.clone());
        i += 1;
    }
    assert(string_views(out@) =~= container_names(cs@));
    out
}

fn plain_mark_list(n: usize) -> (r: Vec<Mark>)
    ensures
        r@ == plain_marks(n as nat),
{
    let mut out: Vec<Mark> = Vec::new();
    let mut i: usize = 0;
    while i < n
        invariant
            i <= n,
            out@ == plain_marks(i as nat),
        decreases n - i,
    {
        out.push(Mark::Plain);
        assert(out@ =~= plain_marks((i + 1) as nat));
        i += 1;
    }
    out
}

fn tone_of(focused: bool) -> (t: Tone)
    ensures
        t == focus_tone(focused),
{
    if focused {
        Tone::Focused
    } else {
        Tone::Plain
    }
}

fn check_box_text(on: bool) -> (r: &'static str)
    ensures
        r@ == check_box(on),
{
    if on {
        "[X]"
    } else {
        "[ ]"
    }
}

/// The line of the two toggles.
pub fn toggles_text(incognito: bool, incognito_focused: bool, new_window: bool, new_window_focused: bool) -> (r: String)
    ensures
        r@ == toggles_line(incognito, incognito_focused, new_window, new_window_focused),
{
    let inc_key = if incognito_focused {
        " INC"
    } else {
        " [i]"
    };
    let win_key = if new_window_focused {
        " WIN"
    } else {
        " [w]"
    };
    let a = concat(check_box_text(incognito), inc_key);
    let b = concat(a.as_str(), " Incognito/Private     ");
    let c = concat(b.as_str(), check_box_text(new_window));
    let d = concat(c.as_str(), win_key);
    concat(d.as_str(), " New Window")
}

fn main_list_panel(focused: bool, name: &str, items: Vec<String>, selected: Option<usize>) -> (r: ListPanel)
    ensures
        r@ == main_list(focused, name@, string_views(items@), selected),
{
    let title = if focused {
        owned("[ ENTER to select ]")
    } else {
        owned(name)
    };
    let marks = plain_mark_list(items.len());
    ListPanel { title, tone: tone_of(focused), items, marks, selected }
}

fn main_actions_text(f: Focus) -> (r: String)
    ensures
        r@ == main_actions_line(f),
{
    let open = if f == Focus::OpenButton {
        "[ ENTER ] Open"
    } else {
        "[o] Open"
    };
    let copy = if f == Focus::CopyButton {
        "[ ENTER ] Copy"
    } else {
        "[c] Copy"
    };
    let quit = if f == Focus::QuitButton {
        "[ ESC ] Quit"
    } else {
        "[q] Quit"
    };
    let a = concat(center(open, 15).as_str(), "   ");
    let b = concat(a.as_str(), center(copy, 15).as_str());
    let c = concat(b.as_str(), "   ");
    concat(c.as_str(), center(quit, 15).as_str())
}

fn main_overlay_of(app: &App) -> (r: Option<Overlay>)
    requires
        wf(app@),
    ensures
        opt_overlay(r) == main_overlay(app@),
{
    let (items, selected, title) = match app.dropdown_open {
        Some(Focus::Browser) => (browser_name_list(&app.browsers), app.selected_browser, "Browser"),
        Some(Focus::Profile) => (profile_name_list(&app.profiles), app.selected_profile, "Profile"),
        Some(Focus::Container) => (
            container_name_list(&app.containers),
            match app.selected_container {
                Some(s) => s,
                None => 0,
            },
            "Container",
        ),
        _ => (Vec::new(), 0, ""),
    };
    proof {
        reveal_strlit("");
    }
    if items.len() > 0 {
        Some(Overlay { title: owned(title), items, selected })
    } else {
        None
    }
}

/// What the launcher screen shows. The URL is cut at its cursor, which must
/// then lie on a character boundary.
pub fn main_screen(app: &App) -> (r: MainScreen)
    requires
        wf(app@),
    ensures
        r@ == main_screen_model(app@),
{
    let f = app.focus;
    let url_focused = f == Focus::Url;
    let url = if url_focused {
        let (before, after) = split_at_byte(app.url.as_str(), app.url_cursor_pos);
        let a = concat("> ", before.as_str());
        let b = concat(a.as_str(), "_ ");
        TextPanel {
            title: owned("[ TYPE to enter URL ]"),
            tone: Tone::Focused,
            text: concat(b.as_str(), after.as_str()),
        }
    } else {
        TextPanel { title: owned("URL"), tone: Tone::Plain, text: app.url.clone() }
    };
    let browser = main_list_panel(
        f == Focus::Browser,
        "Browser",
        browser_name_list(&app.browsers),
        Some(app.selected_browser),
    );
    let profile = main_list_panel(
        f == Focus::Profile,
        "Profile",
        profile_name_list(&app.profiles),
        Some(app.selected_profile),
    );
    let visible = app.browsers.len() > 0 && is_firefox_based(app.selected_binary_name().as_str())
        && app.containers.len() > 0;
    let container = if visible {
        Some(
            main_list_panel(
                f == Focus::Container,
                "Container",
                container_name_list(&app.containers),
                app.selected_container,
            ),
        )
    } else {
        None
    };
    let options = TextPanel {
        title: owned("Options"),
        tone: tone_of(f == Focus::IncognitoToggle || f == Focus::NewWindowToggle),
        text: toggles_text(
            app.incognito,
            f == Focus::IncognitoToggle,
            app.new_window,
            f == Focus::NewWindowToggle,
        ),
    };
    let actions = TextPanel {
        title: owned("Actions"),
        tone: tone_of(f == Focus::OpenButton || f == Focus::CopyButton || f == Focus::QuitButton),
        text: main_actions_text(f),
    };
    MainScreen {
        url,
        browser,
        profile,
        container,
        options,
        actions,
        error: app.error.clone(),
        info: app.info.clone(),
        dropdown: main_overlay_of(app),
    }
}

/// The body of the pattern manager: the hint when there are no patterns,
/// the list of patterns, or the form.
pub enum ManagerBody {
    Empty(String),
    List(ListPanel),
    Form(FormScreen),
}

/// What the form shows.
pub struct FormScreen {
    pub pattern: TextPanel,
    pub browser: ListPanel,
    pub profile: ListPanel,
    /// Present when the container field is visible.
    pub container: Option<ListPanel>,
    pub options: TextPanel,
    pub actions: TextPanel,
}

/// What the pattern manager shows.
pub struct ManagerScreen {
    pub title: String,
    pub body: ManagerBody,
    pub help: String,
    pub error: Option<String>,
    pub info: Option<String>,
    pub dropdown: Option<Overlay>,
}

/// The form, as a value.
pub struct FormScreenModel {
    pub pattern: TextModel,
    pub browser: ListModel,
    pub profile: ListModel,
    pub container: Option<ListModel>,
    pub options: TextModel,
    pub actions: TextModel,
}

/// The body of the pattern manager, as a value.
pub enum BodyModel {
    Empty(Seq<char>),
    List(ListModel),
    Form(FormScreenModel),
}

/// The pattern manager, as a value.
pub struct ManagerScreenModel {
    pub title: Seq<char>,
    pub body: BodyModel,
    pub help: Seq<char>,
    pub error: Option<Seq<char>>,
    pub info: Option<Seq<char>>,
    pub dropdown: Option<OverlayModel>,
}

impl View for FormScreen {
    type V = FormScreenModel;

    open spec fn view(&self) -> FormScreenModel {
        FormScreenModel {
            pattern: self.pattern@,
            browser: self.browser@,
            profile: self.profile@,
            container: opt_list(self.container),
            options: self.options@,
            actions: self.actions@,
        }
    }
}

impl View for ManagerBody {
    type V = BodyModel;

    open spec fn view(&self) -> BodyModel {
        match self {
            ManagerBody::Empty(t) => BodyModel::Empty(t@),
            ManagerBody::List(l) => BodyModel::List(l@),
            ManagerBody::Form(f) => BodyModel::Form(f@),
        }
    }
}

impl View for ManagerScreen {
    type V = ManagerScreenModel;

    open spec fn view(&self) -> ManagerScreenModel {
        ManagerScreenModel {
            title: self.title@,
            body: self.body@,
            help: self.help@,
            error: opt_view(self.error),
            info: opt_view(self.info),
            dropdown: opt_overlay(self.dropdown),
        }
    }
}

/// The line that shows a pattern in the list: the regex, the profile after
/// `@` when there is one, the browser, and the options chosen.
pub open spec fn pattern_line(p: PatternModel) -> Seq<char> {
    p.pattern + " "@ + (match p.profile {
        Some(n) => "@ "@ + n,
        None => seq![],
    }) + " | "@ + p.browser + " |"@ + (if p.incognito {
        " (private)"@
    } else {
        seq![]
    }) + (if p.new_window {
        " (new window)"@
    } else {
        seq![]
    })
}

/// The entry at `selected` highlighted, the others plain.
pub open spec fn highlight_at(n: nat, selected: usize) -> Seq<Mark> {
    Seq::new(n, |i: int| if i == selected {
        Mark::Highlighted
    } else {
        Mark::Plain
    })
}

/// The list of patterns.
pub open spec fn pattern_list(m: ManagerModel) -> ListModel {
    ListModel {
        title: "Patterns ("@ + decimal(m.patterns.len()) + " total)"@,
        tone: Tone::Plain,
        items: m.patterns.map_values(|p: PatternModel| pattern_line(p)),
        marks: highlight_at(m.patterns.len(), m.selected_index),
        selected: None,
    }
}

/// The marks of a dropdown list of the form: the entry under the cursor of
/// the open dropdown highlighted, those equal to the form's value chosen.
pub open spec fn form_marks(names: Seq<Seq<char>>, open: bool, selected: usize, chosen: Seq<char>) -> Seq<Mark> {
    Seq::new(
        names.len(),
        |i: int|
            if open && i == selected {
                Mark::Highlighted
            } else if names[i] == chosen {
                Mark::Chosen
            } else {
                Mark::Plain
            },
    )
}

/// A dropdown list of the form.
pub open spec fn form_list(m: ManagerModel, field: FormField, name: Seq<char>, items: Seq<Seq<char>>, selected: usize, chosen: Seq<char>) -> ListModel {
    let open = m.dropdown_open == Some(field);
    ListModel {
        title: name + (if open {
            " - ENTER to close"@
        } else {
            " - ENTER to select"@
        }),
        tone: if m.focused_field == field {
            if open {
                Tone::Open
            } else {
                Tone::Focused
            }
        } else {
            Tone::Plain
        },
        items,
        marks: form_marks(items, open, selected, chosen),
        selected: Some(selected),
    }
}

/// The two buttons of the form, each centred in 20 columns.
pub open spec fn form_actions_line(f: FormField) -> Seq<char> {
    centered(
        if f == FormField::SaveButton {
            "[ ENTER ] Save"@
        } else {
            "[Tab] Save"@
        },
        20,
    ) + "   "@ + centered(
        if f == FormField::CancelButton {
            "[ ENTER ] Cancel"@
        } else {
            "[Tab] Cancel"@
        },
        20,
    )
}

/// What the form shows.
pub open spec fn form_screen(m: ManagerModel) -> FormScreenModel {
    let f = m.focused_field;
    let pos = m.pattern_cursor_pos as int;
    FormScreenModel {
        pattern: TextModel {
            title: "Pattern (regex) - Type to edit"@,
            tone: focus_tone(f == FormField::Pattern),
            text: before_byte(m.form.pattern, pos) + "_"@ + after_byte(m.form.pattern, pos),
        },
        browser: form_list(
            m,
            FormField::Browser,
            "Browser"@,
            browser_names(m.browsers),
            m.selected_browser_index,
            m.form.browser,
        ),
        profile: form_list(
            m,
            FormField::Profile,
            "Profile"@,
            profile_names(m.profiles),
            m.selected_profile_index,
            m.form.profile,
        ),
        container: if container_field_visible(m) {
            Some(
                form_list(
                    m,
                    FormField::Container,
                    "Container"@,
                    container_names(m.containers),
                    m.selected_container_index,
                    m.form.container,
                ),
            )
        } else {
            None
        },
        options: TextModel {
            title: "Options - ENTER to toggle"@,
            tone: focus_tone(f == FormField::Incognito || f == FormField::NewWindow),
            text: toggles_line(
                m.form.incognito,
                f == FormField::Incognito,
                m.form.new_window,
                f == FormField::NewWindow,
            ),
        },
        actions: TextModel {
            title: "Actions"@,
            tone: focus_tone(f == FormField::SaveButton || f == FormField::CancelButton),
            text: form_actions_line(f),
        },
    }
}

/// The list over the form while one of its dropdowns is open and has
/// entries.
pub open spec fn manager_overlay(m: ManagerModel) -> Option<OverlayModel> {
    if m.mode == PatternManagerMode::List {
        None
    } else {
        let (items, selected, title) = match m.dropdown_open {
            Some(FormField::Browser) => (
                browser_names(m.browsers),
                m.selected_browser_index,
                "Select Browser"@,
            ),
            Some(FormField::Profile) => (
                profile_names(m.profiles),
                m.selected_profile_index,
                "Select Profile"@,
            ),
            Some(FormField::Container) => (
                container_names(m.containers),
                m.selected_container_index,
                "Select Container"@,
            ),
            _ => (seq![], 0, seq![]),
        };
        if items.len() > 0 {
            Some(OverlayModel { title, items, selected })
        } else {
            None
        }
    }
}

/// What the pattern manager shows for a state.
pub open spec fn manager_screen_model(m: ManagerModel) -> ManagerScreenModel {
    ManagerScreenModel {
        title: match m.mode {
            PatternManagerMode::List => "URL Pattern Manager - Press 'a' to add, 'e' to edit, 'd' to delete"@,
            PatternManagerMode::Add => "Add New Pattern"@,
            PatternManagerMode::Edit => "Edit Pattern"@,
        },
        body: if m.mode != PatternManagerMode::List {
            BodyModel::Form(form_screen(m))
        } else if m.patterns.len() == 0 {
            BodyModel::Empty("No patterns configured. Press 'a' to add one."@)
        } else {
            BodyModel::List(pattern_list(m))
        },
        help: if m.mode == PatternManagerMode::List {
            "q/Esc: Close | ↑/↓: Navigate | a: Add | e: Edit | d: Delete"@
        } else {
            "Tab: Next field | Esc: Cancel | Enter: Select/Save | ↑/↓: Navigate dropdown"@
        },
        error: m.error,
        info: m.info,
        dropdown: manager_overlay(m),
    }
}

/// The line that shows a pattern in the list.
pub fn pattern_line_text(p: &UrlPattern) -> (r: String)
    ensures
        r@ == pattern_line(crate::pattern_manager::pattern_model(*p)),
{
    let mut line = concat(p.pattern.as_str(), " ");
    match &p.profile {
        Some(n) => {
            let at = concat("@ ", n.as_str());
            line = concat(line.as_str(), at.as_str());
        },
        None => {},
    }
    line = concat(line.as_str(), " | ");
    line = concat(line.as_str(), p.browser.as_str());
    line = concat(line.as_str(), " |");
    if p.incognito {
        line = concat(line.as_str(), " (private)");
    }
    if p.new_window {
        line = concat(line.as_str(), " (new window)");
    }
    proof {
        reveal_strlit("");
        assert(line@ =~= pattern_line(crate::pattern_manager::pattern_model(*p)));
    }
    line
}

fn pattern_list_panel(pm: &PatternManager) -> (r: ListPanel)
    requires
        pm_wf(pm@),
    ensures
        r@ == pattern_list(pm@),
{
    let mut items: Vec<String> = Vec::new();
    let mut marks: Vec<Mark> = Vec::new();
    let n = pm.patterns.len();
    let mut i: usize = 0;
    while i < n
        invariant
            n == pm.patterns.len(),
            i <= n,
            items.len() == i,
            marks.len() == i,
            forall|j: int| 0 <= j < i ==> #[trigger] items@[j]@ == pattern_line(
                crate::pattern_manager::pattern_model(pm.patterns@[j]),
            ),
            forall|j: int| 0 <= j < i ==> #[trigger] marks@[j] == (if j == pm.selected_index {
                Mark::Highlighted
            } else {
                Mark::Plain
            }),
        decreases n - i,
    {
        items.push(pattern_line_text(&pm.patterns[i]));
        marks.push(
            if i == pm.selected_index {
                Mark::Highlighted
            } else {
                Mark::Plain
            },
        );
        i += 1;
    }
    let count = decimal_string(n);
    let a = concat("Patterns (", count.as_str());
    let title = concat(a.as_str(), " total)");
    let r = ListPanel { title, tone: Tone::Plain, items, marks, selected: None };
    assert(r@.items =~= pattern_list(pm@).items);
    assert(r@.marks =~= pattern_list(pm@).marks);
    r
}

fn form_mark_list(names: &Vec<String>, open: bool, selected: usize, chosen: &String) -> (r: Vec<Mark>)
    ensures
        r@ == form_marks(string_views(names@), open, selected, chosen@),
{
    let mut out: Vec<Mark> = Vec::new();
    let mut i: usize = 0;
    while i < names.len()
        invariant
            i <= names.len(),
            out.len() == i,
            forall|j: int| 0 <= j < i ==> #[trigger] out@[j] == form_marks(
                string_views(names@),
                open,
                selected,
                chosen@,
            )[j],
        decreases names.len() - i,
    {
        let m = if open && i == selected {
            Mark::Highlighted
        } else if names[i] == *chosen {
            Mark::Chosen
        } else {
            Mark::Plain
        };
        out.push(m);
        i += 1;
    }
    assert(out@ =~= form_marks(string_views(names@), open, selected, chosen@));
    out
}

fn form_list_panel(pm: &PatternManager, field: FormField, name: &str, items: Vec<String>, selected: usize, chosen: &String) -> (r: ListPanel)
    ensures
        r@ == form_list(pm@, field, name@, string_views(items@), selected, chosen@),
{
    let open = pm.dropdown_open == Some(field);
    let title = if open {
        concat(name, " - ENTER to close")
    } else {
        concat(name, " - ENTER to select")
    };
    let tone = if pm.focused_field == field {
        if open {
            Tone::Open
        } else {
            Tone::Focused
        }
    } else {
        Tone::Plain
    };
    let marks = form_mark_list(&items, open, selected, chosen);
    ListPanel { title, tone, items, marks, selected: Some(selected) }
}

fn form_actions_text(f: FormField) -> (r: String)
    ensures
        r@ == form_actions_line(f),
{
    let save = if f == FormField::SaveButton {
        "[ ENTER ] Save"
    } else {
        "[Tab] Save"
    };
    let cancel = if f == FormField::CancelButton {
        "[ ENTER ] Cancel"
    } else {
        "[Tab] Cancel"
    };
    let a = concat(center(save, 20).as_str(), "   ");
    concat(a.as_str(), center(cancel, 20).as_str())
}

fn form_screen_of(pm: &PatternManager) -> (r: FormScreen)
    requires
        pm_wf(pm@),
    ensures
        r@ == form_screen(pm@),
{
    let f = pm.focused_field;
    let (before, after) = split_at_byte(pm.form.pattern.as_str(), pm.pattern_cursor_pos);
    let a = concat(before.as_str(), "_");
    let pattern = TextPanel {
        title: owned("Pattern (regex) - Type to edit"),
        tone: tone_of(f == FormField::Pattern),
        text: concat(a.as_str(), after.as_str()),
    };
    let browser = form_list_panel(
        pm,
        FormField::Browser,
        "Browser",
        browser_name_list(&pm.available_browsers),
        pm.selected_browser_index,
        &pm.form.browser,
    );
    let profile = form_list_panel(
        pm,
        FormField::Profile,
        "Profile",
        profile_name_list(&pm.available_profiles),
        pm.selected_profile_index,
        &pm.form.profile,
    );
    let container = if pm.is_container_field_visible() {
        Some(
            form_list_panel(
                pm,
                FormField::Container,
                "Container",
                container_name_list(&pm.available_containers),
                pm.selected_container_index,
                &pm.form.container,
            ),
        )
    } else {
        None
    };
    let options = TextPanel {
        title: owned("Options - ENTER to toggle"),
        tone: tone_of(f == FormField::Incognito || f == FormField::NewWindow),
        text: toggles_text(
            pm.form.incognito,
            f == FormField::Incognito,
            pm.form.new_window,
            f == FormField::NewWindow,
        ),
    };
    let actions = TextPanel {
        title: owned("Actions"),
        tone: tone_of(f == FormField::SaveButton || f == FormField::CancelButton),
        text: form_actions_text(f),
    };
    FormScreen { pattern, browser, profile, container, options, actions }
}

fn manager_overlay_of(pm: &PatternManager) -> (r: Option<Overlay>)
    ensures
        opt_overlay(r) == manager_overlay(pm@),
{
    if pm.mode == PatternManagerMode::List {
        return None;
    }
    let (items, selected, title) = match pm.dropdown_open {
        Some(FormField::Browser) => (
            browser_name_list(&pm.available_browsers),
            pm.selected_browser_index,
            "Select Browser",
        ),
        Some(FormField::Profile) => (
            profile_name_list(&pm.available_profiles),
            pm.selected_profile_index,
            "Select Profile",
        ),
        Some(FormField::Container) => (
            container_name_list(&pm.available_containers),
            pm.selected_container_index,
            "Select Container",
        ),
        _ => (Vec::new(), 0, ""),
    };
    proof {
        reveal_strlit("");
    }
    if items.len() > 0 {
        Some(Overlay { title: owned(title), items, selected })
    } else {
        None
    }
}

/// What the pattern manager shows. In the form the pattern is cut at its
/// cursor, which must then lie on a character boundary.
pub fn manager_screen(pm: &PatternManager) -> (r: ManagerScreen)
    requires
        pm_wf(pm@),
    ensures
        r@ == manager_screen_model(pm@),
{
    let title = match pm.mode {
        PatternManagerMode::List => owned(
            "URL Pattern Manager - Press 'a' to add, 'e' to edit, 'd' to delete",
        ),
        PatternManagerMode::Add => owned("Add New Pattern"),
        PatternManagerMode::Edit => owned("Edit Pattern"),
    };
    let body = if pm.mode != PatternManagerMode::List {
        ManagerBody::Form(form_screen_of(pm))
    } else if pm.patterns.len() == 0 {
        ManagerBody::Empty(owned("No patterns configured. Press 'a' to add one."))
    } else {
        ManagerBody::List(pattern_list_panel(pm))
    };
    let help = if pm.mode == PatternManagerMode::List {
        owned("q/Esc: Close | ↑/↓: Navigate | a: Add | e: Edit | d: Delete")
    } else {
        owned("Tab: Next field | Esc: Cancel | Enter: Select/Save | ↑/↓: Navigate dropdown")
    };
    ManagerScreen {
        title,
        body,
        help,
        error: pm.error.clone(),
        info: pm.info.clone(),
        dropdown: manager_overlay_of(pm),
    }
}

} // verus!
