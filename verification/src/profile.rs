//! Browser profiles and Firefox containers: which family a browser belongs
//! to, where its profiles live, how `profiles.ini` and `containers.json`
//! describe them.
use vstd::prelude::*;
use std::path::PathBuf;
use crate::json::{pref_name, preferences_profile_name};
use crate::text::{
    chars_eq, chars_of, contains, find_char, lines, lines_of_str, lowercase, owned, starts_with,
    starts_with_chars, str_contains, str_eq, string_of, sub_chars, to_lowercase, trim,
    trim_chars, views, opt_view,
};

verus! {

#[verifier::external_type_specification]
#[verifier::external_body]
pub struct ExPathBuf(std::path::PathBuf);

/// `PathBuf::clone`, which the derived `Clone` of `Profile` calls. Nothing is
/// stated of the opaque copy.
pub assume_specification[ <std::path::PathBuf as Clone>::clone ](p: &PathBuf) -> PathBuf;

/// What `PathBuf::from` gives for the text `s`; it depends on `s` alone.
pub uninterp spec fn path_of_text(s: Seq<char>) -> PathBuf;

/// `PathBuf::from(&str)`: the result is `path_of_text` of the argument.
#[verifier::external_body]
pub(crate) fn path_from_text(s: &str) -> (p: PathBuf)
    ensures
        p == path_of_text(s@),
{
    PathBuf::from(s)
}

/// What `Path::join` gives for the path `base` and the text `part` (that of
/// `base` with `part` pushed onto it); it depends on the two alone.
pub uninterp spec fn joined_path(base: PathBuf, part: Seq<char>) -> PathBuf;

/// `Path::join`: the result is `joined_path` of the arguments.
#[verifier::external_body]
pub(crate) fn join_path(base: &PathBuf, part: &str) -> (p: PathBuf)
    ensures
        p == joined_path(*base, part@),
{
    base.join(part)
}

/// The view of a profile: its name, path and whether the path is relative.
pub open spec fn profile_view(p: Profile) -> (Seq<char>, PathBuf, bool) {
    (p.name@, p.path, p.is_relative)
}

/// The views of a sequence of profiles.
pub open spec fn profile_views(ps: Seq<Profile>) -> Seq<(Seq<char>, PathBuf, bool)> {
    ps.map_values(|p: Profile| profile_view(p))
}

/// The single profile assumed for a browser whose profiles are unknown.
pub open spec fn default_profiles() -> Seq<(Seq<char>, PathBuf, bool)> {
    seq![("Default"@, path_of_text(seq![]), false)]
}

/// Represents a browser profile
#[derive(Debug, Clone, PartialEq)]
pub struct Profile {
    pub name: String,
    pub path: PathBuf,
    pub is_relative: bool,
}

/// Represents a Firefox container
#[derive(Debug, Clone, PartialEq)]
pub struct Container {
    pub name: String,
    pub user_context_id: u32,
}

impl Container {
    /// A copy of this container.
    pub fn duplicate(&self) -> (r: Container)
        ensures
            r == *self,
    {
        Container { name: self.name.clone(), user_context_id: self.user_context_id }
    }
}

/// Detects profiles for unknown browsers (returns a single default profile)
pub fn detect_unknown_profiles() -> (r: Vec<Profile>)
    ensures
        profile_views(r@) == default_profiles(),
{
    let mut v: Vec<Profile> = Vec::new();
    let empty = "";
    proof {
        reveal_strlit("");
    }
    assert(empty@ =~= Seq::<char>::empty());
    v.push(Profile { name: owned("Default"), path: path_from_text(empty), is_relative: false });
    assert(profile_views(v@) =~= default_profiles());
    v
}

/// The browser is Firefox-based: its lowercased binary name mentions
/// `firefox`, `librewolf` or `waterfox`.
pub open spec fn firefox_based(binary_name: Seq<char>) -> bool {
    let lower = lowercase(binary_name);
    contains(lower, "firefox"@) || contains(lower, "librewolf"@) || contains(lower, "waterfox"@)
}

/// The browser is Chromium-based: its lowercased binary name is one of the
/// known Chromium binaries or mentions `chrome` or `edge`.
pub open spec fn chromium_based(binary_name: Seq<char>) -> bool {
    let lower = lowercase(binary_name);
    ||| lower == "google-chrome"@
    ||| lower == "chromium"@
    ||| lower == "chromium-browser"@
    ||| lower == "brave-browser"@
    ||| lower == "microsoft-edge"@
    ||| lower == "vivaldi"@
    ||| lower == "opera"@
    ||| contains(lower, "chrome"@)
    ||| contains(lower, "edge"@)
}

/// Determines if a browser is Firefox-based
pub fn is_firefox_based(binary_name: &str) -> (r: bool)
    ensures
        r == firefox_based(binary_name@),
{
    let lower = to_lowercase(binary_name);
    str_contains(lower.as_str(), "firefox") || str_contains(lower.as_str(), "librewolf")
        || str_contains(lower.as_str(), "waterfox")
}

/// Determines if a browser is Chromium-based
pub fn is_chromium_based(binary_name: &str) -> (r: bool)
    ensures
        r == chromium_based(binary_name@),
{
    let lower = to_lowercase(binary_name);
    let l = lower.as_str();
    str_eq(l, "google-chrome") || str_eq(l, "chromium") || str_eq(l, "chromium-browser")
        || str_eq(l, "brave-browser") || str_eq(l, "microsoft-edge") || str_eq(l, "vivaldi")
        || str_eq(l, "opera") || str_contains(l, "chrome") || str_contains(l, "edge")
}

/// The directory under `~/.mozilla` that holds the `profiles.ini` of a
/// Firefox-based browser.
pub open spec fn mozilla_dir(binary_name: Seq<char>) -> Seq<char> {
    let lower = lowercase(binary_name);
    if contains(lower, "librewolf"@) {
        "librewolf"@
    } else if contains(lower, "waterfox"@) {
        "waterfox"@
    } else {
        "firefox"@
    }
}

/// The directory under `~/.mozilla` where a Firefox-based browser keeps its
/// `profiles.ini`.
pub fn firefox_profiles_dir(binary_name: &str) -> (r: &'static str)
    ensures
        r@ == mozilla_dir(binary_name@),
{
    let lower = to_lowercase(binary_name);
    if str_contains(lower.as_str(), "librewolf") {
        "librewolf"
    } else if str_contains(lower.as_str(), "waterfox") {
        "waterfox"
    } else {
        "firefox"
    }
}

/// A profile as `profiles.ini` describes it: its name, its path as written,
/// and whether that path is relative to the directory of `profiles.ini`.
#[derive(Debug, Clone, PartialEq)]
pub struct IniProfile {
    pub name: String,
    pub path: String,
    pub is_relative: bool,
}

/// The keys read so far in the current section: `Name`, `Path`, `IsRelative`.
pub type IniFields = (Option<Seq<char>>, Option<Seq<char>>, Option<bool>);

/// The profile a section describes once it has all three keys.
pub open spec fn complete_profile(f: IniFields) -> Option<(Seq<char>, Seq<char>, bool)> {
    match f {
        (Some(n), Some(p), Some(r)) => Some((n, p, r)),
        _ => None,
    }
}

/// The profiles so far with the section `f` added, if it is complete.
pub open spec fn flush(done: Seq<(Seq<char>, Seq<char>, bool)>, f: IniFields) -> Seq<
    (Seq<char>, Seq<char>, bool),
> {
    match complete_profile(f) {
        Some(p) => done.push(p),
        None => done,
    }
}

/// A line that `profiles.ini` parsing skips: blank or a comment.
pub open spec fn ini_skipped(t: Seq<char>) -> bool {
    t.len() == 0 || t[0] == '#' || t[0] == ';'
}

/// Index of the first `'='` in `t`, if any.
pub open spec fn first_eq(t: Seq<char>) -> Option<int> {
    if exists|i: int| 0 <= i < t.len() && t[i] == '=' {
        Some(choose|i: int| 0 <= i < t.len() && t[i] == '=' && forall|k: int| 0 <= k < i ==> t[k] != '=')
    } else {
        None
    }
}

/// The fields of the current section after the `key=value` line `t`.
pub open spec fn ini_assign(f: IniFields, t: Seq<char>, e: int) -> IniFields {
    let key = trim(t.take(e));
    let value = trim(t.skip(e + 1));
    if key == "Name"@ {
        (Some(value), f.1, f.2)
    } else if key == "Path"@ {
        (f.0, Some(value), f.2)
    } else if key == "IsRelative"@ {
        (f.0, f.1, Some(value == "1"@))
    } else {
        f
    }
}

/// The state after reading the lines `ls` of `profiles.ini`: the profiles
/// completed so far and the keys of the open section.
pub open spec fn ini_scan(ls: Seq<Seq<char>>) -> (Seq<(Seq<char>, Seq<char>, bool)>, IniFields)
    decreases ls.len(),
{
    if ls.len() == 0 {
        (seq![], (None, None, None))
    } else {
        let (done, f) = ini_scan(ls.drop_last());
        let t = trim(ls.last());
        if ini_skipped(t) {
            (done, f)
        } else if t[0] == '[' && t.last() == ']' {
            (flush(done, f), (None, None, None))
        } else {
            match first_eq(t) {
                Some(e) => (done, ini_assign(f, t, e)),
                None => (done, f),
            }
        }
    }
}

/// The profiles that `profiles.ini` describes, in the order of their
/// sections; a section counts once it has `Name`, `Path` and `IsRelative`
/// (`IsRelative` is true exactly when its value is `1`), the last value of a
/// key in a section wins.
pub open spec fn ini_profiles(contents: Seq<char>) -> Seq<(Seq<char>, Seq<char>, bool)> {
    let (done, f) = ini_scan(lines(contents));
    flush(done, f)
}

/// The view of a parsed profile.
pub open spec fn ini_profile_view(p: IniProfile) -> (Seq<char>, Seq<char>, bool) {
    (p.name@, p.path@, p.is_relative)
}

/// The view of an optional character vector.
pub open spec fn opt_chars(o: Option<Vec<char>>) -> Option<Seq<char>> {
    match o {
        Some(v) => Some(v@),
        None => None,
    }
}

fn take_profile(
    done: &mut Vec<IniProfile>,
    name: Option<Vec<char>>,
    path: Option<Vec<char>>,
    rel: Option<bool>,
)
    ensures
        final(done)@.map_values(|p: IniProfile| ini_profile_view(p)) == flush(
            old(done)@.map_values(|p: IniProfile| ini_profile_view(p)),
            (opt_chars(name), opt_chars(path), rel),
        ),
{
    let ghost before = done@.map_values(|p: IniProfile| ini_profile_view(p));
    match (name, path, rel) {
        (Some(n), Some(p), Some(r)) => {
            done.push(IniProfile { name: string_of(&n), path: string_of(&p), is_relative: r });
            assert(done@.map_values(|p: IniProfile| ini_profile_view(p)) =~= before.push(
                (n@, p@, r),
            ));
        },
        _ => {},
    }
}

/// Reads the profiles that the contents of a `profiles.ini` describe.
pub fn parse_profiles_ini(contents: &str) -> (r: Vec<IniProfile>)
    ensures
        r@.map_values(|p: IniProfile| ini_profile_view(p)) == ini_profiles(contents@),
{
    let ls = lines_of_str(contents);
    let mut done: Vec<IniProfile> = Vec::new();
    let mut name: Option<Vec<char>> = None;
    let mut path: Option<Vec<char>> = None;
    let mut rel: Option<bool> = None;
    let ghost all = views(ls@);
    let mut i: usize = 0;
    assert(all.take(0) =~= Seq::<Seq<char>>::empty());
    assert(done@.map_values(|p: IniProfile| ini_profile_view(p)) =~= Seq::<(Seq<char>, Seq<char>, bool)>::empty());
    while i < ls.len()
        invariant
            i <= ls.len(),
            all == views(ls@),
            all == lines(contents@),
            ini_scan(all.take(i as int)) == (
                done@.map_values(|p: IniProfile| ini_profile_view(p)),
                (opt_chars(name), opt_chars(path), rel),
            ),
        decreases ls.len() - i,
    {
        assert(all.take(i + 1).drop_last() =~= all.take(i as int));
        assert(all.take(i + 1).last() == ls@[i as int]@);
        let t = trim_chars(&ls[i]);
        if t.len() == 0 || t[0] == '#' || t[0] == ';' {
        } else if t[0] == '[' && t[t.len() - 1] == ']' {
            let n = name;
            let p = path;
            let r = rel;
            take_profile(&mut done, n, p, r);
            name = None;
            path = None;
            rel = None;
        } else {
            match find_char(&t, '=') {
                Some(e) => {
                    proof {
                        assert(exists|k: int| 0 <= k < t@.len() && t@[k] == '=');
                        let c = choose|k: int| 0 <= k < t@.len() && t@[k] == '=' && forall|j: int| 0 <= j < k ==> t@[j] != '=';
                        assert(0 <= e < t@.len() && t@[e as int] == '=' && forall|j: int| 0 <= j < e ==> t@[j] != '=');
                        if c < e {
                            assert(t@[c] != '=');
                        }
                        if c > e {
                            assert(t@[e as int] != '=');
                        }
                        assert(first_eq(t@) == Some(e as int));
                    }
                    let key = trim_chars(&sub_chars(&t, 0, e));
                    let value = trim_chars(&sub_chars(&t, e + 1, t.len()));
                    assert(t@.take(e as int) =~= t@.subrange(0, e as int));
                    assert(t@.skip(e + 1) =~= t@.subrange(e + 1, t@.len() as int));
                    if chars_eq(&key, &chars_of("Name")) {
                        name = Some(value);
                    } else if chars_eq(&key, &chars_of("Path")) {
                        path = Some(value);
                    } else if chars_eq(&key, &chars_of("IsRelative")) {
                        let one = chars_of("1");
                        rel = Some(chars_eq(&value, &one));
                    }
                },
                None => {
                    assert(!(exists|k: int| 0 <= k < t@.len() && t@[k] == '='));
                },
            }
        }
        i += 1;
    }
    assert(all.take(ls.len() as int) =~= all);
    take_profile(&mut done, name, path, rel);
    done
}

/// The directory of the `profiles.ini` of a Firefox-based browser, for the
/// home directory `home`: `<home>/.mozilla/<dir>`, `dir` as
/// `firefox_profiles_dir` chooses it.
pub fn firefox_ini_dir(home: &str, binary_name: &str) -> (r: PathBuf)
    ensures
        r == joined_path(joined_path(path_of_text(home@), ".mozilla"@), mozilla_dir(binary_name@)),
{
    let h = path_from_text(home);
    let m = join_path(&h, ".mozilla");
    join_path(&m, firefox_profiles_dir(binary_name))
}

/// The path of a profile listed in the `profiles.ini` of directory `dir`: a
/// relative path is joined to `dir`, another is taken as it is.
pub open spec fn ini_profile_path(dir: PathBuf, path: Seq<char>, is_relative: bool) -> PathBuf {
    if is_relative {
        joined_path(dir, path)
    } else {
        path_of_text(path)
    }
}

/// The profiles that the `profiles.ini` in directory `dir`, with contents
/// `contents`, describes, in file order.
pub fn firefox_profiles(dir: &PathBuf, contents: &str) -> (r: Vec<Profile>)
    ensures
        profile_views(r@) == ini_profiles(contents@).map_values(
            |p: (Seq<char>, Seq<char>, bool)| (p.0, ini_profile_path(*dir, p.1, p.2), p.2),
        ),
{
    let parsed = parse_profiles_ini(contents);
    let ghost want = ini_profiles(contents@).map_values(
        |p: (Seq<char>, Seq<char>, bool)| (p.0, ini_profile_path(*dir, p.1, p.2), p.2),
    );
    let mut out: Vec<Profile> = Vec::new();
    let mut i: usize = 0;
    while i < parsed.len()
        invariant
            i <= parsed.len(),
            out.len() == i,
            parsed@.map_values(|p: IniProfile| ini_profile_view(p)) == ini_profiles(contents@),
            want == ini_profiles(contents@).map_values(
                |p: (Seq<char>, Seq<char>, bool)| (p.0, ini_profile_path(*dir, p.1, p.2), p.2),
            ),
            forall|j: int| 0 <= j < i ==> #[trigger] profile_view(out@[j]) == want[j],
        decreases parsed.len() - i,
    {
        let p = &parsed[i];
        assert(ini_profile_view(parsed@[i as int]) == ini_profiles(contents@)[i as int]);
        let path = if p.is_relative {
            join_path(dir, p.path.as_str())
        } else {
            path_from_text(p.path.as_str())
        };
        out.push(Profile { name: p.name.clone(), path, is_relative: p.is_relative });
        i += 1;
    }
    assert(profile_views(out@) =~= want);
    out
}


/// One entry of the `identities` list of a Firefox `containers.json`, with
/// the fields the container list reads: `public` when it is a boolean,
/// `name` when it is a string, `userContextId` when it is an unsigned integer.
#[derive(Debug, Clone, PartialEq)]
pub struct ContainerIdentity {
    pub public: Option<bool>,
    pub name: Option<String>,
    pub user_context_id: Option<u64>,
}

/// The name shown for a container: the known localisation keys of the
/// built-in containers become their English names.
pub open spec fn container_display_name(name: Seq<char>) -> Seq<char> {
    if name == "userContextPersonal.label"@ {
        "Personal"@
    } else if name == "userContextWork.label"@ {
        "Work"@
    } else if name == "userContextBanking.label"@ {
        "Banking"@
    } else if name == "userContextShopping.label"@ {
        "Shopping"@
    } else {
        name
    }
}

/// The container an identity describes: public ones with a name and an id;
/// the id keeps its low 32 bits.
pub open spec fn identity_container(c: ContainerIdentity) -> Option<(Seq<char>, u32)> {
    if c.public == Some(true) && c.name is Some && c.user_context_id is Some {
        Some((container_display_name(c.name->0@), c.user_context_id->0 as u32))
    } else {
        None
    }
}

/// The containers that a list of identities describes, in order.
pub open spec fn identity_containers(ids: Seq<ContainerIdentity>) -> Seq<(Seq<char>, u32)>
    decreases ids.len(),
{
    if ids.len() == 0 {
        seq![]
    } else {
        let rest = identity_containers(ids.drop_last());
        match identity_container(ids.last()) {
            Some(c) => rest.push(c),
            None => rest,
        }
    }
}

/// The view of a container.
pub open spec fn container_view(c: Container) -> (Seq<char>, u32) {
    (c.name@, c.user_context_id)
}

/// The views of a sequence of containers.
pub open spec fn container_views(cs: Seq<Container>) -> Seq<(Seq<char>, u32)> {
    cs.map_values(|c: Container| container_view(c))
}

/// Maps known localization keys to human-readable names.
pub fn display_name(name: &str) -> (r: String)
    ensures
        r@ == container_display_name(name@),
{
    if str_eq(name, "userContextPersonal.label") {
        owned("Personal")
    } else if str_eq(name, "userContextWork.label") {
        owned("Work")
    } else if str_eq(name, "userContextBanking.label") {
        owned("Banking")
    } else if str_eq(name, "userContextShopping.label") {
        owned("Shopping")
    } else {
        owned(name)
    }
}

/// The containers that the identities of a `containers.json` describe: only
/// public ones that have a name and an id.
pub fn containers_from_identities(ids: &Vec<ContainerIdentity>) -> (r: Vec<Container>)
    ensures
        container_views(r@) == identity_containers(ids@),
{
    let mut out: Vec<Container> = Vec::new();
    let mut i: usize = 0;
    assert(ids@.take(0) =~= Seq::<ContainerIdentity>::empty());
    while i < ids.len()
        invariant
            i <= ids.len(),
            container_views(out@) == identity_containers(ids@.take(i as int)),
        decreases ids.len() - i,
    {
        let id = &ids[i];
        assert(ids@.take(i + 1).drop_last() =~= ids@.take(i as int));
        assert(ids@.take(i + 1).last() == ids@[i as int]);
        let public = match id.public {
            Some(b) => b,
            None => false,
        };
        if public {
            match (&id.name, id.user_context_id) {
                (Some(n), Some(uid)) => {
                    let ghost before = container_views(out@);
                    let c = Container { name: display_name(n.as_str()), user_context_id: uid as u32 };
                    out.push(c);
                    assert(container_views(out@) =~= before.push(container_view(c)));
                },
                _ => {},
            }
        }
        i += 1;
    }
    assert(ids@.take(ids.len() as int) =~= ids@);
    out
}

/// The path components, under `~/.config`, of a Chromium-based browser's
/// configuration directory.
pub open spec fn chromium_dir(binary_name: Seq<char>) -> Seq<Seq<char>> {
    if binary_name == "google-chrome"@ {
        seq!["google-chrome"@]
    } else if binary_name == "chromium"@ || binary_name == "chromium-browser"@ {
        seq!["chromium"@]
    } else if binary_name == "brave-browser"@ {
        seq!["BraveSoftware"@, "Brave-Browser"@]
    } else if binary_name == "microsoft-edge"@ {
        seq!["microsoft-edge"@]
    } else if binary_name == "vivaldi"@ {
        seq!["vivaldi"@]
    } else if binary_name == "opera"@ {
        seq!["opera"@]
    } else {
        seq![binary_name]
    }
}

/// The profiles a Firefox-based browser has, for the home directory `home`
/// and the contents of its `profiles.ini` (`None` when it could not be
/// read): one per complete section, in file order, a relative path joined
/// to the directory of `profiles.ini`.
pub open spec fn firefox_profile_list(home: Seq<char>, binary_name: Seq<char>, ini: Option<Seq<char>>) -> Seq<(Seq<char>, PathBuf, bool)> {
    let dir = joined_path(joined_path(path_of_text(home), ".mozilla"@), mozilla_dir(binary_name));
    match ini {
        Some(t) => ini_profiles(t).map_values(
            |p: (Seq<char>, Seq<char>, bool)| (p.0, ini_profile_path(dir, p.1, p.2), p.2),
        ),
        None => seq![],
    }
}

/// The profiles of a Firefox-based browser, from the home directory and the
/// contents of its `profiles.ini` (`None` when it could not be read).
pub fn firefox_profiles_for(home: &str, binary_name: &str, ini: Option<&str>) -> (r: Vec<Profile>)
    ensures
        profile_views(r@) == firefox_profile_list(
            home@,
            binary_name@,
            match ini {
                Some(t) => Some(t@),
                None => None,
            },
        ),
{
    match ini {
        Some(t) => {
            let dir = firefox_ini_dir(home, binary_name);
            firefox_profiles(&dir, t)
        },
        None => {
            let v: Vec<Profile> = Vec::new();
            assert(profile_views(v@) =~= seq![]);
            v
        },
    }
}

/// The profiles of the entries of a Chromium configuration directory, in
/// listing order: each entry whose name starts with `Profile `, named as
/// its `Preferences` say, else by the entry's name.
pub open spec fn profile_dir_list(config: PathBuf, dirs: Seq<(Seq<char>, Option<Seq<char>>)>) -> Seq<(Seq<char>, PathBuf, bool)>
    decreases dirs.len(),
{
    if dirs.len() == 0 {
        seq![]
    } else {
        let rest = profile_dir_list(config, dirs.drop_last());
        let (name, prefs) = dirs.last();
        if starts_with(name, "Profile "@) {
            rest.push((pref_name(prefs, name), joined_path(config, name), false))
        } else {
            rest
        }
    }
}

/// The profiles of a Chromium-based browser with configuration directory
/// `config`: first `Default`, when that directory exists, named as its
/// `Preferences` say, else `Default`; then the `Profile ` directories.
pub open spec fn chromium_profile_list(config: PathBuf, default_prefs: Option<Option<Seq<char>>>, dirs: Seq<(Seq<char>, Option<Seq<char>>)>) -> Seq<(Seq<char>, PathBuf, bool)> {
    let first = match default_prefs {
        Some(p) => seq![(pref_name(p, "Default"@), joined_path(config, "Default"@), false)],
        None => seq![],
    };
    first + profile_dir_list(config, dirs)
}

/// The view of an entry of a configuration directory: its name and the
/// contents of its `Preferences`, if read.
pub open spec fn dir_entry_views(dirs: Seq<(String, Option<String>)>) -> Seq<(Seq<char>, Option<Seq<char>>)> {
    dirs.map_values(|d: (String, Option<String>)| (d.0@, opt_view(d.1)))
}

fn opt_str(o: &Option<String>) -> (r: Option<&str>)
    ensures
        match r {
            Some(t) => o matches Some(s) && t@ == s@,
            None => o is None,
        },
{
    match o {
        Some(s) => Some(s.as_str()),
        None => None,
    }
}

/// The profiles of a Chromium-based browser, from its configuration
/// directory `config`; `default_prefs` is `None` when there is no `Default`
/// directory, else the contents of its `Preferences` if read; `dirs` lists
/// the directory entries in listing order with the contents of their
/// `Preferences` if read.
pub fn chromium_profiles(config: &PathBuf, default_prefs: Option<Option<&str>>, dirs: &Vec<(String, Option<String>)>) -> (r: Vec<Profile>)
    ensures
        profile_views(r@) == chromium_profile_list(
            *config,
            match default_prefs {
                Some(Some(t)) => Some(Some(t@)),
                Some(None) => Some(None),
                None => None,
            },
            dir_entry_views(dirs@),
        ),
{
    let mut out: Vec<Profile> = Vec::new();
    match default_prefs {
        Some(p) => {
            let name = preferences_profile_name(p, "Default");
            out.push(Profile { name, path: join_path(config, "Default"), is_relative: false });
        },
        None => {},
    }
    let ghost first = profile_views(out@);
    let ghost ds = dir_entry_views(dirs@);
    let prefix = chars_of("Profile ");
    let mut i: usize = 0;
    assert(ds.take(0) =~= Seq::<(Seq<char>, Option<Seq<char>>)>::empty());
    while i < dirs.len()
        invariant
            i <= dirs.len(),
            ds == dir_entry_views(dirs@),
            prefix@ == "Profile "@,
            profile_views(out@) == first + profile_dir_list(*config, ds.take(i as int)),
        decreases dirs.len() - i,
    {
        let (name, prefs) = &dirs[i];
        assert(ds.take(i + 1).drop_last() =~= ds.take(i as int));
        assert(ds.take(i + 1).last() == ds[i as int]);
        if starts_with_chars(&chars_of(name.as_str()), &prefix) {
            let pname = preferences_profile_name(opt_str(prefs), name.as_str());
            let ghost before = profile_views(out@);
            out.push(Profile { name: pname, path: join_path(config, name.as_str()), is_relative: false });
            assert(profile_views(out@) =~= before.push(profile_view(out@.last())));
        }
        i += 1;
    }
    assert(ds.take(dirs.len() as int) =~= ds);
    proof {
        reveal_strlit("Profile ");
        reveal_strlit("Default");
    }
    out
}

/// The path components, under `~/.config`, of the configuration directory
/// of a Chromium-based browser.
pub fn chromium_config_dir(binary_name: &str) -> (r: Vec<String>)
    ensures
        r@.map_values(|s: String| s@) == chromium_dir(binary_name@),
{
    let mut v: Vec<String> = Vec::new();
    if str_eq(binary_name, "google-chrome") {
        v.push(owned("google-chrome"));
    } else if str_eq(binary_name, "chromium") || str_eq(binary_name, "chromium-browser") {
        v.push(owned("chromium"));
    } else if str_eq(binary_name, "brave-browser") {
        v.push(owned("BraveSoftware"));
        v.push(owned("Brave-Browser"));
    } else if str_eq(binary_name, "microsoft-edge") {
        v.push(owned("microsoft-edge"));
    } else if str_eq(binary_name, "vivaldi") {
        v.push(owned("vivaldi"));
    } else if str_eq(binary_name, "opera") {
        v.push(owned("opera"));
    } else {
        v.push(owned(binary_name));
    }
    assert(v@.map_values(|s: String| s@) =~= chromium_dir(binary_name@));
    v
}

/// Whether a directory of a Chromium configuration holds an extra profile:
/// its name starts with `Profile `.
pub fn is_profile_dir_name(file_name: &str) -> (r: bool)
    ensures
        r == starts_with(file_name@, "Profile "@),
{
    let f = chars_of(file_name);
    let p = chars_of("Profile ");
    starts_with_chars(&f, &p)
}


/// The family of a browser, which decides how its profiles are found and how
/// it is started.
#[derive(Debug, Clone, Copy, PartialEq, Eq, Structural)]
pub enum BrowserFamily {
    Firefox,
    Chromium,
    Other,
}

/// The family of the browser with this binary name: Firefox-based first,
/// then Chromium-based.
pub open spec fn family_of(binary_name: Seq<char>) -> BrowserFamily {
    if firefox_based(binary_name) {
        BrowserFamily::Firefox
    } else if chromium_based(binary_name) {
        BrowserFamily::Chromium
    } else {
        BrowserFamily::Other
    }
}

/// The family of the browser with this binary name.
pub fn browser_family(binary_name: &str) -> (r: BrowserFamily)
    ensures
        r == family_of(binary_name@),
{
    if is_firefox_based(binary_name) {
        BrowserFamily::Firefox
    } else if is_chromium_based(binary_name) {
        BrowserFamily::Chromium
    } else {
        BrowserFamily::Other
    }
}

} // verus!
