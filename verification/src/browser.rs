//! Browsers as described by freedesktop `.desktop` files: reading the
//! `[Desktop Entry]` sections, telling browsers from browser actions, and the
//! binary that an `Exec` line runs.
use vstd::prelude::*;
use vstd::hash_set::StringHashSet;
use crate::text::{
    chars_eq,
    chars_of, contains, contains_chars, first_word, first_word_chars, lines, lines_of_str, lowercase, remove_all, remove_all_chars, starts_with, starts_with_chars,
    string_of, string_views, sub_chars, to_lowercase, trim, trim_chars, views,
};

verus! {

/// Represents a discovered browser
#[derive(Debug, Clone, PartialEq)]
pub struct Browser {
    pub name: String,
    pub command: String,
}

impl Browser {
    /// A copy of this browser.
    pub fn duplicate(&self) -> (r: Browser)
        ensures
            r == *self,
    {
        Browser { name: self.name.clone(), command: self.command.clone() }
    }
}

/// A trimmed line of the form `[...]`.
pub open spec fn is_section_header(t: Seq<char>) -> bool {
    t.len() > 0 && t[0] == '[' && t.last() == ']'
}

/// State while scanning a `.desktop` file: the finished entries, the entry
/// being read, and whether a `[Desktop Entry]` section is open.
pub open spec fn scan_entries(ls: Seq<Seq<char>>) -> (Seq<Seq<char>>, Seq<char>, bool)
    decreases ls.len(),
{
    if ls.len() == 0 {
        (seq![], seq![], false)
    } else {
        let (entries, current, in_entry) = scan_entries(ls.drop_last());
        let line = ls.last();
        let t = trim(line);
        if is_section_header(t) {
            let kept = if in_entry && trim(current).len() > 0 {
                entries.push(current)
            } else {
                entries
            };
            if t == "[Desktop Entry]"@ {
                (kept, line.push('\n'), true)
            } else {
                (kept, seq![], false)
            }
        } else if in_entry {
            (entries, current + line.push('\n'), true)
        } else {
            (entries, current, in_entry)
        }
    }
}

/// The `[Desktop Entry]` sections of a `.desktop` file, each with its header
/// line and every line up to the next section header, each line followed by
/// `'\n'`; sections that are blank are left out.
pub open spec fn desktop_entries(contents: Seq<char>) -> Seq<Seq<char>> {
    let (entries, current, in_entry) = scan_entries(lines(contents));
    if in_entry && trim(current).len() > 0 {
        entries.push(current)
    } else {
        entries
    }
}

/// Parses a .desktop file and returns each [Desktop Entry] section as a string
pub fn parse_desktop_entries(contents: &str) -> (r: Vec<String>)
    ensures
        string_views(r@) == desktop_entries(contents@),
{
    let ls = lines_of_str(contents);
    let header = chars_of("[Desktop Entry]");
    let mut entries: Vec<Vec<char>> = Vec::new();
    let mut current: Vec<char> = Vec::new();
    let mut in_entry = false;
    let mut i: usize = 0;
    assert(views(ls@).take(0) =~= Seq::<Seq<char>>::empty());
    while i < ls.len()
        invariant
            i <= ls.len(),
            header@ == "[Desktop Entry]"@,
            scan_entries(views(ls@).take(i as int)) == (views(entries@), current@, in_entry),
        decreases ls.len() - i,
    {
        let line = &ls[i];
        assert(views(ls@).take(i + 1).drop_last() =~= views(ls@).take(i as int));
        assert(views(ls@).take(i + 1).last() == line@);
        let t = trim_chars(line);
        if t.len() > 0 && t[0] == '[' && t[t.len() - 1] == ']' {
            let ct = trim_chars(&current);
            if in_entry && ct.len() > 0 {
                let ghost before = views(entries@);
                entries.push(current);
                assert(views(entries@) =~= before.push(current@));
            }
            current = Vec::new();
            if chars_eq(&t, &header) {
                let mut k: usize = 0;
                while k < line.len()
                    invariant
                        k <= line.len(),
                        current@ == line@.take(k as int),
                    decreases line.len() - k,
                {
                    current.push(line[k]);
                    assert(line@.take(k + 1) =~= line@.take(k as int).push(line@[k as int]));
                    k += 1;
                }
                assert(line@.take(line.len() as int) =~= line@);
                current.push('\n');
                in_entry = true;
            } else {
                in_entry = false;
                assert(current@ =~= Seq::<char>::empty());
            }
        } else if in_entry {
            let ghost c0 = current@;
            let mut k: usize = 0;
            while k < line.len()
                invariant
                    k <= line.len(),
                    current@ == c0 + line@.take(k as int),
                decreases line.len() - k,
            {
                current.push(line[k]);
                assert(line@.take(k + 1) =~= line@.take(k as int).push(line@[k as int]));
                k += 1;
            }
            assert(line@.take(line.len() as int) =~= line@);
            current.push('\n');
            assert(current@ =~= c0 + line@.push('\n'));
        }
        i += 1;
    }
    assert(views(ls@).take(ls.len() as int) =~= views(ls@));
    let ct = trim_chars(&current);
    if in_entry && ct.len() > 0 {
        let ghost before = views(entries@);
        entries.push(current);
        assert(views(entries@) =~= before.push(current@));
    }
    let mut out: Vec<String> = Vec::new();
    let mut j: usize = 0;
    while j < entries.len()
        invariant
            j <= entries.len(),
            string_views(out@) == views(entries@).take(j as int),
        decreases entries.len() - j,
    {
        let s = string_of(&entries[j]);
        let ghost before = string_views(out@);
        out.push(s);
        assert(string_views(out@) =~= before.push(s@));
        assert(views(entries@).take(j + 1) =~= views(entries@).take(j as int).push(entries@[j as int]@));
        j += 1;
    }
    assert(views(entries@).take(entries.len() as int) =~= views(entries@));
    out
}

/// The value after `key` on the last trimmed line that starts with `key`.
pub open spec fn last_value(ls: Seq<Seq<char>>, key: Seq<char>) -> Option<Seq<char>>
    decreases ls.len(),
{
    if ls.len() == 0 {
        None
    } else if starts_with(trim(ls.last()), key) {
        Some(trim(ls.last()).skip(key.len() as int))
    } else {
        last_value(ls.drop_last(), key)
    }
}

/// The value of an optional string, or `d`.
pub open spec fn or_default(o: Option<Seq<char>>, d: Seq<char>) -> Seq<char> {
    match o {
        Some(s) => s,
        None => d,
    }
}

/// The `k`-th word whose presence marks a `.desktop` entry as a browser
/// action rather than a browser.
pub open spec fn action_keyword(k: int) -> Seq<char> {
    if k == 0 { "incognito"@ }
    else if k == 1 { "private window"@ }
    else if k == 2 { "private browsing"@ }
    else if k == 3 { "new window"@ }
    else if k == 4 { "new tab"@ }
    else if k == 5 { "profile manager"@ }
    else if k == 6 { "profile"@ }
    else if k == 7 { "settings"@ }
    else if k == 8 { "preferences"@ }
    else if k == 9 { "launcher"@ }
    else if k == 10 { "setup"@ }
    else if k == 11 { "wizard"@ }
    else if k == 12 { "first run"@ }
    else if k == 13 { "about"@ }
    else if k == 14 { "help"@ }
    else if k == 15 { "sync"@ }
    else if k == 16 { "bookmarks"@ }
    else if k == 17 { "history"@ }
    else if k == 18 { "downloads"@ }
    else if k == 19 { "addons"@ }
    else if k == 20 { "extensions"@ }
    else if k == 21 { "plugins"@ }
    else if k == 22 { "crash reporter"@ }
    else if k == 23 { "safe mode"@ }
    else if k == 24 { "refresh"@ }
    else if k == 25 { "update"@ }
    else if k == 26 { "check for updates"@ }
    else if k == 27 { "release notes"@ }
    else if k == 28 { "whats new"@ }
    else { " whats new"@ }
}

/// How many action keywords there are.
pub open spec fn action_keyword_count() -> int {
    30
}

fn action_keyword_exec(k: usize) -> (r: &'static str)
    requires
        k < 30,
    ensures
        r@ == action_keyword(k as int),
{
    match k {
        0 => "incognito",
        1 => "private window",
        2 => "private browsing",
        3 => "new window",
        4 => "new tab",
        5 => "profile manager",
        6 => "profile",
        7 => "settings",
        8 => "preferences",
        9 => "launcher",
        10 => "setup",
        11 => "wizard",
        12 => "first run",
        13 => "about",
        14 => "help",
        15 => "sync",
        16 => "bookmarks",
        17 => "history",
        18 => "downloads",
        19 => "addons",
        20 => "extensions",
        21 => "plugins",
        22 => "crash reporter",
        23 => "safe mode",
        24 => "refresh",
        25 => "update",
        26 => "check for updates",
        27 => "release notes",
        28 => "whats new",
        _ => " whats new",
    }
}

/// The name, lowercased, holds one of the action keywords.
pub open spec fn is_action_name(name: Seq<char>) -> bool {
    exists|k: int| 0 <= k < action_keyword_count() && contains(lowercase(name), #[trigger] action_keyword(k))
}

/// Checks if the name indicates this is a browser action/feature, not a browser itself.
/// Examples: "New Incognito Window", "Open Profile Manager", "Tor Browser Launcher Settings"
pub fn is_browser_action(name: &str) -> (r: bool)
    ensures
        r == is_action_name(name@),
{
    let lower = to_lowercase(name);
    let l = chars_of(lower.as_str());
    let mut k: usize = 0;
    while k < 30
        invariant
            k <= 30,
            l@ == lowercase(name@),
            forall|j: int| 0 <= j < k ==> !contains(l@, #[trigger] action_keyword(j)),
        decreases 30 - k,
    {
        let kw = chars_of(action_keyword_exec(k));
        if contains_chars(&l, &kw) {
            return true;
        }
        k += 1;
    }
    false
}

/// What a single `[Desktop Entry]` section describes: `Some((name, exec))` for
/// an application whose categories name `WebBrowser` and whose name is not a
/// browser action; a missing name reads as `Unknown` (and as empty for the
/// action check), a missing `Exec` as empty.
pub open spec fn entry_browser(entry: Seq<char>) -> Option<(Seq<char>, Seq<char>)> {
    let ls = lines(entry);
    let name = last_value(ls, "Name="@);
    let exec_value = last_value(ls, "Exec="@);
    let categories = last_value(ls, "Categories="@);
    let typ = last_value(ls, "Type="@);
    if typ != Some("Application"@) {
        None
    } else if !(categories is Some && contains(categories->0, "WebBrowser"@)) {
        None
    } else if is_action_name(or_default(name, seq![])) {
        None
    } else {
        Some((or_default(name, "Unknown"@), or_default(exec_value, seq![])))
    }
}

/// The browser that `spec` describes, as a value.
pub open spec fn browser_is(b: Browser, sp: (Seq<char>, Seq<char>)) -> bool {
    b.name@ == sp.0 && b.command@ == sp.1
}

fn last_value_exec(ls: &Vec<Vec<char>>, key: &Vec<char>) -> (r: Option<Vec<char>>)
    ensures
        match r {
            Some(v) => last_value(views(ls@), key@) == Some(v@),
            None => last_value(views(ls@), key@) is None,
        },
{
    let mut i = ls.len();
    assert(views(ls@).take(ls.len() as int) =~= views(ls@));
    while i > 0
        invariant
            i <= ls.len(),
            last_value(views(ls@), key@) == last_value(views(ls@).take(i as int), key@),
        decreases i,
    {
        let t = trim_chars(&ls[i - 1]);
        assert(views(ls@).take(i as int).last() == ls@[i - 1]@);
        if starts_with_chars(&t, key) {
            let v = sub_chars(&t, key.len(), t.len());
            assert(v@ =~= t@.skip(key.len() as int));
            return Some(v);
        }
        assert(views(ls@).take(i as int).drop_last() =~= views(ls@).take(i - 1));
        i -= 1;
    }
    assert(views(ls@).take(0) =~= Seq::<Seq<char>>::empty());
    None
}

/// Parses a single [Desktop Entry] section and returns a Browser if valid
pub fn parse_single_entry(entry: &str) -> (r: Option<Browser>)
    ensures
        match entry_browser(entry@) {
            Some(sp) => r matches Some(b) && browser_is(b, sp),
            None => r is None,
        },
{
    let ls = lines_of_str(entry);
    let name = last_value_exec(&ls, &chars_of("Name="));
    let exec_value = last_value_exec(&ls, &chars_of("Exec="));
    let categories = last_value_exec(&ls, &chars_of("Categories="));
    let typ = last_value_exec(&ls, &chars_of("Type="));
    let is_app = match &typ {
        Some(t) => chars_eq(t, &chars_of("Application")),
        None => false,
    };
    if !is_app {
        return None;
    }
    let has_web_browser = match &categories {
        Some(c) => contains_chars(c, &chars_of("WebBrowser")),
        None => false,
    };
    if !has_web_browser {
        return None;
    }
    let browser_name = match &name {
        Some(n) => string_of(n),
        None => String::new(),
    };
    if is_browser_action(browser_name.as_str()) {
        return None;
    }
    let name_out = match name {
        Some(n) => browser_name,
        None => string_of(&chars_of("Unknown")),
    };
    let exec_out = match exec_value {
        Some(e) => string_of(&e),
        None => String::new(),
    };
    Some(Browser { name: name_out, command: exec_out })
}

/// The browser that a whole `.desktop` file describes: the first of its
/// `[Desktop Entry]` sections that describes one.
pub open spec fn file_browser(es: Seq<Seq<char>>) -> Option<(Seq<char>, Seq<char>)>
    decreases es.len(),
{
    if es.len() == 0 {
        None
    } else if entry_browser(es[0]) is Some {
        entry_browser(es[0])
    } else {
        file_browser(es.drop_first())
    }
}

/// The browser described by the contents of a `.desktop` file, if any.
pub fn browser_from_desktop_file(contents: &str) -> (r: Option<Browser>)
    ensures
        match file_browser(desktop_entries(contents@)) {
            Some(sp) => r matches Some(b) && browser_is(b, sp),
            None => r is None,
        },
{
    let entries = parse_desktop_entries(contents);
    let ghost es = desktop_entries(contents@);
    let mut i: usize = 0;
    assert(es.skip(0) =~= es);
    while i < entries.len()
        invariant
            i <= entries.len(),
            string_views(entries@) == es,
            es == desktop_entries(contents@),
            file_browser(es) == file_browser(es.skip(i as int)),
        decreases entries.len() - i,
    {
        let es_i = entries[i].as_str();
        assert(es_i@ == es[i as int]);
        let b = parse_single_entry(es_i);
        assert(es.skip(i as int)[0] == entries@[i as int]@);
        assert(es.skip(i as int).drop_first() =~= es.skip(i + 1));
        if b.is_some() {
            assert(entry_browser(es.skip(i as int)[0]) is Some);
            assert(file_browser(es.skip(i as int)) == entry_browser(es.skip(i as int)[0]));
            assert(file_browser(es) == entry_browser(entries@[i as int]@));
            return b;
        }
        i += 1;
    }
    None
}

/// The binary an `Exec` line runs: placeholders `%u %U %f %F` removed, then
/// the first word.
#[verifier::opaque]
pub open spec fn resolved_exec(exec: Seq<char>) -> Seq<char> {
    first_word(
        trim(
            remove_all(remove_all(remove_all(remove_all(exec, "%u"@), "%U"@), "%f"@), "%F"@),
        ),
    )
}

/// Resolves the Exec field to a binary path by removing placeholders and taking the first token.
///
/// For example, "firefox %u" becomes "firefox".
pub fn resolve_exec(exec: &str) -> (r: String)
    ensures
        r@ == resolved_exec(exec@),
{
    proof {
        reveal_strlit("%u");
        reveal_strlit("%U");
        reveal_strlit("%f");
        reveal_strlit("%F");
    }
    let v = chars_of(exec);
    let a = remove_all_chars(&v, &chars_of("%u"));
    let b = remove_all_chars(&a, &chars_of("%U"));
    let c = remove_all_chars(&b, &chars_of("%f"));
    let d = remove_all_chars(&c, &chars_of("%F"));
    let t = trim_chars(&d);
    let w = first_word_chars(&t);
    proof {
        reveal(resolved_exec);
    }
    string_of(&w)
}

/// Whether browser `i` of `bs` runs the same binary as an earlier one.
pub open spec fn repeats_earlier(bs: Seq<Browser>, i: int) -> bool {
    exists|j: int| 0 <= j < i && resolved_exec(#[trigger] bs[j].command@) == resolved_exec(bs[i].command@)
}

/// `bs` without the browsers whose binary an earlier browser already runs.
pub open spec fn distinct_browsers(bs: Seq<Browser>) -> Seq<Browser>
    decreases bs.len(),
{
    if bs.len() == 0 {
        seq![]
    } else if repeats_earlier(bs, bs.len() - 1) {
        distinct_browsers(bs.drop_last())
    } else {
        distinct_browsers(bs.drop_last()).push(bs.last())
    }
}

/// Keeps, of the browsers found in scan order, the first for each binary.
pub fn dedupe_browsers(found: Vec<Browser>) -> (r: Vec<Browser>)
    ensures
        r@ == distinct_browsers(found@),
{
    let mut seen = StringHashSet::new();
    let mut out: Vec<Browser> = Vec::new();
    let mut i: usize = 0;
    assert(found@.take(0) =~= Seq::<Browser>::empty());
    while i < found.len()
        invariant
            i <= found.len(),
            forall|x: Seq<char>|
                #![trigger seen@.contains(x)]
                seen@.contains(x) <==> exists|j: int|
                    0 <= j < i && resolved_exec(#[trigger] found@[j].command@) == x,
            out@ == distinct_browsers(found@.take(i as int)),
        decreases found.len() - i,
    {
        let resolved = resolve_exec(found[i].command.as_str());
        let ghost key = resolved@;
        let ghost before = seen@;
        let fresh = seen.insert(resolved);
        let ghost t = found@.take(i + 1);
        assert(t.drop_last() =~= found@.take(i as int));
        assert(t.last() == found@[i as int]);
        assert(!fresh == repeats_earlier(t, i as int)) by {
            if !fresh {
                assert(before.contains(key));
                let j = choose|j: int| 0 <= j < i && resolved_exec(#[trigger] found@[j].command@) == key;
                assert(t[j] == found@[j]);
            }
            if repeats_earlier(t, i as int) {
                let j = choose|j: int| 0 <= j < i && resolved_exec(#[trigger] t[j].command@) == resolved_exec(t[i as int].command@);
                assert(t[j] == found@[j]);
                assert(before.contains(key));
            }
        }
        if fresh {
            out.push(found[i].duplicate());
        }
        assert forall|x: Seq<char>| #![trigger seen@.contains(x)] seen@.contains(x) <==> exists|j: int|
            0 <= j < i + 1 && resolved_exec(#[trigger] found@[j].command@) == x by {
            if seen@.contains(x) && x != key {
                assert(before.contains(x));
            }
            if x == key {
                assert(resolved_exec(found@[i as int].command@) == x);
            }
        }
        i += 1;
    }
    assert(found@.take(found.len() as int) =~= found@);
    out
}

/// Two browsers run the same binary.
pub open spec fn same_binary(a: Browser, b: Browser) -> bool {
    resolved_exec(a.command@) == resolved_exec(b.command@)
}

/// Each browser kept was found.
proof fn lemma_distinct_browsers_found(bs: Seq<Browser>)
    ensures
        forall|k: int|
            0 <= k < distinct_browsers(bs).len() ==> exists|j: int|
                0 <= j < bs.len() && #[trigger] distinct_browsers(bs)[k] == bs[j],
    decreases bs.len(),
{
    if bs.len() > 0 {
        let n = bs.len() - 1;
        let front = bs.drop_last();
        let d0 = distinct_browsers(front);
        let d = distinct_browsers(bs);
        lemma_distinct_browsers_found(front);
        assert forall|k: int| 0 <= k < d.len() implies exists|j: int|
            0 <= j < bs.len() && #[trigger] d[k] == bs[j] by {
            if k < d0.len() {
                let j = choose|j: int| 0 <= j < front.len() && #[trigger] d0[k] == front[j];
                assert(d[k] == d0[k]);
                assert(front[j] == bs[j]);
            } else {
                assert(d[k] == bs[n]);
            }
        }
    }
}

/// The browsers kept run pairwise different binaries.
proof fn lemma_distinct_browsers_unique(bs: Seq<Browser>)
    ensures
        forall|k1: int, k2: int|
            0 <= k1 < k2 < distinct_browsers(bs).len() ==> resolved_exec(
                #[trigger] distinct_browsers(bs)[k1].command@,
            ) != resolved_exec(#[trigger] distinct_browsers(bs)[k2].command@),
    decreases bs.len(),
{
    if bs.len() > 0 {
        let n = bs.len() - 1;
        let front = bs.drop_last();
        let d0 = distinct_browsers(front);
        let d = distinct_browsers(bs);
        lemma_distinct_browsers_unique(front);
        lemma_distinct_browsers_found(front);
        if !repeats_earlier(bs, n) {
            assert forall|k1: int, k2: int| 0 <= k1 < k2 < d.len() implies resolved_exec(
                #[trigger] d[k1].command@,
            ) != resolved_exec(#[trigger] d[k2].command@) by {
                assert(d[k1] == d0[k1]);
                if k2 < d0.len() {
                    assert(d[k2] == d0[k2]);
                } else {
                    let j = choose|j: int| 0 <= j < front.len() && #[trigger] d0[k1] == front[j];
                    assert(front[j] == bs[j]);
                    assert(d[k2] == bs[n]);
                    if resolved_exec(bs[j].command@) == resolved_exec(bs[n].command@) {
                        assert(repeats_earlier(bs, n));
                    }
                }
            }
        }
    }
}

/// Every binary found is run by a browser kept.
proof fn lemma_distinct_browsers_cover(bs: Seq<Browser>)
    ensures
        forall|i: int|
            #![trigger bs[i]]
            0 <= i < bs.len() ==> exists|k: int|
                0 <= k < distinct_browsers(bs).len() && same_binary(#[trigger] distinct_browsers(bs)[k], bs[i]),
    decreases bs.len(),
{
    if bs.len() > 0 {
        let n = bs.len() - 1;
        let front = bs.drop_last();
        let d0 = distinct_browsers(front);
        let d = distinct_browsers(bs);
        lemma_distinct_browsers_cover(front);
        assert forall|i: int| #![trigger bs[i]] 0 <= i < bs.len() implies exists|k: int|
            0 <= k < d.len() && same_binary(#[trigger] d[k], bs[i]) by {
            let j = if i < n {
                i
            } else if repeats_earlier(bs, n) {
                choose|j: int|
                    0 <= j < n && resolved_exec(#[trigger] bs[j].command@) == resolved_exec(
                        bs[n].command@,
                    )
            } else {
                n
            };
            if j < n {
                assert(front[j] == bs[j]);
                let k = choose|k: int|
                    0 <= k < d0.len() && same_binary(#[trigger] d0[k], front[j]);
                assert(d[k] == d0[k]);
            } else {
                assert(d[d0.len() as int] == bs[n]);
            }
        }
    }
}

/// The binaries a list of browsers runs.
pub open spec fn binaries(bs: Seq<Browser>) -> Seq<Seq<char>> {
    bs.map_values(|b: Browser| resolved_exec(b.command@))
}

/// The words that mark a `.desktop` entry's name as a browser action, as a
/// list.
pub open spec fn browser_action_words() -> Seq<Seq<char>> {
    seq![
        "incognito"@,
        "private window"@,
        "private browsing"@,
        "new window"@,
        "new tab"@,
        "profile manager"@,
        "profile"@,
        "settings"@,
        "preferences"@,
        "launcher"@,
        "setup"@,
        "wizard"@,
        "first run"@,
        "about"@,
        "help"@,
        "sync"@,
        "bookmarks"@,
        "history"@,
        "downloads"@,
        "addons"@,
        "extensions"@,
        "plugins"@,
        "crash reporter"@,
        "safe mode"@,
        "refresh"@,
        "update"@,
        "check for updates"@,
        "release notes"@,
        "whats new"@,
        " whats new"@
    ]
}

/// Law: a name is a browser action exactly when its lowercase form contains
/// one of the listed action words; a name whose lowercase form contains none
/// of them, such as that of a browser itself, is kept as a browser.
pub proof fn lemma_action_words(name: Seq<char>)
    ensures
        browser_action_words().len() == action_keyword_count(),
        is_action_name(name) <==> exists|i: int|
            0 <= i < browser_action_words().len() && contains(
                lowercase(name),
                #[trigger] browser_action_words()[i],
            ),
{
    let w = browser_action_words();
    assert forall|k: int| 0 <= k < 30 implies action_keyword(k) == #[trigger] w[k] by {
        if k == 0 { assert(w[0] == "incognito"@); }
        if k == 1 { assert(w[1] == "private window"@); }
        if k == 2 { assert(w[2] == "private browsing"@); }
        if k == 3 { assert(w[3] == "new window"@); }
        if k == 4 { assert(w[4] == "new tab"@); }
        if k == 5 { assert(w[5] == "profile manager"@); }
        if k == 6 { assert(w[6] == "profile"@); }
        if k == 7 { assert(w[7] == "settings"@); }
        if k == 8 { assert(w[8] == "preferences"@); }
        if k == 9 { assert(w[9] == "launcher"@); }
        if k == 10 { assert(w[10] == "setup"@); }
        if k == 11 { assert(w[11] == "wizard"@); }
        if k == 12 { assert(w[12] == "first run"@); }
        if k == 13 { assert(w[13] == "about"@); }
        if k == 14 { assert(w[14] == "help"@); }
        if k == 15 { assert(w[15] == "sync"@); }
        if k == 16 { assert(w[16] == "bookmarks"@); }
        if k == 17 { assert(w[17] == "history"@); }
        if k == 18 { assert(w[18] == "downloads"@); }
        if k == 19 { assert(w[19] == "addons"@); }
        if k == 20 { assert(w[20] == "extensions"@); }
        if k == 21 { assert(w[21] == "plugins"@); }
        if k == 22 { assert(w[22] == "crash reporter"@); }
        if k == 23 { assert(w[23] == "safe mode"@); }
        if k == 24 { assert(w[24] == "refresh"@); }
        if k == 25 { assert(w[25] == "update"@); }
        if k == 26 { assert(w[26] == "check for updates"@); }
        if k == 27 { assert(w[27] == "release notes"@); }
        if k == 28 { assert(w[28] == "whats new"@); }
        if k == 29 { assert(w[29] == " whats new"@); }
    }
    if is_action_name(name) {
        let k = choose|k: int| 0 <= k < action_keyword_count() && contains(lowercase(name), #[trigger] action_keyword(k));
        assert(contains(lowercase(name), w[k]));
    }
    if exists|i: int| 0 <= i < w.len() && contains(lowercase(name), #[trigger] w[i]) {
        let i = choose|i: int| 0 <= i < w.len() && contains(lowercase(name), #[trigger] w[i]);
        assert(contains(lowercase(name), action_keyword(i)));
    }
}

/// Law: of the browsers found, each one kept was found, those kept run
/// pairwise different binaries, and every binary found is run by one kept.
pub proof fn lemma_distinct_browsers(bs: Seq<Browser>)
    ensures
        forall|k: int|
            0 <= k < distinct_browsers(bs).len() ==> bs.contains(
                #[trigger] distinct_browsers(bs)[k],
            ),
        binaries(distinct_browsers(bs)).no_duplicates(),
        forall|i: int|
            0 <= i < bs.len() ==> binaries(distinct_browsers(bs)).contains(
                #[trigger] binaries(bs)[i],
            ),
{
    let d = distinct_browsers(bs);
    lemma_distinct_browsers_found(bs);
    lemma_distinct_browsers_unique(bs);
    lemma_distinct_browsers_cover(bs);
    assert forall|k: int| 0 <= k < d.len() implies bs.contains(#[trigger] d[k]) by {
        let j = choose|j: int| 0 <= j < bs.len() && #[trigger] d[k] == bs[j];
        assert(bs[j] == d[k]);
    }
    assert forall|i: int, j: int|
        0 <= i < binaries(d).len() && 0 <= j < binaries(d).len() && i != j implies #[trigger] binaries(d)[i]
        != #[trigger] binaries(d)[j] by {
        if i < j {
            assert(resolved_exec(d[i].command@) != resolved_exec(d[j].command@));
        } else {
            assert(resolved_exec(d[j].command@) != resolved_exec(d[i].command@));
        }
    }
    assert forall|i: int| 0 <= i < bs.len() implies binaries(d).contains(
        #[trigger] binaries(bs)[i],
    ) by {
        let b = bs[i];
        let k = choose|k: int| 0 <= k < d.len() && same_binary(#[trigger] d[k], bs[i]);
        assert(binaries(d)[k] == binaries(bs)[i]);
    }
}

} // verus!
