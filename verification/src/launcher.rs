//! What starting a browser runs: the cleaned `Exec` line, where to look for
//! the binary, and the arguments for Firefox-based, Chromium-based and other
//! browsers.
use vstd::prelude::*;
use crate::profile::{Container, Profile, BrowserFamily, family_of, browser_family};
use crate::text::{
    chars_of, concat, first_word, first_word_chars, owned, pieces, remove_all,
    remove_all_chars, split_chars, string_of, string_views, trim, trim_chars, views,
};

verus! {

/// An `Exec` line with its placeholders `%u %U %f %F %i %c %k` removed,
/// then trimmed.
pub open spec fn cleaned_exec(exec: Seq<char>) -> Seq<char> {
    trim(
        remove_all(
            remove_all(
                remove_all(
                    remove_all(
                        remove_all(remove_all(remove_all(exec, "%u"@), "%U"@), "%f"@),
                        "%F"@,
                    ),
                    "%i"@,
                ),
                "%c"@,
            ),
            "%k"@,
        ),
    )
}

/// Cleans the Exec field by removing URL placeholders
pub fn clean_exec(exec: &str) -> (r: String)
    ensures
        r@ == cleaned_exec(exec@),
{
    proof {
        reveal_strlit("%u");
        reveal_strlit("%U");
        reveal_strlit("%f");
        reveal_strlit("%F");
        reveal_strlit("%i");
        reveal_strlit("%c");
        reveal_strlit("%k");
    }
    let v = chars_of(exec);
    let v = remove_all_chars(&v, &chars_of("%u"));
    let v = remove_all_chars(&v, &chars_of("%U"));
    let v = remove_all_chars(&v, &chars_of("%f"));
    let v = remove_all_chars(&v, &chars_of("%F"));
    let v = remove_all_chars(&v, &chars_of("%i"));
    let v = remove_all_chars(&v, &chars_of("%c"));
    let v = remove_all_chars(&v, &chars_of("%k"));
    let t = trim_chars(&v);
    string_of(&t)
}

/// The arguments that start a Firefox-based browser on `url`.
pub open spec fn firefox_args(
    exec: Seq<char>,
    profile_name: Seq<char>,
    container_name: Option<Seq<char>>,
    url: Seq<char>,
    incognito: bool,
    new_window: bool,
) -> Seq<Seq<char>> {
    let base = seq![exec, "--no-remote"@, "-P"@, profile_name];
    match container_name {
        Some(c) => base.push("ext+container:name="@ + c + "&url="@ + url),
        None => {
            let opts = if incognito {
                base.push("--private-window"@)
            } else if new_window {
                base.push("--new-window"@)
            } else {
                base
            };
            opts.push(url)
        },
    }
}

/// The arguments that start a Chromium-based browser on `url`.
pub open spec fn chromium_args(
    exec: Seq<char>,
    profile_name: Seq<char>,
    url: Seq<char>,
    incognito: bool,
    new_window: bool,
) -> Seq<Seq<char>> {
    let base = seq![exec, "--profile-directory="@ + profile_name];
    let a = if incognito { base.push("--incognito"@) } else { base };
    let b = if new_window { a.push("--new-window"@) } else { a };
    b.push(url)
}

/// The name of an optional container.
pub open spec fn container_name_of(c: Option<&Container>) -> Option<Seq<char>> {
    match c {
        Some(c) => Some(c.name@),
        None => None,
    }
}

/// Builds Firefox arguments for starting the browser
pub fn build_firefox_args(
    exec: &str,
    profile: &Profile,
    container: Option<&Container>,
    url: &str,
    incognito: bool,
    new_window: bool,
) -> (r: Vec<String>)
    ensures
        string_views(r@) == firefox_args(
            exec@,
            profile.name@,
            container_name_of(container),
            url@,
            incognito,
            new_window,
        ),
{
    let mut args: Vec<String> = Vec::new();
    args.push(owned(exec));
    args.push(owned("--no-remote"));
    args.push(owned("-P"));
    args.push(owned(profile.name.as_str()));
    match container {
        Some(c) => {
            let a = concat("ext+container:name=", c.name.as_str());
            let b = concat(a.as_str(), "&url=");
            let uri = concat(b.as_str(), url);
            args.push(uri);
        },
        None => {
            if incognito {
                args.push(owned("--private-window"));
            } else if new_window {
                args.push(owned("--new-window"));
            }
            args.push(owned(url));
        },
    }
    assert(string_views(args@) =~= firefox_args(
        exec@,
        profile.name@,
        container_name_of(container),
        url@,
        incognito,
        new_window,
    ));
    args
}

/// Builds Chromium arguments for starting the browser
pub fn build_chromium_args(
    exec: &str,
    profile: &Profile,
    url: &str,
    incognito: bool,
    new_window: bool,
) -> (r: Vec<String>)
    ensures
        string_views(r@) == chromium_args(exec@, profile.name@, url@, incognito, new_window),
{
    let mut args: Vec<String> = Vec::new();
    args.push(owned(exec));
    args.push(concat("--profile-directory=", profile.name.as_str()));
    if incognito {
        args.push(owned("--incognito"));
    }
    if new_window {
        args.push(owned("--new-window"));
    }
    args.push(owned(url));
    assert(string_views(args@) =~= chromium_args(exec@, profile.name@, url@, incognito, new_window));
    args
}

/// The arguments `launch` starts a browser with: by the family of the
/// cleaned `Exec` line, Firefox or Chromium arguments, otherwise just the
/// binary and the URL.
pub open spec fn launch_args_spec(
    binary_path: Seq<char>,
    clean: Seq<char>,
    profile_name: Seq<char>,
    container_name: Option<Seq<char>>,
    url: Seq<char>,
    incognito: bool,
    new_window: bool,
) -> Seq<Seq<char>> {
    match family_of(clean) {
        BrowserFamily::Firefox => firefox_args(
            binary_path,
            profile_name,
            container_name,
            url,
            incognito,
            new_window,
        ),
        BrowserFamily::Chromium => chromium_args(binary_path, profile_name, url, incognito, new_window),
        BrowserFamily::Other => seq![binary_path, url],
    }
}

/// The arguments that start the browser whose cleaned `Exec` line is
/// `clean` and whose binary was found at `binary_path`.
pub fn launch_args(
    binary_path: &str,
    clean: &str,
    profile: &Profile,
    container: Option<&Container>,
    url: &str,
    incognito: bool,
    new_window: bool,
) -> (r: Vec<String>)
    ensures
        string_views(r@) == launch_args_spec(
            binary_path@,
            clean@,
            profile.name@,
            container_name_of(container),
            url@,
            incognito,
            new_window,
        ),
{
    match browser_family(clean) {
        BrowserFamily::Firefox => build_firefox_args(
            binary_path,
            profile,
            container,
            url,
            incognito,
            new_window,
        ),
        BrowserFamily::Chromium => build_chromium_args(binary_path, profile, url, incognito, new_window),
        BrowserFamily::Other => {
            let mut v: Vec<String> = Vec::new();
            v.push(owned(binary_path));
            v.push(owned(url));
            assert(string_views(v@) =~= seq![binary_path@, url@]);
            v
        },
    }
}

/// The binary a cleaned `Exec` line names: its first word, or the whole line
/// when it has none.
pub open spec fn binary_name_spec(binary: Seq<char>) -> Seq<char> {
    if first_word(binary).len() > 0 {
        first_word(binary)
    } else {
        binary
    }
}

/// The binary a cleaned `Exec` line names.
pub fn binary_name(binary: &str) -> (r: String)
    ensures
        r@ == binary_name_spec(binary@),
{
    let w = first_word_chars(&chars_of(binary));
    if w.len() > 0 {
        string_of(&w)
    } else {
        owned(binary)
    }
}

/// The directories searched, in order, for a binary: the entries of `PATH`
/// (split at `:`), then the common system directories.
pub open spec fn search_dirs_spec(path_var: Option<Seq<char>>) -> Seq<Seq<char>> {
    let from_path = match path_var {
        Some(p) => pieces(p, ':'),
        None => seq![],
    };
    from_path + seq!["/usr/bin"@, "/usr/local/bin"@, "/snap/bin"@, "/opt/bin"@]
}

/// The directories to search for a binary, given the value of `PATH`.
pub fn search_dirs(path_var: Option<&str>) -> (r: Vec<String>)
    ensures
        string_views(r@) == search_dirs_spec(
            match path_var {
                Some(p) => Some(p@),
                None => None,
            },
        ),
{
    let mut out: Vec<String> = Vec::new();
    match path_var {
        Some(p) => {
            let parts = split_chars(&chars_of(p), ':');
            let mut i: usize = 0;
            while i < parts.len()
                invariant
                    i <= parts.len(),
                    string_views(out@) == views(parts@).take(i as int),
                decreases parts.len() - i,
            {
                let ghost before = string_views(out@);
                let piece = string_of(&parts[i]);
                out.push(piece);
                assert(string_views(out@) =~= before.push(piece@));
                assert(views(parts@).take(i + 1) =~= views(parts@).take(i as int).push(parts@[i as int]@));
                i += 1;
            }
            assert(views(parts@).take(parts.len() as int) =~= views(parts@));
        },
        None => {},
    }
    let ghost before = string_views(out@);
    out.push(owned("/usr/bin"));
    out.push(owned("/usr/local/bin"));
    out.push(owned("/snap/bin"));
    out.push(owned("/opt/bin"));
    assert(string_views(out@) =~= before + seq!["/usr/bin"@, "/usr/local/bin"@, "/snap/bin"@, "/opt/bin"@]);
    out
}

/// The views of the candidates searched for a binary: each path's text and
/// whether a file is there.
pub open spec fn candidate_views(found: Seq<(String, bool)>) -> Seq<(Seq<char>, bool)> {
    found.map_values(|c: (String, bool)| (c.0@, c.1))
}

/// The binary that is started: the first candidate, in the order searched,
/// where a file is found, or else the bare name for the system to look up.
pub open spec fn chosen_binary(name: Seq<char>, found: Seq<(Seq<char>, bool)>) -> Seq<char>
    decreases found.len(),
{
    if found.len() == 0 {
        name
    } else if found[0].1 {
        found[0].0
    } else {
        chosen_binary(name, found.drop_first())
    }
}

/// Picks the binary to start among the candidates searched, in order, each
/// with whether a file is there; a binary is always chosen.
pub fn pick_binary(name: &str, found: &Vec<(String, bool)>) -> (r: String)
    ensures
        r@ == chosen_binary(name@, candidate_views(found@)),
{
    let ghost all = candidate_views(found@);
    assert(all.skip(0) =~= all);
    let mut i: usize = 0;
    while i < found.len()
        invariant
            i <= found.len(),
            all == candidate_views(found@),
            chosen_binary(name@, all.skip(i as int)) == chosen_binary(name@, all),
        decreases found.len() - i,
    {
        assert(all.skip(i as int)[0] == all[i as int]);
        if found[i].1 {
            return owned(found[i].0.as_str());
        }
        assert(all.skip(i as int).drop_first() =~= all.skip(i + 1));
        i += 1;
    }
    assert(all.skip(i as int).len() == 0);
    owned(name)
}

/// Law: a Chromium-based browser is started with its binary, the profile
/// directory option, then `--incognito` exactly when incognito is asked for
/// and `--new-window` exactly when a new window is asked for, each
/// independently of the other, and the URL last.
pub proof fn lemma_chromium_options(
    exec: Seq<char>,
    profile_name: Seq<char>,
    url: Seq<char>,
    incognito: bool,
    new_window: bool,
)
    ensures
        chromium_args(exec, profile_name, url, incognito, new_window).len() == 3 + (if incognito {
            1int
        } else {
            0int
        }) + (if new_window {
            1int
        } else {
            0int
        }),
        chromium_args(exec, profile_name, url, incognito, new_window)[0] == exec,
        chromium_args(exec, profile_name, url, incognito, new_window)[1] == "--profile-directory="@
            + profile_name,
        chromium_args(exec, profile_name, url, incognito, new_window).last() == url,
        incognito <==> (chromium_args(exec, profile_name, url, incognito, new_window).len() > 3
            && chromium_args(exec, profile_name, url, incognito, new_window)[2] == "--incognito"@),
        new_window <==> (chromium_args(exec, profile_name, url, incognito, new_window).len() > 3
            && chromium_args(exec, profile_name, url, incognito, new_window)[chromium_args(
            exec,
            profile_name,
            url,
            incognito,
            new_window,
        ).len() - 2] == "--new-window"@),
{
    reveal_strlit("--incognito");
    reveal_strlit("--new-window");
    assert("--incognito"@[2] != "--new-window"@[2]);
}

/// Law: a Firefox-based browser is started with its binary, `--no-remote`,
/// `-P` and the profile name; with a container, only the container address
/// naming the container and the URL follows; without one, `--private-window`
/// when incognito is asked for, otherwise `--new-window` when a new window
/// is, and then the URL.
pub proof fn lemma_firefox_options(
    exec: Seq<char>,
    profile_name: Seq<char>,
    container_name: Option<Seq<char>>,
    url: Seq<char>,
    incognito: bool,
    new_window: bool,
)
    ensures
        firefox_args(exec, profile_name, container_name, url, incognito, new_window).take(4)
            == seq![exec, "--no-remote"@, "-P"@, profile_name],
        container_name matches Some(c) ==> firefox_args(
            exec,
            profile_name,
            container_name,
            url,
            incognito,
            new_window,
        ).len() == 5 && firefox_args(exec, profile_name, container_name, url, incognito, new_window)[4]
            == "ext+container:name="@ + c + "&url="@ + url,
        container_name is None ==> firefox_args(
            exec,
            profile_name,
            container_name,
            url,
            incognito,
            new_window,
        ).last() == url,
        container_name is None ==> (incognito <==> (firefox_args(
            exec,
            profile_name,
            container_name,
            url,
            incognito,
            new_window,
        ).len() == 6 && firefox_args(exec, profile_name, container_name, url, incognito, new_window)[4]
            == "--private-window"@)),
        container_name is None ==> (!incognito && new_window <==> (firefox_args(
            exec,
            profile_name,
            container_name,
            url,
            incognito,
            new_window,
        ).len() == 6 && firefox_args(exec, profile_name, container_name, url, incognito, new_window)[4]
            == "--new-window"@)),
        container_name is None ==> (!incognito && !new_window <==> firefox_args(
            exec,
            profile_name,
            container_name,
            url,
            incognito,
            new_window,
        ).len() == 5),
{
    reveal_strlit("--private-window");
    reveal_strlit("--new-window");
    assert("--private-window"@[2] != "--new-window"@[2]);
    assert(firefox_args(exec, profile_name, container_name, url, incognito, new_window).take(4)
        =~= seq![exec, "--no-remote"@, "-P"@, profile_name]);
}

} // verus!
