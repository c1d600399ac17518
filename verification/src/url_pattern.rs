//! URL pattern rules: a regular expression, checked against a URL, that names
//! the browser, profile and options to open the URL with.
use vstd::prelude::*;
use regex::Regex;
use crate::text::{
    concat, contains, opt_view, str_contains, string_views, };

verus! {

#[verifier::external_type_specification]
#[verifier::external_body]
pub struct ExRegex(regex::Regex);

/// What `regex::Regex::new(pattern)` gives: `None` when the pattern compiles,
/// otherwise the text (`Display`) of the error. It depends on the pattern alone.
pub uninterp spec fn regex_new_error(pattern: Seq<char>) -> Option<Seq<char>>;

/// What `Regex::is_match(haystack)` returns for the regex compiled from
/// `pattern`. It depends on its two arguments alone.
pub uninterp spec fn regex_is_match(pattern: Seq<char>, haystack: Seq<char>) -> bool;

/// A compiled regex together with the text it was compiled from. Only
/// `compile_regex` builds one, and nothing writes its fields afterwards:
/// `regex_matches` states its result over `source`, so the two must stay the
/// pair that `compile_regex` made.
struct CompiledRegex {
    re: Regex,
    source: String,
}

/// `regex::Regex::new`: success exactly when `regex_new_error` is `None`; on
/// success the compiled regex keeps the pattern it came from, on failure the
/// error's text is `regex_new_error` of the pattern.
#[verifier::external_body]
fn compile_regex(pattern: &str) -> (r: Result<CompiledRegex, String>)
    ensures
        (r is Ok) == (regex_new_error(pattern@) is None),
        r matches Ok(c) ==> c.source@ == pattern@,
        r matches Err(e) ==> regex_new_error(pattern@) == Some(e@),
{
    match Regex::new(pattern) {
        Ok(re) => Ok(CompiledRegex { re, source: pattern.to_string() }),
        Err(e) => Err(e.to_string()),
    }
}

/// `regex::Regex::is_match`: the result is `regex_is_match` of the pattern the
/// regex was compiled from (only `compile_regex` builds a `CompiledRegex`) and
/// the haystack.
#[verifier::external_body]
fn regex_matches(re: &CompiledRegex, haystack: &str) -> (b: bool)
    ensures
        b == regex_is_match(re.source@, haystack@),
{
    re.re.is_match(haystack)
}

/// Represents a URL pattern rule for auto-launching browsers
#[derive(Debug, Clone, PartialEq)]
pub struct UrlPattern {
    /// Regex pattern to match against URLs
    pub pattern: String,
    /// Browser name to use when pattern matches
    pub browser: String,
    /// Profile name to use (optional)
    pub profile: Option<String>,
    /// Container name to use for Firefox (optional)
    pub container: Option<String>,
    /// Whether to open in incognito/private mode
    pub incognito: bool,
    /// Whether to open in a new window
    pub new_window: bool,
}

/// Result of a successful pattern match
#[derive(Debug, Clone)]
pub struct PatternMatch<'a> {
    /// The pattern that matched
    pub pattern: &'a UrlPattern,
    /// The browser name to use
    pub browser_name: &'a str,
    /// The profile name to use (if specified)
    pub profile_name: Option<&'a str>,
    /// The container name to use (if specified)
    pub container_name: Option<&'a str>,
    /// Whether to open in incognito mode
    pub incognito: bool,
    /// Whether to open in a new window
    pub new_window: bool,
}

/// Whether `url` matches `pattern`: by the regex when the pattern compiles,
/// otherwise by plain substring search for the pattern text.
pub open spec fn pattern_matches(pattern: Seq<char>, url: Seq<char>) -> bool {
    match regex_new_error(pattern) {
        None => regex_is_match(pattern, url),
        Some(_) => contains(url, pattern),
    }
}

/// The message for a pattern that does not compile.
pub open spec fn invalid_regex_message(pattern: Seq<char>, error: Seq<char>) -> Seq<char> {
    "Invalid regex pattern '"@ + pattern + "': "@ + error
}

/// The messages for the patterns of `ps` that do not compile, in order.
pub open spec fn validation_errors(ps: Seq<UrlPattern>) -> Seq<Seq<char>>
    decreases ps.len(),
{
    if ps.len() == 0 {
        seq![]
    } else {
        let rest = validation_errors(ps.drop_last());
        match regex_new_error(ps.last().pattern@) {
            Some(e) => rest.push(invalid_regex_message(ps.last().pattern@, e)),
            None => rest,
        }
    }
}

/// The view of an optional borrowed string.
pub open spec fn opt_str_view(o: Option<&str>) -> Option<Seq<char>> {
    match o {
        Some(s) => Some(s@),
        None => None,
    }
}

/// `m` is what a match of `p` reports.
pub open spec fn describes(m: PatternMatch, p: UrlPattern) -> bool {
    &&& *m.pattern == p
    &&& m.browser_name@ == p.browser@
    &&& opt_str_view(m.profile_name) == opt_view(p.profile)
    &&& opt_str_view(m.container_name) == opt_view(p.container)
    &&& m.incognito == p.incognito
    &&& m.new_window == p.new_window
}

/// `i` is the index of the first pattern of `ps` that `url` matches.
pub open spec fn is_first_match(url: Seq<char>, ps: Seq<UrlPattern>, i: int) -> bool {
    &&& 0 <= i < ps.len()
    &&& pattern_matches(ps[i].pattern@, url)
    &&& forall|j: int| 0 <= j < i ==> !pattern_matches(#[trigger] ps[j].pattern@, url)
}

fn opt_as_str(o: &Option<String>) -> (r: Option<&str>)
    ensures
        opt_str_view(r) == opt_view(*o),
{
    match o {
        Some(s) => Some(s.as_str()),
        None => None,
    }
}

impl UrlPattern {
    /// Checks if the given URL matches this pattern
    pub fn matches(&self, url: &str) -> (r: bool)
        ensures
            r == pattern_matches(self.pattern@, url@),
    {
        match compile_regex(self.pattern.as_str()) {
            Ok(re) => regex_matches(&re, url),
            Err(_) => str_contains(url, self.pattern.as_str()),
        }
    }

    /// Validates that the pattern is a valid regex
    pub fn validate(&self) -> (r: Result<(), String>)
        ensures
            (r is Ok) == (regex_new_error(self.pattern@) is None),
            r matches Err(m) ==> m@ == invalid_regex_message(
                self.pattern@,
                regex_new_error(self.pattern@)->0,
            ),
    {
        match compile_regex(self.pattern.as_str()) {
            Ok(_) => Ok(()),
            Err(e) => {
                let a = concat("Invalid regex pattern '", self.pattern.as_str());
                let b = concat(a.as_str(), "': ");
                let m = concat(b.as_str(), e.as_str());
                Err(m)
            },
        }
    }

    /// A copy of this pattern.
    pub fn duplicate(&self) -> (r: UrlPattern)
        ensures
            r == *self,
    {
        UrlPattern {
            pattern: self.pattern.clone(),
            browser: self.browser.clone(),
            profile: match &self.profile {
                Some(p) => Some(p.clone()),
                None => None,
            },
            container: match &self.container {
                Some(c) => Some(c.clone()),
                None => None,
            },
            incognito: self.incognito,
            new_window: self.new_window,
        }
    }
}

/// Finds the first matching pattern for the given URL
pub fn find_matching_pattern<'a>(url: &str, patterns: &'a [UrlPattern]) -> (r: Option<
    PatternMatch<'a>,
>)
    ensures
        (r is Some) == (exists|i: int|
            0 <= i < patterns@.len() && pattern_matches(#[trigger] patterns@[i].pattern@, url@)),
        r matches Some(m) ==> exists|i: int|
            is_first_match(url@, patterns@, i) && describes(m, #[trigger] patterns@[i]),
{
    let mut i: usize = 0;
    while i < patterns.len()
        invariant
            i <= patterns@.len(),
            forall|j: int| 0 <= j < i ==> !pattern_matches(#[trigger] patterns@[j].pattern@, url@),
        decreases patterns.len() - i,
    {
        let pattern = &patterns[i];
        if pattern.matches(url) {
            let m = PatternMatch {
                pattern,
                browser_name: pattern.browser.as_str(),
                profile_name: opt_as_str(&pattern.profile),
                container_name: opt_as_str(&pattern.container),
                incognito: pattern.incognito,
                new_window: pattern.new_window,
            };
            assert(is_first_match(url@, patterns@, i as int));
            return Some(m);
        }
        i += 1;
    }
    None
}

/// Validates all patterns in the list
pub fn validate_patterns(patterns: &[UrlPattern]) -> (r: Result<(), Vec<String>>)
    ensures
        (r is Ok) == (validation_errors(patterns@).len() == 0),
        r matches Err(es) ==> string_views(es@) == validation_errors(patterns@),
{
    let mut errors: Vec<String> = Vec::new();
    let mut i: usize = 0;
    while i < patterns.len()
        invariant
            i <= patterns@.len(),
            string_views(errors@) == validation_errors(patterns@.take(i as int)),
        decreases patterns.len() - i,
    {
        let ghost before = string_views(errors@);
        assert(patterns@.take(i + 1).drop_last() =~= patterns@.take(i as int));
        match patterns[i].validate() {
            Err(e) => {
                errors.push(e);
                assert(string_views(errors@) =~= before.push(e@));
            },
            Ok(_) => {},
        }
        i += 1;
    }
    assert(patterns@.take(patterns.len() as int) =~= patterns@);
    if errors.len() == 0 {
        Ok(())
    } else {
        Err(errors)
    }
}

/// Law: a list of patterns validates exactly when every pattern in it
/// compiles as a regex.
pub proof fn lemma_validation_errors_empty(ps: Seq<UrlPattern>)
    ensures
        (validation_errors(ps).len() == 0) == (forall|i: int|
            0 <= i < ps.len() ==> regex_new_error(#[trigger] ps[i].pattern@) is None),
    decreases ps.len(),
{
    if ps.len() > 0 {
        lemma_validation_errors_empty(ps.drop_last());
        if regex_new_error(ps.last().pattern@) is None {
            assert forall|i: int| 0 <= i < ps.len() - 1 implies #[trigger] ps[i].pattern@ == ps.drop_last()[i].pattern@ by {}
        }
    }
}

} // verus!
