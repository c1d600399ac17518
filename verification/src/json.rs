//! JSON as the browsers store it: the identities of Firefox's
//! `containers.json` and the profile name in a Chromium `Preferences` file.
use vstd::prelude::*;
use crate::profile::{
    Container, ContainerIdentity, container_display_name, container_views,
    containers_from_identities, identity_containers,
};
use crate::text::{opt_view, owned, str_eq};

verus! {

#[verifier::external_type_specification]
#[verifier::external_body]
pub struct ExJsonValue(serde_json::Value);

/// A JSON value, holding what the library reads of it: a number only as the
/// unsigned integer it is, if it is one.
#[derive(Debug)]
pub enum JsonValue {
    Null,
    Bool(bool),
    Number(Option<u64>),
    Str(String),
    Array(Vec<JsonValue>),
    /// The entries of an object, each key once, in the order of the keys.
    Object(Vec<(String, JsonValue)>),
}

/// What `serde_json::from_str::<serde_json::Value>` gives for `text`, as a
/// `JsonValue`: `None` when the text is not JSON. It depends on the text
/// alone.
pub uninterp spec fn json_of(text: Seq<char>) -> Option<JsonValue>;

/// `serde_json::from_str::<serde_json::Value>`: the value the text holds,
/// as `json_of` names it.
#[verifier::external_body]
fn parse_json(text: &str) -> (r: Option<JsonValue>)
    ensures
        r == json_of(text@),
{
    match serde_json::from_str::<serde_json::Value>(text) {
        Ok(v) => Some(json_from_value(v)),
        Err(_) => None,
    }
}

/// The conversion of a `serde_json::Value` into a `JsonValue`, variant for
/// variant; a number becomes `serde_json::Number::as_u64`. Only the body of
/// `parse_json` uses it.
#[verifier::external_body]
fn json_from_value(v: serde_json::Value) -> JsonValue {
    match v {
        serde_json::Value::Null => JsonValue::Null,
        serde_json::Value::Bool(b) => JsonValue::Bool(b),
        serde_json::Value::Number(n) => JsonValue::Number(n.as_u64()),
        serde_json::Value::String(s) => JsonValue::Str(s),
        serde_json::Value::Array(a) => JsonValue::Array(a.into_iter().map(json_from_value).collect()),
        serde_json::Value::Object(o) => JsonValue::Object(
            o.into_iter().map(|(k, x)| (k, json_from_value(x))).collect(),
        ),
    }
}

/// The value under `key` among the entries of an object.
pub open spec fn entry_of(es: Seq<(String, JsonValue)>, key: Seq<char>) -> Option<JsonValue>
    decreases es.len(),
{
    if es.len() == 0 {
        None
    } else if es[0].0@ == key {
        Some(es[0].1)
    } else {
        entry_of(es.drop_first(), key)
    }
}

/// The value under `key` when `v` is an object (`Value::get`).
pub open spec fn json_get(v: JsonValue, key: Seq<char>) -> Option<JsonValue> {
    match v {
        JsonValue::Object(es) => entry_of(es@, key),
        _ => None,
    }
}

/// A boolean, if that is what is there (`Value::as_bool`).
pub open spec fn as_bool(o: Option<JsonValue>) -> Option<bool> {
    match o {
        Some(JsonValue::Bool(b)) => Some(b),
        _ => None,
    }
}

/// A string, if that is what is there (`Value::as_str`).
pub open spec fn as_str(o: Option<JsonValue>) -> Option<Seq<char>> {
    match o {
        Some(JsonValue::Str(s)) => Some(s@),
        _ => None,
    }
}

/// An unsigned integer, if that is what is there (`Value::as_u64`).
pub open spec fn as_u64(o: Option<JsonValue>) -> Option<u64> {
    match o {
        Some(JsonValue::Number(n)) => n,
        _ => None,
    }
}

/// An identity, as its fields are read: `public`, `name`, `userContextId`.
pub type IdentityView = (Option<bool>, Option<Seq<char>>, Option<u64>);

/// The view of an identity.
pub open spec fn identity_view(c: ContainerIdentity) -> IdentityView {
    (c.public, opt_view(c.name), c.user_context_id)
}

/// The views of a sequence of identities.
pub open spec fn identity_views(cs: Seq<ContainerIdentity>) -> Seq<IdentityView> {
    cs.map_values(|c: ContainerIdentity| identity_view(c))
}

/// The identity an entry of `identities` describes, when it is an object.
pub open spec fn identity_in(v: JsonValue) -> Option<IdentityView> {
    match v {
        JsonValue::Object(_) => Some(
            (
                as_bool(json_get(v, "public"@)),
                as_str(json_get(v, "name"@)),
                as_u64(json_get(v, "userContextId"@)),
            ),
        ),
        _ => None,
    }
}

/// The identities that the objects among `vs` describe, in order.
pub open spec fn identities_of(vs: Seq<JsonValue>) -> Seq<IdentityView>
    decreases vs.len(),
{
    if vs.len() == 0 {
        seq![]
    } else {
        let rest = identities_of(vs.drop_last());
        match identity_in(vs.last()) {
            Some(x) => rest.push(x),
            None => rest,
        }
    }
}

/// The identities of a `containers.json`: those in its `identities` array;
/// none when the text is not JSON or has no such array.
pub open spec fn identities_in(j: Option<JsonValue>) -> Seq<IdentityView> {
    match j {
        Some(v) => match json_get(v, "identities"@) {
            Some(JsonValue::Array(a)) => identities_of(a@),
            _ => seq![],
        },
        None => seq![],
    }
}

/// The profile name that a parsed Chromium `Preferences` file gives: the
/// string `name` of its `profile` object; else the fallback.
pub open spec fn profile_name_in(j: Option<JsonValue>, fallback: Seq<char>) -> Seq<char> {
    match j {
        Some(v) => match json_get(v, "profile"@) {
            Some(p) => match as_str(json_get(p, "name"@)) {
                Some(n) => n,
                None => fallback,
            },
            None => fallback,
        },
        None => fallback,
    }
}

/// The profile name in a Chromium `Preferences` file with contents
/// `contents`, or the fallback when it gives none or could not be read.
pub open spec fn pref_name(contents: Option<Seq<char>>, fallback: Seq<char>) -> Seq<char> {
    match contents {
        Some(t) => profile_name_in(json_of(t), fallback),
        None => fallback,
    }
}

/// The value an optional reference points at.
pub open spec fn opt_json(j: Option<&JsonValue>) -> Option<JsonValue> {
    match j {
        Some(v) => Some(*v),
        None => None,
    }
}

/// The container an identity's fields describe: public ones with a name
/// and an id, the name shown as `container_display_name` gives it and the
/// id cut to its low 32 bits.
pub open spec fn view_container(v: IdentityView) -> Option<(Seq<char>, u32)> {
    if v.0 == Some(true) && v.1 is Some && v.2 is Some {
        Some((container_display_name(v.1->0), v.2->0 as u32))
    } else {
        None
    }
}

/// The containers that a list of identities describes, in order.
pub open spec fn view_containers(vs: Seq<IdentityView>) -> Seq<(Seq<char>, u32)>
    decreases vs.len(),
{
    if vs.len() == 0 {
        seq![]
    } else {
        let rest = view_containers(vs.drop_last());
        match view_container(vs.last()) {
            Some(c) => rest.push(c),
            None => rest,
        }
    }
}

/// The containers of a `containers.json` with contents `contents`: none
/// when it could not be read.
pub open spec fn file_containers(contents: Option<Seq<char>>) -> Seq<(Seq<char>, u32)> {
    match contents {
        Some(t) => view_containers(identities_in(json_of(t))),
        None => seq![],
    }
}

proof fn lemma_view_containers(ids: Seq<ContainerIdentity>)
    ensures
        identity_containers(ids) == view_containers(identity_views(ids)),
    decreases ids.len(),
{
    if ids.len() > 0 {
        lemma_view_containers(ids.drop_last());
        assert(identity_views(ids.drop_last()) =~= identity_views(ids).drop_last());
        assert(identity_views(ids).last() == identity_view(ids.last()));
    }
}

/// The value under `key` when `v` is an object.
pub fn get<'a>(v: &'a JsonValue, key: &str) -> (r: Option<&'a JsonValue>)
    ensures
        match r {
            Some(x) => json_get(*v, key@) == Some(*x),
            None => json_get(*v, key@) is None,
        },
{
    match v {
        JsonValue::Object(es) => {
            let mut i: usize = 0;
            assert(es@.skip(0) =~= es@);
            assert(json_get(*v, key@) == entry_of(es@, key@));
            while i < es.len()
                invariant
                    i <= es.len(),
                    json_get(*v, key@) == entry_of(es@, key@),
                    entry_of(es@, key@) == entry_of(es@.skip(i as int), key@),
                decreases es.len() - i,
            {
                assert(es@.skip(i as int)[0] == es@[i as int]);
                assert(es@.skip(i as int).drop_first() =~= es@.skip(i + 1));
                let e = &es[i];
                if str_eq(e.0.as_str(), key) {
                    assert(es@.skip(i as int)[0].0@ == key@);
                    assert(entry_of(es@.skip(i as int), key@) == Some(es@[i as int].1));
                    assert(json_get(*v, key@) == Some(e.1));
                    return Some(&e.1);
                }
                i += 1;
            }
            None
        },
        _ => None,
    }
}

fn bool_at(v: &JsonValue, key: &str) -> (r: Option<bool>)
    ensures
        r == as_bool(json_get(*v, key@)),
{
    match get(v, key) {
        Some(JsonValue::Bool(b)) => Some(*b),
        _ => None,
    }
}

fn str_at(v: &JsonValue, key: &str) -> (r: Option<String>)
    ensures
        opt_view(r) == as_str(json_get(*v, key@)),
{
    match get(v, key) {
        Some(JsonValue::Str(s)) => Some(s.clone()),
        _ => None,
    }
}

fn u64_at(v: &JsonValue, key: &str) -> (r: Option<u64>)
    ensures
        r == as_u64(json_get(*v, key@)),
{
    match get(v, key) {
        Some(JsonValue::Number(n)) => *n,
        _ => None,
    }
}

/// The identities that a parsed `containers.json` lists.
pub fn identities_from(j: Option<&JsonValue>) -> (r: Vec<ContainerIdentity>)
    ensures
        identity_views(r@) == identities_in(opt_json(j)),
{
    let mut out: Vec<ContainerIdentity> = Vec::new();
    match j {
        Some(v) => match get(v, "identities") {
            Some(JsonValue::Array(a)) => {
                let mut i: usize = 0;
                assert(a@.take(0) =~= Seq::<JsonValue>::empty());
                while i < a.len()
                    invariant
                        i <= a.len(),
                        identity_views(out@) == identities_of(a@.take(i as int)),
                    decreases a.len() - i,
                {
                    let x = &a[i];
                    assert(a@.take(i + 1).drop_last() =~= a@.take(i as int));
                    assert(a@.take(i + 1).last() == *x);
                    match x {
                        JsonValue::Object(_) => {
                            let c = ContainerIdentity {
                                public: bool_at(x, "public"),
                                name: str_at(x, "name"),
                                user_context_id: u64_at(x, "userContextId"),
                            };
                            out.push(c);
                            assert(identity_views(out@) =~= identity_views(out@.drop_last()).push(
                                identity_view(c),
                            ));
                        },
                        _ => {},
                    }
                    i += 1;
                }
                assert(a@.take(a.len() as int) =~= a@);
            },
            _ => {},
        },
        None => {},
    }
    out
}

/// The identities that the text of a `containers.json` lists.
pub fn container_identities(contents: &str) -> (r: Vec<ContainerIdentity>)
    ensures
        identity_views(r@) == identities_in(json_of(contents@)),
{
    let j = parse_json(contents);
    match &j {
        Some(v) => identities_from(Some(v)),
        None => identities_from(None),
    }
}

/// The containers of a Firefox profile, from the contents of its
/// `containers.json` (`None` when it could not be read): the public
/// identities with a name and an id, in order.
pub fn containers_in_file(contents: Option<&str>) -> (r: Vec<Container>)
    ensures
        container_views(r@) == file_containers(
            match contents {
                Some(t) => Some(t@),
                None => None,
            },
        ),
{
    match contents {
        Some(t) => {
            let ids = container_identities(t);
            proof {
                lemma_view_containers(ids@);
            }
            containers_from_identities(&ids)
        },
        None => Vec::new(),
    }
}

/// The profile name that a parsed Chromium `Preferences` file gives, or the
/// fallback.
pub fn profile_name_from(j: Option<&JsonValue>, fallback: &str) -> (r: String)
    ensures
        r@ == profile_name_in(opt_json(j), fallback@),
{
    match j {
        Some(v) => match get(v, "profile") {
            Some(p) => match str_at(p, "name") {
                Some(n) => n,
                None => owned(fallback),
            },
            None => owned(fallback),
        },
        None => owned(fallback),
    }
}

/// The profile name that a Chromium `Preferences` file gives, or the
/// fallback when it gives none or could not be read (`None`).
pub fn preferences_profile_name(contents: Option<&str>, fallback: &str) -> (r: String)
    ensures
        r@ == pref_name(
            match contents {
                Some(t) => Some(t@),
                None => None,
            },
            fallback@,
        ),
{
    match contents {
        Some(t) => {
            let j = parse_json(t);
            match &j {
                Some(v) => profile_name_from(Some(v), fallback),
                None => profile_name_from(None, fallback),
            }
        },
        None => owned(fallback),
    }
}

} // verus!
