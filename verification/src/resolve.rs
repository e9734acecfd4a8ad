//! Resolving the components of a path written with property references.
//!
//! A component `[[Name]]` stands for the system folder `Name`; a component
//! holding `[Name]` stands for the components of the value of the property
//! `Name`, resolved in turn; any other component stands for itself.

use vstd::prelude::*;
use crate::error::MsiBuilderError;
use crate::system_folder::{SystemFolder, folder_name, parse_folder};

verus! {

/// A character of a property name: an ASCII letter, an ASCII digit, or `_`.
pub open spec fn is_word_char(c: char) -> bool {
    ('A' <= c && c <= 'Z') || ('a' <= c && c <= 'z') || ('0' <= c && c <= '9') || c == '_'
}

/// `s[i..=j]` is `[`, one or more name characters, `]`.
pub open spec fn bracket_at(s: Seq<char>, i: int, j: int) -> bool {
    &&& 0 <= i && i + 1 < j && j < s.len()
    &&& s[i] == '[' && s[j] == ']'
    &&& forall|k: int| i < k < j ==> is_word_char(#[trigger] s[k])
}

/// `s[i..=j+1]` is `[[`, one or more name characters, `]]`.
pub open spec fn double_bracket_at(s: Seq<char>, i: int, j: int) -> bool {
    &&& 0 <= i && i + 2 < j && j + 1 < s.len()
    &&& s[i] == '[' && s[i + 1] == '[' && s[j] == ']' && s[j + 1] == ']'
    &&& forall|k: int| i + 1 < k < j ==> is_word_char(#[trigger] s[k])
}

/// The name in the leftmost `[name]` of `s`, if there is one: what the
/// pattern `\[([A-Za-z0-9_]+)\]` captures.
#[verifier::opaque]
pub open spec fn property_reference(s: Seq<char>) -> Option<Seq<char>> {
    if exists|i: int, j: int| bracket_at(s, i, j) {
        let (i, j) = choose|i: int, j: int|
            bracket_at(s, i, j) && forall|i2: int, j2: int| #[trigger] bracket_at(s, i2, j2) ==> i <= i2;
        Some(s.subrange(i + 1, j))
    } else {
        None
    }
}

/// The name in the leftmost `[[name]]` of `s`, if there is one: what the
/// pattern `\[\[([A-Za-z0-9_]+)\]\]` captures.
#[verifier::opaque]
pub open spec fn reserved_reference(s: Seq<char>) -> Option<Seq<char>> {
    if exists|i: int, j: int| double_bracket_at(s, i, j) {
        let (i, j) = choose|i: int, j: int|
            double_bracket_at(s, i, j) && forall|i2: int, j2: int| #[trigger] double_bracket_at(s, i2, j2) ==> i <= i2;
        Some(s.subrange(i + 2, j))
    } else {
        None
    }
}

/// The pattern of a property reference `[Name]`.
pub open spec fn property_pattern() -> Seq<char> {
    "\\[([A-Za-z0-9_]+)\\]"@
}

/// The pattern of a reserved reference `[[Name]]`.
pub open spec fn reserved_pattern() -> Seq<char> {
    "\\[\\[([A-Za-z0-9_]+)\\]\\]"@
}

/// `regex::Regex::new` with `pattern`, then `regex::Regex::captures` on
/// `s`: the first group of the leftmost match, if there is a match. The
/// contract is stated for the two patterns that the library uses, which
/// compile; for them it states the crate's leftmost-first matching, where a
/// match is fixed by where it starts since the name characters exclude `]`.
#[verifier::external_body]
fn first_capture(pattern: &str, s: &str) -> (r: Option<String>)
    requires
        pattern@ == property_pattern() || pattern@ == reserved_pattern(),
    ensures
        pattern@ == property_pattern() ==> match r {
            Some(p) => property_reference(s@) == Some(p@),
            None => property_reference(s@) is None,
        },
        pattern@ == reserved_pattern() ==> match r {
            Some(p) => reserved_reference(s@) == Some(p@),
            None => reserved_reference(s@) is None,
        },
{
    let regex = regex::Regex::new(pattern).unwrap();
    regex.captures(s).and_then(|c| c.get(1)).map(|m| m.as_str().to_string())
}

/// The name in the leftmost property reference `[Name]` of `s`.
fn capture_property_reference(s: &str) -> (r: Option<String>)
    ensures
        match r {
            Some(p) => property_reference(s@) == Some(p@),
            None => property_reference(s@) is None,
        },
{
    first_capture("\\[([A-Za-z0-9_]+)\\]", s)
}

/// The name in the leftmost reserved reference `[[Name]]` of `s`.
fn capture_reserved_reference(s: &str) -> (r: Option<String>)
    ensures
        match r {
            Some(p) => reserved_reference(s@) == Some(p@),
            None => reserved_reference(s@) is None,
        },
{
    first_capture("\\[\\[([A-Za-z0-9_]+)\\]\\]", s)
}

/// A path whose components every platform reads alike: no `\`, no `:`, and
/// not starting with `//`. It may start with `/`.
pub open spec fn portable_path(s: Seq<char>) -> bool {
    &&& forall|i: int| 0 <= i < s.len() ==> #[trigger] s[i] != '\\' && s[i] != ':'
    &&& !(s.len() >= 2 && s[0] == '/' && s[1] == '/')
}

/// A path that starts at the root: its first character is `/`.
pub open spec fn rooted_path(s: Seq<char>) -> bool {
    s.len() > 0 && s[0] == '/'
}

/// The pieces of `s` between the separators `/`.
pub open spec fn path_pieces(s: Seq<char>) -> Seq<Seq<char>>
    decreases s.len(),
{
    if s.len() == 0 {
        seq![Seq::empty()]
    } else {
        let rest = path_pieces(s.drop_last());
        if s.last() == '/' {
            rest.push(Seq::empty())
        } else {
            rest.update(rest.len() - 1, rest.last().push(s.last()))
        }
    }
}

/// The pieces that name a component: neither empty nor `.`.
pub open spec fn normal_pieces(pieces: Seq<Seq<char>>) -> Seq<Seq<char>> {
    pieces.filter(|p: Seq<char>| p.len() > 0 && p != seq!['.'])
}

/// The components of a path: its pieces, with repeated and trailing
/// separators and the `.` pieces dropped, except a `.` at the start; a path
/// that starts at the root has the root `/` as its first component.
#[verifier::opaque]
pub open spec fn path_components_spec(s: Seq<char>) -> Seq<Seq<char>> {
    let pieces = path_pieces(s);
    if rooted_path(s) {
        seq![seq!['/']] + normal_pieces(pieces)
    } else if pieces[0] == seq!['.'] {
        seq![seq!['.']] + normal_pieces(pieces.drop_first())
    } else {
        normal_pieces(pieces)
    }
}

/// The empty path has no components.
pub proof fn lemma_empty_path_components()
    ensures
        path_components_spec(Seq::<char>::empty()).len() == 0,
{
    reveal(path_components_spec);
    let pieces = path_pieces(Seq::<char>::empty());
    assert(pieces =~= seq![Seq::<char>::empty()]);
    assert(pieces[0] != seq!['.']) by {
        assert(pieces[0].len() == 0);
    }
    reveal_with_fuel(Seq::filter, 2);
    assert(pieces.drop_last() =~= Seq::<Seq<char>>::empty());
    assert(normal_pieces(pieces).len() == 0);
}

/// `std::path::Path::components`, each component as a string. For a path
/// that every platform reads alike (no `\`, no `:`, not starting with
/// `//`), the documentation gives the components: the root first when the
/// path starts with `/`, then the pieces between separators, repeated and
/// trailing separators and `.` pieces dropped, a leading `.` kept. The
/// string of the root component differs by platform and is not stated; of
/// other paths, nothing is stated.
#[verifier::external_body]
fn std_path_components(s: &str) -> (r: Vec<String>)
    ensures
        portable_path(s@) ==> {
            &&& r@.len() == path_components_spec(s@).len()
            &&& forall|i: int|
                0 <= i < r@.len() && !(i == 0 && rooted_path(s@)) ==> #[trigger] r@[i]@ == path_components_spec(s@)[i]
        },
{
    std::path::Path::new(s).components().map(|c| c.as_os_str().to_string_lossy().into_owned()).collect()
}

/// The components of the path `s`, each as a string, the root written `/`.
pub(crate) fn path_components(s: &str) -> (r: Vec<String>)
    ensures
        portable_path(s@) ==> r@.map_values(|c: String| c@) == path_components_spec(s@),
{
    let mut r = std_path_components(s);
    let rooted = s.unicode_len() > 0 && s.get_char(0) == '/';
    let ghost before = r@;
    assert(rooted == rooted_path(s@));
    if rooted && r.len() > 0 {
        r.set(0, String::from_str("/"));
        proof {
            reveal_strlit("/");
            assert("/"@ =~= seq!['/']);
            assert(r@[0]@ == seq!['/']);
        }
    }
    proof {
        if portable_path(s@) {
            let spec = path_components_spec(s@);
            if rooted_path(s@) {
                reveal(path_components_spec);
                assert(spec[0] == seq!['/']);
                assert(spec.len() > 0);
            }
            assert forall|i: int| 0 <= i < r@.len() implies #[trigger] r@[i]@ == spec[i] by {
                if !(i == 0 && rooted_path(s@)) {
                    assert(r@[i] == before[i]);
                }
            }
            assert(r@.map_values(|c: String| c@) =~= spec);
        }
    }
    r
}

/// What a list of properties says, as (name, value) pairs.
pub open spec fn pairs_view(props: Seq<(String, String)>) -> Seq<(Seq<char>, Seq<char>)> {
    props.map_values(|p: (String, String)| (p.0@, p.1@))
}

/// The value of the first property named `name`.
pub open spec fn lookup_property(props: Seq<(Seq<char>, Seq<char>)>, name: Seq<char>) -> Option<Seq<char>>
    decreases props.len(),
{
    if props.len() == 0 {
        None
    } else if props[0].0 == name {
        Some(props[0].1)
    } else {
        lookup_property(props.drop_first(), name)
    }
}

/// Every property value is a path that every platform reads alike.
pub open spec fn portable_values(props: Seq<(Seq<char>, Seq<char>)>) -> bool {
    forall|i: int| 0 <= i < props.len() ==> portable_path(#[trigger] props[i].1)
}

/// The value of a reserved reference: the name of the system folder it
/// names, if it names one.
pub open spec fn reserved_value(c: Seq<char>) -> Option<Result<Seq<char>, MsiBuilderError>> {
    match reserved_reference(c) {
        Some(p) => match parse_folder(p) {
            Some(f) => Some(Ok(folder_name(f))),
            None => Some(Err(MsiBuilderError::InvalidReservedProperty)),
        },
        None => None,
    }
}

/// What the component `c` stands for, with at most `depth` nested property
/// expansions: a reserved reference stands for its folder's name; a
/// component with a property reference stands for the components of that
/// property's value, each resolved in turn; any other component stands for
/// itself.
pub open spec fn component_values(props: Seq<(Seq<char>, Seq<char>)>, c: Seq<char>, depth: nat) -> Result<
    Seq<Seq<char>>,
    MsiBuilderError,
>
    decreases depth, 0nat,
{
    match reserved_value(c) {
        Some(Ok(name)) => Ok(seq![name]),
        Some(Err(e)) => Err(e),
        None => match property_reference(c) {
            Some(p) => match lookup_property(props, p) {
                Some(v) => if depth == 0 {
                    Err(MsiBuilderError::PropertyCycle)
                } else {
                    components_values(props, path_components_spec(v), (depth - 1) as nat)
                },
                None => Err(MsiBuilderError::PropertyNotFound),
            },
            None => Ok(seq![c]),
        },
    }
}

/// What the components `cs` stand for, in order; the first failure stops.
pub open spec fn components_values(props: Seq<(Seq<char>, Seq<char>)>, cs: Seq<Seq<char>>, depth: nat) -> Result<
    Seq<Seq<char>>,
    MsiBuilderError,
>
    decreases depth, cs.len(),
{
    if cs.len() == 0 {
        Ok(Seq::empty())
    } else {
        match components_values(props, cs.drop_last(), depth) {
            Err(e) => Err(e),
            Ok(a) => match component_values(props, cs.last(), depth) {
                Err(e) => Err(e),
                Ok(b) => Ok(a + b),
            },
        }
    }
}

/// Every property value that resolving the component `c` reaches, with at
/// most `depth` nested expansions, is a path that every platform reads
/// alike.
pub open spec fn reaches_portable(props: Seq<(Seq<char>, Seq<char>)>, c: Seq<char>, depth: nat) -> bool
    decreases depth, 0nat,
{
    match reserved_value(c) {
        Some(_) => true,
        None => match property_reference(c) {
            Some(p) => match lookup_property(props, p) {
                Some(v) => depth == 0 || (portable_path(v) && all_reach_portable(
                    props,
                    path_components_spec(v),
                    (depth - 1) as nat,
                )),
                None => true,
            },
            None => true,
        },
    }
}

/// Every property value that resolving any of the components `cs` reaches
/// is a path that every platform reads alike.
pub open spec fn all_reach_portable(props: Seq<(Seq<char>, Seq<char>)>, cs: Seq<Seq<char>>, depth: nat) -> bool
    decreases depth, cs.len(),
{
    if cs.len() == 0 {
        true
    } else {
        all_reach_portable(props, cs.drop_last(), depth) && reaches_portable(props, cs.last(), depth)
    }
}

/// Every platform reads alike the path `path` and every property value
/// that resolving its components reaches.
pub open spec fn path_resolves_portably(props: Seq<(Seq<char>, Seq<char>)>, path: Seq<char>) -> bool {
    portable_path(path) && all_reach_portable(props, path_components_spec(path), props.len())
}

/// What holds of all the components holds of each, and of every prefix.
pub proof fn lemma_all_reach_each(props: Seq<(Seq<char>, Seq<char>)>, cs: Seq<Seq<char>>, depth: nat)
    requires
        all_reach_portable(props, cs, depth),
    ensures
        forall|i: int| 0 <= i < cs.len() ==> reaches_portable(props, #[trigger] cs[i], depth),
        forall|k: int| 0 <= k <= cs.len() ==> all_reach_portable(props, #[trigger] cs.take(k), depth),
    decreases cs.len(),
{
    if cs.len() > 0 {
        let rest = cs.drop_last();
        lemma_all_reach_each(props, rest, depth);
        assert forall|i: int| 0 <= i < cs.len() implies reaches_portable(props, #[trigger] cs[i], depth) by {
            if i < rest.len() {
                assert(rest[i] == cs[i]);
            }
        }
        assert forall|k: int| 0 <= k <= cs.len() implies all_reach_portable(props, #[trigger] cs.take(k), depth) by {
            if k < cs.len() {
                assert(cs.take(k) =~= rest.take(k));
            } else {
                assert(cs.take(k) =~= cs);
            }
        }
    } else {
        assert forall|k: int| 0 <= k <= cs.len() implies all_reach_portable(props, #[trigger] cs.take(k), depth) by {
            assert(cs.take(k) =~= cs);
        }
    }
}

/// Every property value that resolving the component `c` reaches, with at
/// most `depth` nested expansions, has at least one component.
pub open spec fn reaches_nonempty(props: Seq<(Seq<char>, Seq<char>)>, c: Seq<char>, depth: nat) -> bool
    decreases depth, 0nat,
{
    match reserved_value(c) {
        Some(_) => true,
        None => match property_reference(c) {
            Some(p) => match lookup_property(props, p) {
                Some(v) => depth == 0 || (path_components_spec(v).len() > 0 && all_reach_nonempty(
                    props,
                    path_components_spec(v),
                    (depth - 1) as nat,
                )),
                None => true,
            },
            None => true,
        },
    }
}

/// Every property value that resolving any of the components `cs` reaches
/// has at least one component.
pub open spec fn all_reach_nonempty(props: Seq<(Seq<char>, Seq<char>)>, cs: Seq<Seq<char>>, depth: nat) -> bool
    decreases depth, cs.len(),
{
    if cs.len() == 0 {
        true
    } else {
        all_reach_nonempty(props, cs.drop_last(), depth) && reaches_nonempty(props, cs.last(), depth)
    }
}

/// A component that resolves stands for at least one value, when every
/// property value that its resolution reaches has at least one component.
pub proof fn lemma_resolution_nonempty(props: Seq<(Seq<char>, Seq<char>)>, c: Seq<char>, depth: nat)
    requires
        reaches_nonempty(props, c, depth),
        component_values(props, c, depth) is Ok,
    ensures
        component_values(props, c, depth).unwrap().len() > 0,
    decreases depth, 0nat,
{
    match reserved_value(c) {
        Some(_) => {},
        None => match property_reference(c) {
            Some(p) => match lookup_property(props, p) {
                Some(v) => {
                    if depth > 0 {
                        lemma_resolutions_nonempty(props, path_components_spec(v), (depth - 1) as nat);
                    }
                },
                None => {},
            },
            None => {},
        },
    }
}

/// Components that resolve stand for at least as many values as there are
/// components, when every property value that their resolution reaches has
/// at least one component.
pub proof fn lemma_resolutions_nonempty(props: Seq<(Seq<char>, Seq<char>)>, cs: Seq<Seq<char>>, depth: nat)
    requires
        all_reach_nonempty(props, cs, depth),
        components_values(props, cs, depth) is Ok,
    ensures
        components_values(props, cs, depth).unwrap().len() >= cs.len(),
    decreases depth, cs.len(),
{
    if cs.len() > 0 {
        lemma_resolutions_nonempty(props, cs.drop_last(), depth);
        lemma_resolution_nonempty(props, cs.last(), depth);
    }
}

/// When every property value is portable, so is every value reached.
pub proof fn lemma_portable_values_reach(props: Seq<(Seq<char>, Seq<char>)>, cs: Seq<Seq<char>>, depth: nat)
    requires
        portable_values(props),
    ensures
        all_reach_portable(props, cs, depth),
        forall|c: Seq<char>| #[trigger] reaches_portable(props, c, depth),
    decreases depth, cs.len(),
{
    assert forall|c: Seq<char>| #[trigger] reaches_portable(props, c, depth) by {
        match reserved_value(c) {
            Some(_) => {},
            None => match property_reference(c) {
                Some(p) => {
                    lemma_lookup_portable(props, p);
                    if depth > 0 {
                        if let Some(v) = lookup_property(props, p) {
                            lemma_portable_values_reach(props, path_components_spec(v), (depth - 1) as nat);
                        }
                    }
                },
                None => {},
            },
        }
    }
    if cs.len() > 0 {
        lemma_portable_values_reach(props, cs.drop_last(), depth);
        assert(reaches_portable(props, cs.last(), depth));
    }
}

/// A component without `[` holds no reference: it stands for itself.
pub proof fn lemma_plain_component(props: Seq<(Seq<char>, Seq<char>)>, c: Seq<char>, depth: nat)
    requires
        forall|i: int| 0 <= i < c.len() ==> c[i] != '[',
    ensures
        component_values(props, c, depth) == Ok::<Seq<Seq<char>>, MsiBuilderError>(seq![c]),
{
    reveal(reserved_reference);
    reveal(property_reference);
    assert(!exists|i: int, j: int| double_bracket_at(c, i, j));
    assert(!exists|i: int, j: int| bracket_at(c, i, j));
}

/// After a property is set under a name that no property had, looking the
/// name up gives the value set.
pub proof fn lemma_property_read_after_write(entries: Seq<(Seq<char>, Seq<char>)>, key: Seq<char>, value: Seq<char>)
    requires
        forall|i: int| 0 <= i < entries.len() ==> (#[trigger] entries[i]).0 != key,
    ensures
        lookup_property(entries.push((key, value)), key) == Some(value),
    decreases entries.len(),
{
    if entries.len() > 0 {
        let rest = entries.drop_first();
        assert(entries.push((key, value)).drop_first() =~= rest.push((key, value)));
        assert forall|i: int| 0 <= i < rest.len() implies (#[trigger] rest[i]).0 != key by {
            assert(rest[i] == entries[i + 1]);
        }
        lemma_property_read_after_write(rest, key, value);
    }
}

/// The strings of a list.
pub open spec fn strings_view(v: Seq<String>) -> Seq<Seq<char>> {
    v.map_values(|s: String| s@)
}

/// A result of strings, as character sequences.
pub open spec fn result_view(r: Result<Vec<String>, MsiBuilderError>) -> Result<Seq<Seq<char>>, MsiBuilderError> {
    match r {
        Ok(v) => Ok(strings_view(v@)),
        Err(e) => Err(e),
    }
}

/// The name of the system folder that a reserved reference `[[Name]]` in
/// `prop` names: `Ok(None)` when `prop` holds no reserved reference, and
/// `InvalidReservedProperty` when the name is not a system folder.
pub fn get_reserved_property(prop: &str) -> (r: Result<Option<String>, MsiBuilderError>)
    ensures
        match reserved_value(prop@) {
            Some(Ok(name)) => r matches Ok(Some(s)) && s@ == name,
            Some(Err(e)) => r == Err::<Option<String>, MsiBuilderError>(e),
            None => r matches Ok(None),
        },
{
    match capture_reserved_reference(prop) {
        Some(property) => match SystemFolder::from_str(property.as_str()) {
            Some(folder) => Ok(Some(folder.to_string())),
            None => Err(MsiBuilderError::InvalidReservedProperty),
        },
        None => Ok(None),
    }
}

fn lookup<'a>(props: &'a Vec<(String, String)>, name: &str) -> (r: Option<&'a String>)
    ensures
        match lookup_property(pairs_view(props@), name@) {
            Some(v) => r matches Some(s) && s@ == v,
            None => r is None,
        },
{
    let ghost view = pairs_view(props@);
    let mut i: usize = 0;
    assert(view.skip(0) =~= view);
    while i < props.len()
        invariant
            view == pairs_view(props@),
            i <= props.len(),
            lookup_property(view, name@) == lookup_property(view.skip(i as int), name@),
        decreases props.len() - i,
    {
        assert(view.skip(i as int)[0] == view[i as int]);
        assert(view[i as int] == (props@[i as int].0@, props@[i as int].1@));
        if crate::text::str_eq(props[i].0.as_str(), name) {
            return Some(&props[i].1);
        }
        assert(view.skip(i as int).drop_first() =~= view.skip(i + 1));
        i = i + 1;
    }
    assert(view.skip(i as int).len() == 0);
    None
}

/// What the component `component` stands for, with at most `depth` nested
/// property expansions; see `component_values`.
fn component_values_at(component: &str, properties: &Vec<(String, String)>, depth: usize) -> (r: Result<
    Vec<String>,
    MsiBuilderError,
>)
    ensures
        reaches_portable(pairs_view(properties@), component@, depth as nat) ==> result_view(r) == component_values(
            pairs_view(properties@),
            component@,
            depth as nat,
        ),
    decreases depth, 0nat,
{
    match get_reserved_property(component) {
        Ok(Some(name)) => {
            let mut v: Vec<String> = Vec::new();
            v.push(name);
            proof {
                assert(strings_view(v@) =~= seq![name@]);
            }
            return Ok(v);
        },
        Err(e) => {
            return Err(e);
        },
        Ok(None) => {},
    }
    match capture_property_reference(component) {
        Some(property) => match lookup(properties, property.as_str()) {
            Some(value) => {
                if depth == 0 {
                    return Err(MsiBuilderError::PropertyCycle);
                }
                let parts = path_components(value.as_str());
                components_values_at(&parts, properties, depth - 1)
            },
            None => Err(MsiBuilderError::PropertyNotFound),
        },
        None => {
            let mut v: Vec<String> = Vec::new();
            v.push(crate::text::owned(component));
            proof {
                assert(strings_view(v@) =~= seq![component@]);
            }
            Ok(v)
        },
    }
}

/// What the components `components` stand for, in order; the first failure
/// stops.
fn components_values_at(components: &Vec<String>, properties: &Vec<(String, String)>, depth: usize) -> (r: Result<
    Vec<String>,
    MsiBuilderError,
>)
    ensures
        all_reach_portable(pairs_view(properties@), strings_view(components@), depth as nat) ==> result_view(r)
            == components_values(pairs_view(properties@), strings_view(components@), depth as nat),
    decreases depth, components@.len(),
{
    let ghost props = pairs_view(properties@);
    let ghost cs = strings_view(components@);
    let mut out: Vec<String> = Vec::new();
    let mut i: usize = 0;
    proof {
        if all_reach_portable(props, cs, depth as nat) {
            lemma_all_reach_each(props, cs, depth as nat);
        }
    }
    assert(cs.take(0) =~= Seq::<Seq<char>>::empty());
    assert(strings_view(out@) =~= Seq::<Seq<char>>::empty());
    assert(components_values(props, Seq::<Seq<char>>::empty(), depth as nat) == Ok::<Seq<Seq<char>>, MsiBuilderError>(Seq::empty()));
    while i < components.len()
        invariant
            props == pairs_view(properties@),
            cs == strings_view(components@),
            i <= components.len(),
            all_reach_portable(props, cs, depth as nat) ==> forall|j: int|
                0 <= j < cs.len() ==> reaches_portable(props, #[trigger] cs[j], depth as nat),
            all_reach_portable(props, cs, depth as nat) ==> components_values(props, cs.take(i as int), depth as nat) == Ok::<
                Seq<Seq<char>>,
                MsiBuilderError,
            >(strings_view(out@)),
        decreases components.len() - i,
    {
        assert(cs.take(i + 1).drop_last() =~= cs.take(i as int));
        assert(cs.take(i + 1).last() == components@[i as int]@);
        match component_values_at(components[i].as_str(), properties, depth) {
            Ok(values) => {
                let ghost before = strings_view(out@);
                let ghost added = strings_view(values@);
                let mut values = values;
                out.append(&mut values);
                proof {
                    assert(strings_view(out@) =~= before + added);
                }
            },
            Err(e) => {
                proof {
                    if all_reach_portable(props, cs, depth as nat) {
                        lemma_prefix_failure(props, cs, i + 1, depth as nat);
                    }
                }
                return Err(e);
            },
        }
        i = i + 1;
    }
    assert(cs.take(components.len() as int) =~= cs);
    Ok(out)
}

/// A failure in resolving a prefix of the components is the failure of
/// resolving them all.
proof fn lemma_prefix_failure(props: Seq<(Seq<char>, Seq<char>)>, cs: Seq<Seq<char>>, k: int, depth: nat)
    requires
        0 <= k <= cs.len(),
        components_values(props, cs.take(k), depth) is Err,
    ensures
        components_values(props, cs, depth) == components_values(props, cs.take(k), depth),
    decreases cs.len() - k,
{
    if k < cs.len() {
        assert(cs.take(k + 1).drop_last() =~= cs.take(k));
        lemma_prefix_failure(props, cs, k + 1, depth);
    } else {
        assert(cs.take(k) =~= cs);
    }
}

/// The property named `name` has a portable value when every value is.
proof fn lemma_lookup_portable(props: Seq<(Seq<char>, Seq<char>)>, name: Seq<char>)
    requires
        portable_values(props),
    ensures
        lookup_property(props, name) matches Some(v) ==> portable_path(v),
    decreases props.len(),
{
    if props.len() > 0 && props[0].0 != name {
        assert forall|i: int| 0 <= i < props.drop_first().len() implies portable_path(#[trigger] props.drop_first()[i].1) by {
            assert(props.drop_first()[i] == props[i + 1]);
        }
        lemma_lookup_portable(props.drop_first(), name);
    }
}

/// What the path component `component` stands for, given the properties
/// `properties` (name, value): the system folder of a reserved reference
/// `[[Name]]`, the resolved components of the value of a referenced property
/// `[Name]`, or the component itself. Fails with `InvalidReservedProperty`
/// for a reserved reference to no system folder, `PropertyNotFound` for a
/// reference to no property, and `PropertyCycle` when references nest deeper
/// than there are properties, which happens only when a property refers back
/// to itself. The result is stated when every property value that the
/// resolution reaches is a path that every platform reads alike.
pub fn get_component_value(component: &str, properties: &Vec<(String, String)>) -> (r: Result<
    Vec<String>,
    MsiBuilderError,
>)
    ensures
        reaches_portable(pairs_view(properties@), component@, properties@.len()) ==> result_view(r) == component_values(
            pairs_view(properties@),
            component@,
            properties@.len(),
        ),
{
    component_values_at(component, properties, properties.len())
}

/// What the path components `components` stand for, in order, given the
/// properties `properties`; see `get_component_value`.
pub fn resolve_components(components: &Vec<String>, properties: &Vec<(String, String)>) -> (r: Result<
    Vec<String>,
    MsiBuilderError,
>)
    ensures
        all_reach_portable(pairs_view(properties@), strings_view(components@), properties@.len()) ==> result_view(r)
            == components_values(pairs_view(properties@), strings_view(components@), properties@.len()),
{
    components_values_at(components, properties, properties.len())
}

/// The last value that the component `c` stands for, if resolving it
/// succeeds and gives any.
pub open spec fn resolved_last(props: Seq<(Seq<char>, Seq<char>)>, c: Seq<char>) -> Option<Seq<char>> {
    match component_values(props, c, props.len()) {
        Ok(values) => if values.len() > 0 {
            Some(values.last())
        } else {
            None
        },
        Err(_) => None,
    }
}

/// The last value that the last component of `path` stands for; see
/// `get_component_value`.
pub open spec fn last_component_spec(props: Seq<(Seq<char>, Seq<char>)>, path: Seq<char>) -> Option<Seq<char>> {
    let components = path_components_spec(path);
    if components.len() == 0 {
        None
    } else {
        resolved_last(props, components.last())
    }
}

/// The last value that the component `component` stands for, given the
/// properties `properties`; `None` when resolving it fails or gives
/// nothing.
pub fn resolve_last(component: &str, properties: &Vec<(String, String)>) -> (r: Option<String>)
    ensures
        reaches_portable(pairs_view(properties@), component@, properties@.len()) ==> match r {
            Some(s) => resolved_last(pairs_view(properties@), component@) == Some(s@),
            None => resolved_last(pairs_view(properties@), component@) is None,
        },
{
    match get_component_value(component, properties) {
        Ok(values) => {
            if values.len() == 0 {
                None
            } else {
                let n = values.len() - 1;
                Some(values[n].clone())
            }
        },
        Err(_) => None,
    }
}

/// The last value that the last component of `path` stands for, given the
/// properties `properties`; `None` when resolving that component fails or
/// gives nothing. The result is stated for paths that every platform reads
/// alike whose resolution reaches only such property values.
pub fn get_last_component(path: &str, properties: &Vec<(String, String)>) -> (r: Option<String>)
    requires
        path@.len() > 0,
    ensures
        path_resolves_portably(pairs_view(properties@), path@) ==> match r {
            Some(s) => last_component_spec(pairs_view(properties@), path@) == Some(s@),
            None => last_component_spec(pairs_view(properties@), path@) is None,
        },
{
    let components = path_components(path);
    if components.len() == 0 {
        return None;
    }
    let last = components.len() - 1;
    proof {
        if path_resolves_portably(pairs_view(properties@), path@) {
            assert(strings_view(components@).last() == components@[last as int]@);
            lemma_all_reach_each(pairs_view(properties@), path_components_spec(path@), properties@.len());
            assert(path_components_spec(path@)[last as int] == components@[last as int]@);
        }
    }
    resolve_last(components[last].as_str(), properties)
}

} // verus!
