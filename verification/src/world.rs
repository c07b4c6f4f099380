//! Map manifests: the format's kinds and the checks a manifest must pass
//! before it is loaded. Checks on coordinates and scales are measured by the
//! caller and arrive here as finished issues; this module decides which
//! issues a manifest has and in what order they are reported.
use vstd::prelude::*;
use crate::ids::{valid_id, validate_id};
use crate::text::{zero_padded, zero_padded_string};
use crate::text::{
    chars_of, concat, debug_quoted, debug_str, decimal, decimal_string, owned, same_text, trim,
    trimmed,
};

verus! {

/// Current manifest format version. The loader rejects unknown versions.
pub const CURRENT_VERSION: u32 = 2;

/// Legacy version 1 format constant for backward compatibility checks.
pub const LEGACY_VERSION_1: u32 = 1;

/// Kind of walkable surface.
#[derive(Debug, Clone, Copy, PartialEq, Eq, Structural)]
pub enum SurfaceKind {
    /// Flat surface with constant height.
    Flat,
    /// Mesh-based surface with variable height.
    Mesh,
    /// Flat mesh (constant height but visual mesh).
    FlatMesh,
}

/// Kind of traversal object.
#[derive(Debug, Clone, Copy, PartialEq, Eq, Structural)]
pub enum TraversalKind {
    Ramp,
    Stairs,
}

/// Kind of blocking object.
#[derive(Debug, Clone, Copy, PartialEq, Eq, Structural)]
pub enum BlockerKind {
    /// Axis-aligned box blocker.
    Box,
    /// Cylinder blocker.
    Cylinder,
}

/// One problem found in a manifest, as the author will read it.
#[derive(Debug)]
pub struct ValidationIssue {
    pub message: String,
}

impl ValidationIssue {
    /// An issue with the given message.
    pub fn new(message: String) -> (r: ValidationIssue)
        ensures
            r.message@ == message@,
    {
        ValidationIssue { message }
    }

    /// A copy of this issue.
    pub fn duplicate(&self) -> (r: ValidationIssue)
        ensures
            r.message@ == self.message@,
    {
        ValidationIssue { message: self.message.clone() }
    }
}

/// The messages of a list of issues, in order.
pub open spec fn issue_texts(issues: Seq<ValidationIssue>) -> Seq<Seq<char>> {
    issues.map_values(|issue: ValidationIssue| issue.message@)
}

/// Whether a manifest of this version can be read.
pub open spec fn known_version(version: u32) -> bool {
    version == CURRENT_VERSION || version == LEGACY_VERSION_1
}

/// Whether the id at `i` already occurs earlier in `ids`.
pub open spec fn repeats_earlier(ids: Seq<Seq<char>>, i: int) -> bool {
    exists|j: int| 0 <= j < i && ids[j] == ids[i]
}

/// The views of a list of strings.
pub open spec fn texts(v: Seq<String>) -> Seq<Seq<char>> {
    v.map_values(|s: String| s@)
}

/// The index of the first id that repeats an earlier one, if any.
pub fn first_repeat(ids: &[String]) -> (r: Option<usize>)
    ensures
        match r {
            Some(i) => i < ids@.len() && repeats_earlier(texts(ids@), i as int) && forall|k: int|
                0 <= k < i ==> !repeats_earlier(texts(ids@), k),
            None => forall|k: int| 0 <= k < ids@.len() ==> !repeats_earlier(texts(ids@), k),
        },
{
    let ghost t = texts(ids@);
    let mut i: usize = 0;
    while i < ids.len()
        invariant
            i <= ids@.len(),
            t == texts(ids@),
            forall|k: int| 0 <= k < i ==> !repeats_earlier(t, k),
        decreases ids@.len() - i,
    {
        let mut j: usize = 0;
        while j < i
            invariant
                j <= i < ids@.len(),
                t == texts(ids@),
                forall|k: int| 0 <= k < i ==> !repeats_earlier(t, k),
                forall|k: int| 0 <= k < j ==> t[k] != t[i as int],
            decreases i - j,
        {
            if same_text(ids[j].as_str(), ids[i].as_str()) {
                assert(t[j as int] == ids@[j as int]@ && t[i as int] == ids@[i as int]@);
                assert(t[j as int] == t[i as int]);
                return Some(i);
            }
            assert(t[j as int] == ids@[j as int]@ && t[i as int] == ids@[i as int]@);
            j = j + 1;
        }
        i = i + 1;
    }
    None
}

// ---------------------------------------------------------------------------
// Whole-manifest check: the first error stops it
// ---------------------------------------------------------------------------

/// The error for an unknown version in a whole-manifest check.
pub open spec fn unknown_version_error(version: u32) -> Seq<char> {
    "Unknown manifest version: "@ + decimal(version as nat)
}

/// The error for a surface id that occurs twice.
pub open spec fn duplicate_surface_error(id: Seq<char>) -> Seq<char> {
    "Duplicate surface id: "@ + id
}

/// The error for a blocker id that occurs twice.
pub open spec fn duplicate_blocker_error(id: Seq<char>) -> Seq<char> {
    "Duplicate blocker id: "@ + id
}

/// The first error of a manifest, checked in this order: version, map id,
/// geometry (bounds, world metrics and traversals, measured by the caller),
/// repeated surface ids, repeated blocker ids.
pub open spec fn manifest_error(
    version: u32,
    map_id: Seq<char>,
    geometry: Result<(), Seq<char>>,
    surface_ids: Seq<Seq<char>>,
    blocker_ids: Seq<Seq<char>>,
) -> Option<Seq<char>> {
    if !known_version(version) {
        Some(unknown_version_error(version))
    } else if map_id.len() == 0 {
        Some("map_id must not be empty"@)
    } else if geometry is Err {
        Some(geometry->Err_0)
    } else if exists|i: int| 0 <= i < surface_ids.len() && repeats_earlier(surface_ids, i) {
        let i = choose|i: int| 0 <= i < surface_ids.len() && repeats_earlier(surface_ids, i) && forall|k: int|
            0 <= k < i ==> !repeats_earlier(surface_ids, k);
        Some(duplicate_surface_error(surface_ids[i]))
    } else if exists|i: int| 0 <= i < blocker_ids.len() && repeats_earlier(blocker_ids, i) {
        let i = choose|i: int| 0 <= i < blocker_ids.len() && repeats_earlier(blocker_ids, i) && forall|k: int|
            0 <= k < i ==> !repeats_earlier(blocker_ids, k);
        Some(duplicate_blocker_error(blocker_ids[i]))
    } else {
        None
    }
}

/// Validates a manifest for basic correctness and reports the first error.
/// `geometry` is the verdict on its bounds, world metrics and traversals.
pub fn validate_manifest(
    version: u32,
    map_id: &str,
    geometry: Result<(), String>,
    surface_ids: &[String],
    blocker_ids: &[String],
) -> (r: Result<(), String>)
    ensures
        match manifest_error(
            version,
            map_id@,
            match geometry {
                Ok(_) => Ok(()),
                Err(e) => Err(e@),
            },
            texts(surface_ids@),
            texts(blocker_ids@),
        ) {
            Some(e) => r is Err && r->Err_0@ == e,
            None => r is Ok,
        },
{
    proof {
        reveal_strlit("map_id must not be empty");
        reveal_strlit("Unknown manifest version: ");
        reveal_strlit("Duplicate surface id: ");
        reveal_strlit("Duplicate blocker id: ");
    }
    if version != CURRENT_VERSION && version != LEGACY_VERSION_1 {
        let digits = decimal_string(version as u64);
        return Err(concat(owned("Unknown manifest version: "), digits.as_str()));
    }
    if map_id.unicode_len() == 0 {
        return Err(owned("map_id must not be empty"));
    }
    match geometry {
        Err(e) => {
            return Err(e);
        },
        Ok(_) => {},
    }
    let ghost s = texts(surface_ids@);
    let ghost b = texts(blocker_ids@);
    match first_repeat(surface_ids) {
        Some(i) => {
            assert(0 <= i < s.len() && repeats_earlier(s, i as int));
            let ghost c = choose|c: int| 0 <= c < s.len() && repeats_earlier(s, c) && forall|k: int|
                0 <= k < c ==> !repeats_earlier(s, k);
            assert(c == i) by {
                if c < i {
                    assert(!repeats_earlier(s, c));
                } else if c > i {
                    assert(!repeats_earlier(s, i as int));
                }
            }
            assert(s[i as int] == surface_ids@[i as int]@);
            return Err(concat(owned("Duplicate surface id: "), surface_ids[i].as_str()));
        },
        None => {},
    }
    match first_repeat(blocker_ids) {
        Some(i) => {
            assert(0 <= i < b.len() && repeats_earlier(b, i as int));
            let ghost c = choose|c: int| 0 <= c < b.len() && repeats_earlier(b, c) && forall|k: int|
                0 <= k < c ==> !repeats_earlier(b, k);
            assert(c == i) by {
                if c < i {
                    assert(!repeats_earlier(b, c));
                } else if c > i {
                    assert(!repeats_earlier(b, i as int));
                }
            }
            assert(b[i as int] == blocker_ids@[i as int]@);
            return Err(concat(owned("Duplicate blocker id: "), blocker_ids[i].as_str()));
        },
        None => {},
    }
    Ok(())
}

// ---------------------------------------------------------------------------
// Structural validation: every issue is reported
// ---------------------------------------------------------------------------

/// What the caller knows of one prop: its id and kind, whether the placeable
/// catalog knows that kind, and the issues found in its placement
/// (non-positive scales, a position outside the map bounds), in report order.
#[derive(Debug)]
pub struct PropCheck {
    pub id: String,
    pub kind: String,
    pub kind_known: bool,
    pub placement_issues: Vec<ValidationIssue>,
}

/// The ids of a list of props.
pub open spec fn prop_ids(props: Seq<PropCheck>) -> Seq<Seq<char>> {
    props.map_values(|p: PropCheck| p.id@)
}

/// The issue for an unknown manifest version.
pub open spec fn version_issue_text(version: u32) -> Seq<char> {
    "unknown manifest version "@ + decimal(version as nat) + " (expected "@ + decimal(
        CURRENT_VERSION as nat,
    ) + ")"@
}

/// The issue for a map id with characters outside `[A-Za-z0-9_-]`.
pub open spec fn invalid_map_id_text(map_id: Seq<char>) -> Seq<char> {
    "map_id "@ + debug_quoted(map_id) + " contains invalid characters (allowed: [A-Za-z0-9_-])"@
}

/// The issue for a prop whose id is not a valid identifier.
pub open spec fn invalid_prop_id_text(id: Seq<char>) -> Seq<char> {
    "prop id "@ + debug_quoted(id) + " is not a valid identifier"@
}

/// The issue for a prop id used by an earlier prop.
pub open spec fn duplicate_prop_id_text(id: Seq<char>) -> Seq<char> {
    "duplicate prop id "@ + debug_quoted(id)
}

/// The issue for a prop whose kind the catalog does not know.
pub open spec fn unknown_kind_text(id: Seq<char>, kind: Seq<char>) -> Seq<char> {
    "prop "@ + debug_quoted(id) + " has unknown kind "@ + debug_quoted(kind)
}

/// The issues of the manifest's header: version, map id, display name.
pub open spec fn header_texts(version: u32, map_id: Seq<char>, display_name: Seq<char>) -> Seq<
    Seq<char>,
> {
    (if !known_version(version) {
        seq![version_issue_text(version)]
    } else {
        Seq::empty()
    }) + (if trim(map_id).len() == 0 {
        seq!["map_id is empty"@]
    } else if !valid_id(map_id) {
        seq![invalid_map_id_text(map_id)]
    } else {
        Seq::empty()
    }) + (if trim(display_name).len() == 0 {
        seq!["display_name is empty"@]
    } else {
        Seq::empty()
    })
}

/// The issues of the prop at `i`: an invalid id hides every other issue of
/// that prop; a valid id seen before is reported, then the placement issues.
pub open spec fn one_prop_texts(props: Seq<PropCheck>, i: int) -> Seq<Seq<char>> {
    let id = props[i].id@;
    if !valid_id(id) {
        seq![invalid_prop_id_text(id)]
    } else {
        (if repeats_earlier(prop_ids(props), i) {
            seq![duplicate_prop_id_text(id)]
        } else {
            Seq::empty()
        }) + issue_texts(props[i].placement_issues@)
    }
}

/// The issues of the first `n` props, prop by prop.
pub open spec fn prop_texts(props: Seq<PropCheck>, n: nat) -> Seq<Seq<char>>
    decreases n,
{
    if n == 0 {
        Seq::empty()
    } else {
        prop_texts(props, (n - 1) as nat) + one_prop_texts(props, n - 1)
    }
}

/// The unknown-kind issues of the first `n` props.
pub open spec fn kind_texts(props: Seq<PropCheck>, n: nat) -> Seq<Seq<char>>
    decreases n,
{
    if n == 0 {
        Seq::empty()
    } else {
        kind_texts(props, (n - 1) as nat) + (if !props[n - 1].kind_known {
            seq![unknown_kind_text(props[n - 1].id@, props[n - 1].kind@)]
        } else {
            Seq::empty()
        })
    }
}

/// Every structural issue, in report order: header, geometry (bounds and
/// terrain scale, measured by the caller), then the props.
pub open spec fn structure_texts(
    version: u32,
    map_id: Seq<char>,
    display_name: Seq<char>,
    geometry_issues: Seq<ValidationIssue>,
    props: Seq<PropCheck>,
) -> Seq<Seq<char>> {
    header_texts(version, map_id, display_name) + issue_texts(geometry_issues) + prop_texts(
        props,
        props.len(),
    )
}

/// A prop with nothing to report: a valid id not used before, placed well.
pub open spec fn prop_ok(props: Seq<PropCheck>, i: int) -> bool {
    &&& valid_id(props[i].id@)
    &&& !repeats_earlier(prop_ids(props), i)
    &&& props[i].placement_issues@.len() == 0
}

proof fn lemma_prop_texts_empty(props: Seq<PropCheck>, n: nat)
    requires
        n <= props.len(),
    ensures
        prop_texts(props, n).len() == 0 <==> forall|i: int| 0 <= i < n ==> #[trigger] prop_ok(props, i),
    decreases n,
{
    if n > 0 {
        lemma_prop_texts_empty(props, (n - 1) as nat);
        let i = n - 1;
        assert(issue_texts(props[i].placement_issues@).len() == props[i].placement_issues@.len());
        if !prop_ok(props, i) {
            assert(one_prop_texts(props, i).len() > 0);
        }
        if forall|k: int| 0 <= k < n ==> #[trigger] prop_ok(props, k) {
            assert(prop_ok(props, i));
        }
    }
}

/// An empty result means the manifest is valid: structural validation
/// reports nothing exactly when the version is known, the map id is a valid
/// identifier, the display name is not blank, the caller measured no
/// geometry issue, and every prop has a valid, unrepeated id and a good
/// placement.
pub proof fn law_no_issues_means_valid(
    version: u32,
    map_id: Seq<char>,
    display_name: Seq<char>,
    geometry_issues: Seq<ValidationIssue>,
    props: Seq<PropCheck>,
)
    ensures
        structure_texts(version, map_id, display_name, geometry_issues, props).len() == 0 <==> {
            &&& known_version(version)
            &&& trim(map_id).len() != 0
            &&& valid_id(map_id)
            &&& trim(display_name).len() != 0
            &&& geometry_issues.len() == 0
            &&& forall|i: int| 0 <= i < props.len() ==> #[trigger] prop_ok(props, i)
        },
{
    lemma_prop_texts_empty(props, props.len());
    assert(issue_texts(geometry_issues).len() == geometry_issues.len());
}

fn push_issue(issues: &mut Vec<ValidationIssue>, message: String)
    ensures
        issue_texts(final(issues)@) == issue_texts(old(issues)@).push(message@),
{
    let ghost before = issues@;
    let ghost m = message@;
    issues.push(ValidationIssue::new(message));
    assert(issue_texts(issues@) =~= issue_texts(before).push(m));
}

fn push_all(issues: &mut Vec<ValidationIssue>, more: &Vec<ValidationIssue>)
    ensures
        issue_texts(final(issues)@) == issue_texts(old(issues)@) + issue_texts(more@),
{
    let ghost start = issue_texts(issues@);
    let mut i: usize = 0;
    while i < more.len()
        invariant
            i <= more@.len(),
            issue_texts(issues@) == start + issue_texts(more@.subrange(0, i as int)),
        decreases more@.len() - i,
    {
        let ghost before = issues@;
        push_issue(issues, more[i].message.clone());
        assert(issue_texts(more@.subrange(0, i + 1)) =~= issue_texts(more@.subrange(0, i as int)).push(
            more@[i as int].message@,
        ));
        i = i + 1;
    }
    assert(more@.subrange(0, more@.len() as int) =~= more@);
}

fn header_issues(version: u32, map_id: &str, display_name: &str) -> (r: Vec<ValidationIssue>)
    ensures
        issue_texts(r@) == header_texts(version, map_id@, display_name@),
{
    proof {
        reveal_strlit("unknown manifest version ");
        reveal_strlit(" (expected ");
        reveal_strlit(")");
        reveal_strlit("map_id is empty");
        reveal_strlit("map_id ");
        reveal_strlit(" contains invalid characters (allowed: [A-Za-z0-9_-])");
        reveal_strlit("display_name is empty");
    }
    let mut issues: Vec<ValidationIssue> = Vec::new();
    let ghost first: Seq<Seq<char>> = if !known_version(version) {
        seq![version_issue_text(version)]
    } else {
        Seq::empty()
    };
    let ghost second: Seq<Seq<char>> = if trim(map_id@).len() == 0 {
        seq!["map_id is empty"@]
    } else if !valid_id(map_id@) {
        seq![invalid_map_id_text(map_id@)]
    } else {
        Seq::empty()
    };
    if version != CURRENT_VERSION && version != LEGACY_VERSION_1 {
        let found = decimal_string(version as u64);
        let expected = decimal_string(CURRENT_VERSION as u64);
        let text = concat(owned("unknown manifest version "), found.as_str());
        let text = concat(text, " (expected ");
        let text = concat(text, expected.as_str());
        push_issue(&mut issues, concat(text, ")"));
    }
    assert(issue_texts(issues@) =~= first);
    let id = trimmed(map_id);
    if id.as_str().unicode_len() == 0 {
        push_issue(&mut issues, owned("map_id is empty"));
    } else if !validate_id(map_id) {
        let quoted = debug_str(map_id);
        let text = concat(owned("map_id "), quoted.as_str());
        push_issue(
            &mut issues,
            concat(text, " contains invalid characters (allowed: [A-Za-z0-9_-])"),
        );
    }
    assert(issue_texts(issues@) =~= first + second);
    let name = trimmed(display_name);
    if name.as_str().unicode_len() == 0 {
        push_issue(&mut issues, owned("display_name is empty"));
    }
    assert(issue_texts(issues@) =~= header_texts(version, map_id@, display_name@));
    issues
}

fn seen_before(props: &[PropCheck], i: usize) -> (r: bool)
    requires
        i < props@.len(),
    ensures
        r == repeats_earlier(prop_ids(props@), i as int),
{
    let ghost ids = prop_ids(props@);
    let mut j: usize = 0;
    while j < i
        invariant
            j <= i < props@.len(),
            ids == prop_ids(props@),
            forall|k: int| 0 <= k < j ==> ids[k] != ids[i as int],
        decreases i - j,
    {
        assert(ids[j as int] == props@[j as int].id@ && ids[i as int] == props@[i as int].id@);
        if same_text(props[j].id.as_str(), props[i].id.as_str()) {
            return true;
        }
        j = j + 1;
    }
    false
}

fn prop_issues(issues: &mut Vec<ValidationIssue>, props: &[PropCheck])
    ensures
        issue_texts(final(issues)@) == issue_texts(old(issues)@) + prop_texts(props@, props@.len()),
{
    proof {
        reveal_strlit("prop id ");
        reveal_strlit(" is not a valid identifier");
        reveal_strlit("duplicate prop id ");
    }
    let ghost start = issue_texts(issues@);
    let mut i: usize = 0;
    while i < props.len()
        invariant
            i <= props@.len(),
            issue_texts(issues@) == start + prop_texts(props@, i as nat),
        decreases props@.len() - i,
    {
        let ghost before = issue_texts(issues@);
        let prop = &props[i];
        if !validate_id(prop.id.as_str()) {
            let quoted = debug_str(prop.id.as_str());
            let text = concat(owned("prop id "), quoted.as_str());
            push_issue(issues, concat(text, " is not a valid identifier"));
        } else {
            if seen_before(props, i) {
                let quoted = debug_str(prop.id.as_str());
                push_issue(issues, concat(owned("duplicate prop id "), quoted.as_str()));
            }
            push_all(issues, &prop.placement_issues);
        }
        assert(issue_texts(issues@) =~= before + one_prop_texts(props@, i as int));
        assert(prop_texts(props@, (i + 1) as nat) == prop_texts(props@, i as nat) + one_prop_texts(
            props@,
            i as int,
        ));
        i = i + 1;
    }
}

/// Structural validation: every issue that does not depend on the placeable
/// catalog, in report order (header, geometry, props). `geometry_issues` are
/// the bounds and terrain-scale issues the caller measured.
pub fn validate_structure(
    version: u32,
    map_id: &str,
    display_name: &str,
    geometry_issues: &Vec<ValidationIssue>,
    props: &[PropCheck],
) -> (r: Vec<ValidationIssue>)
    ensures
        issue_texts(r@) == structure_texts(
            version,
            map_id@,
            display_name@,
            geometry_issues@,
            props@,
        ),
{
    let mut issues = header_issues(version, map_id, display_name);
    push_all(&mut issues, geometry_issues);
    prop_issues(&mut issues, props);
    issues
}

/// Every issue of a manifest: the structural ones, then one for each prop
/// whose kind the catalog does not know. An empty result means the manifest
/// is valid.
pub fn validate(
    version: u32,
    map_id: &str,
    display_name: &str,
    geometry_issues: &Vec<ValidationIssue>,
    props: &[PropCheck],
) -> (r: Vec<ValidationIssue>)
    ensures
        issue_texts(r@) == structure_texts(
            version,
            map_id@,
            display_name@,
            geometry_issues@,
            props@,
        ) + kind_texts(props@, props@.len()),
{
    proof {
        reveal_strlit("prop ");
        reveal_strlit(" has unknown kind ");
    }
    let mut issues = validate_structure(version, map_id, display_name, geometry_issues, props);
    let ghost start = issue_texts(issues@);
    let mut i: usize = 0;
    while i < props.len()
        invariant
            i <= props@.len(),
            issue_texts(issues@) == start + kind_texts(props@, i as nat),
        decreases props@.len() - i,
    {
        let ghost before = issue_texts(issues@);
        if !props[i].kind_known {
            let id = debug_str(props[i].id.as_str());
            let kind = debug_str(props[i].kind.as_str());
            let text = concat(owned("prop "), id.as_str());
            let text = concat(text, " has unknown kind ");
            push_issue(&mut issues, concat(text, kind.as_str()));
        }
        assert(issue_texts(issues@) =~= start + kind_texts(props@, (i + 1) as nat));
        i = i + 1;
    }
    issues
}

// ---------------------------------------------------------------------------
// Saving: props in id order
// ---------------------------------------------------------------------------

/// The order of `str` comparison: lexicographic by character (which is the
/// byte order of their UTF-8 encodings), a prefix first.
pub open spec fn text_le(a: Seq<char>, b: Seq<char>) -> bool
    decreases a.len(),
{
    if a.len() == 0 {
        true
    } else if b.len() == 0 {
        false
    } else if a[0] != b[0] {
        a[0] < b[0]
    } else {
        text_le(a.drop_first(), b.drop_first())
    }
}

proof fn lemma_text_le_total(a: Seq<char>, b: Seq<char>)
    ensures
        text_le(a, b) || text_le(b, a),
    decreases a.len(),
{
    if a.len() > 0 && b.len() > 0 && a[0] == b[0] {
        lemma_text_le_total(a.drop_first(), b.drop_first());
    }
}

proof fn lemma_text_le_transitive(a: Seq<char>, b: Seq<char>, c: Seq<char>)
    requires
        text_le(a, b),
        text_le(b, c),
    ensures
        text_le(a, c),
    decreases a.len(),
{
    if a.len() > 0 && b.len() > 0 && c.len() > 0 && a[0] == b[0] && b[0] == c[0] {
        lemma_text_le_transitive(a.drop_first(), b.drop_first(), c.drop_first());
    }
}

/// Whether `a` sorts no later than `b`.
fn text_at_most(a: &str, b: &str) -> (r: bool)
    ensures
        r == text_le(a@, b@),
{
    let x = chars_of(a);
    let y = chars_of(b);
    let mut i: usize = 0;
    assert(a@.skip(0) =~= a@ && b@.skip(0) =~= b@);
    while i < x.len() && i < y.len()
        invariant
            x@ == a@,
            y@ == b@,
            i <= x@.len(),
            i <= y@.len(),
            text_le(a@, b@) == text_le(a@.skip(i as int), b@.skip(i as int)),
        decreases x@.len() - i,
    {
        let ghost sa = a@.skip(i as int);
        let ghost sb = b@.skip(i as int);
        assert(sa[0] == x@[i as int] && sb[0] == y@[i as int]);
        if x[i] != y[i] {
            return x[i] < y[i];
        }
        assert(sa.drop_first() =~= a@.skip(i + 1));
        assert(sb.drop_first() =~= b@.skip(i + 1));
        i = i + 1;
    }
    assert(a@.skip(i as int).len() == 0 || b@.skip(i as int).len() == 0);
    i == x.len()
}

/// `order` lists the positions of `ids` by id, ties in their original order.
pub open spec fn sorted_by_id(ids: Seq<Seq<char>>, order: Seq<usize>) -> bool {
    &&& forall|i: int, j: int|
        0 <= i < j < order.len() ==> text_le(ids[order[i] as int], ids[order[j] as int])
    &&& forall|i: int, j: int|
        0 <= i < j < order.len() && ids[order[i] as int] == ids[order[j] as int] ==> order[i] < order[j]
}

/// `order` holds each position below `n` exactly once.
pub open spec fn is_permutation(order: Seq<usize>, n: nat) -> bool {
    &&& order.len() == n
    &&& forall|i: int| 0 <= i < order.len() ==> order[i] < n
    &&& forall|i: int, j: int| 0 <= i < j < order.len() ==> order[i] != order[j]
}

/// The order in which props are written when a map is saved: by id, ties
/// in their original order, so that saved files diff readably.
pub fn save_order(ids: &[String]) -> (order: Vec<usize>)
    ensures
        is_permutation(order@, ids@.len()),
        sorted_by_id(texts(ids@), order@),
{
    let ghost t = texts(ids@);
    let mut order: Vec<usize> = Vec::new();
    let mut k: usize = 0;
    while k < ids.len()
        invariant
            k <= ids@.len(),
            t == texts(ids@),
            t.len() == ids@.len(),
            is_permutation(order@, k as nat),
            sorted_by_id(t, order@),
        decreases ids@.len() - k,
    {
        let mut p = order.len();
        while p > 0 && !text_at_most(ids[order[p - 1]].as_str(), ids[k].as_str())
            invariant
                p <= order@.len() == k < ids@.len(),
                t == texts(ids@),
                t.len() == ids@.len(),
                is_permutation(order@, k as nat),
                sorted_by_id(t, order@),
                forall|q: int| p <= q < order@.len() ==> !text_le(t[order@[q] as int], t[k as int]),
            decreases p,
        {
            assert(t[order@[p - 1] as int] == ids@[order@[p - 1] as int]@);
            assert(t[k as int] == ids@[k as int]@);
            p = p - 1;
        }
        proof {
            assert(t[k as int] == ids@[k as int]@);
            if p > 0 {
                assert(t[order@[p - 1] as int] == ids@[order@[p - 1] as int]@);
            }
        }
        let ghost before = order@;
        order.insert(p, k);
        proof {
            let after = order@;
            assert(after =~= before.insert(p as int, k));
            assert forall|i: int| 0 <= i < after.len() implies after[i] < k + 1 by {
                if i < p {
                    assert(after[i] == before[i]);
                } else if i > p {
                    assert(after[i] == before[i - 1]);
                }
            }
            assert forall|i: int, j: int| 0 <= i < j < after.len() implies after[i] != after[j] by {
                if i < p && j < p {
                    assert(after[i] == before[i] && after[j] == before[j]);
                } else if i < p && j == p {
                    assert(after[i] == before[i]);
                } else if i < p && j > p {
                    assert(after[i] == before[i] && after[j] == before[j - 1]);
                } else if i == p {
                    assert(after[j] == before[j - 1]);
                } else {
                    assert(after[i] == before[i - 1] && after[j] == before[j - 1]);
                }
            }
            assert forall|i: int, j: int| 0 <= i < j < after.len() implies text_le(
                t[after[i] as int],
                t[after[j] as int],
            ) by {
                if i < p && j < p {
                    assert(after[i] == before[i] && after[j] == before[j]);
                } else if i < p && j == p {
                    assert(after[i] == before[i]);
                    if i < p - 1 {
                        lemma_text_le_transitive(
                            t[before[i] as int],
                            t[before[p - 1] as int],
                            t[k as int],
                        );
                    }
                } else if i < p && j > p {
                    assert(after[i] == before[i] && after[j] == before[j - 1]);
                } else if i == p {
                    assert(after[j] == before[j - 1]);
                    lemma_text_le_total(t[before[j - 1] as int], t[k as int]);
                } else {
                    assert(after[i] == before[i - 1] && after[j] == before[j - 1]);
                }
            }
            assert forall|i: int, j: int|
                0 <= i < j < after.len() && t[after[i] as int] == t[after[j] as int] implies after[i]
                < after[j] by {
                if i < p && j < p {
                    assert(after[i] == before[i] && after[j] == before[j]);
                } else if i < p && j == p {
                    assert(after[i] == before[i]);
                } else if i < p && j > p {
                    assert(after[i] == before[i] && after[j] == before[j - 1]);
                } else if i == p {
                    assert(after[j] == before[j - 1]);
                    assert(!text_le(t[before[j - 1] as int], t[k as int]));
                } else {
                    assert(after[i] == before[i - 1] && after[j] == before[j - 1]);
                }
            }
        }
        k = k + 1;
    }
    order
}

// ---------------------------------------------------------------------------
// Loading
// ---------------------------------------------------------------------------

/// How a map file is read.
#[derive(Debug, Clone, Copy, PartialEq, Eq, Structural)]
pub enum MapFormat {
    /// The `.world.json` sidecar next to the given file (version 2).
    WorldJson,
    /// A glTF scene exported from Blender (version 1).
    Glb,
    /// A RON manifest (version 1).
    Ron,
}

/// Picks the reader for a map path: a `.world.json` sidecar wins when one
/// exists; otherwise a `glb` or `gltf` extension means glTF and anything
/// else RON.
pub fn map_format(sidecar_exists: bool, extension: &str) -> (f: MapFormat)
    ensures
        sidecar_exists ==> f == MapFormat::WorldJson,
        !sidecar_exists && (extension@ == "glb"@ || extension@ == "gltf"@) ==> f == MapFormat::Glb,
        !sidecar_exists && !(extension@ == "glb"@ || extension@ == "gltf"@) ==> f == MapFormat::Ron,
{
    proof {
        reveal_strlit("glb");
        reveal_strlit("gltf");
    }
    if sidecar_exists {
        MapFormat::WorldJson
    } else if same_text(extension, "glb") || same_text(extension, "gltf") {
        MapFormat::Glb
    } else {
        MapFormat::Ron
    }
}

/// Whether a glTF node carries the map's own metadata rather than a prop.
pub fn is_map_meta_node(name: &str) -> (b: bool)
    ensures
        b == (name@ == "__bevymmo_map_meta"@ || name@ == "__bevymmo_map_meta__"@),
{
    proof {
        reveal_strlit("__bevymmo_map_meta");
        reveal_strlit("__bevymmo_map_meta__");
    }
    same_text(name, "__bevymmo_map_meta") || same_text(name, "__bevymmo_map_meta__")
}

/// The id a glTF prop gets: the one its extras give, unless that is empty or
/// `auto`, in which case `prop_NNN` numbered from one in node order.
pub open spec fn glb_prop_id_text(extras_id: Seq<char>, props_so_far: nat) -> Seq<char> {
    if extras_id == "auto"@ || extras_id.len() == 0 {
        "prop_"@ + zero_padded(props_so_far + 1, 3)
    } else {
        extras_id
    }
}

/// The id of the next glTF prop, given how many props came before it.
pub fn glb_prop_id(extras_id: &str, props_so_far: usize) -> (id: String)
    requires
        props_so_far < u64::MAX,
    ensures
        id@ == glb_prop_id_text(extras_id@, props_so_far as nat),
{
    proof {
        reveal_strlit("auto");
        reveal_strlit("prop_");
    }
    if same_text(extras_id, "auto") || extras_id.unicode_len() == 0 {
        let number = zero_padded_string(props_so_far as u64 + 1, 3);
        concat(owned("prop_"), number.as_str())
    } else {
        owned(extras_id)
    }
}

/// What a glTF node contributes to a map.
#[derive(Debug, Clone, Copy, PartialEq, Eq, Structural)]
pub enum NodeRole {
    /// Nothing: no extras, or extras that declare no prop.
    Skip,
    /// The map's metadata, nested under `bevymmo` or flat at the root.
    Meta { nested: bool },
    /// A prop, nested under `bevymmo` or flat with a `bevymmo_kind` key.
    Prop { nested: bool },
}

/// The part a glTF node plays: nodes without extras are skipped; the
/// metadata node is recognised by name; any other node is a prop when its
/// extras nest a `bevymmo` object or carry a flat `bevymmo_kind`, and is
/// skipped otherwise.
pub open spec fn node_role_of(name: Seq<char>, has_extras: bool, has_nested: bool, has_flat_kind: bool) -> NodeRole {
    if !has_extras {
        NodeRole::Skip
    } else if name == "__bevymmo_map_meta"@ || name == "__bevymmo_map_meta__"@ {
        NodeRole::Meta { nested: has_nested }
    } else if has_nested {
        NodeRole::Prop { nested: true }
    } else if has_flat_kind {
        NodeRole::Prop { nested: false }
    } else {
        NodeRole::Skip
    }
}

/// Classifies a glTF node by its name and the shape of its extras.
pub fn glb_node_role(name: &str, has_extras: bool, has_nested: bool, has_flat_kind: bool) -> (r: NodeRole)
    ensures
        r == node_role_of(name@, has_extras, has_nested, has_flat_kind),
{
    if !has_extras {
        return NodeRole::Skip;
    }
    if is_map_meta_node(name) {
        return NodeRole::Meta { nested: has_nested };
    }
    if has_nested {
        NodeRole::Prop { nested: true }
    } else if has_flat_kind {
        NodeRole::Prop { nested: false }
    } else {
        NodeRole::Skip
    }
}

/// The map id of a flat-format glTF meta node that gives none.
pub const DEFAULT_MAP_ID: &'static str = "untitled";

/// The display name of a flat-format glTF meta node that gives none.
pub const DEFAULT_DISPLAY_NAME: &'static str = "Untitled Map";

/// The id a prop's extras carry when they give none: `auto`, which
/// `glb_prop_id` replaces with a numbered id.
pub fn default_id_from_node() -> (id: String)
    ensures
        id@ == "auto"@,
{
    owned("auto")
}

/// A metadata text of a flat-format glTF meta node, or its default when the
/// node does not give it.
pub fn meta_text_or(value: Option<String>, default: &str) -> (r: String)
    ensures
        match value {
            Some(v) => r@ == v@,
            None => r@ == default@,
        },
{
    match value {
        Some(v) => v,
        None => owned(default),
    }
}

/// The issue for a glTF scene with no map metadata node.
pub fn missing_meta_issue() -> (i: ValidationIssue)
    ensures
        i.message@ == "missing __bevymmo_map_meta node in GLB"@,
{
    proof {
        reveal_strlit("missing __bevymmo_map_meta node in GLB");
    }
    ValidationIssue::new(owned("missing __bevymmo_map_meta node in GLB"))
}

/// What the loader reads of one glTF node before deciding its part: its
/// name, the shape of its extras, and the prop id those extras give (`auto`
/// when they give none).
pub struct GlbNode {
    pub name: String,
    pub has_extras: bool,
    pub has_nested: bool,
    pub has_flat_kind: bool,
    pub extras_id: String,
}

/// The part a node plays.
pub open spec fn role_of_node(node: GlbNode) -> NodeRole {
    node_role_of(node.name@, node.has_extras, node.has_nested, node.has_flat_kind)
}

/// The metadata node among the first `n` nodes: the last one, when there are
/// several.
pub open spec fn glb_meta_node(nodes: Seq<GlbNode>, n: int) -> Option<int>
    decreases n,
{
    if n <= 0 {
        None
    } else if role_of_node(nodes[n - 1]) is Meta {
        Some(n - 1)
    } else {
        glb_meta_node(nodes, n - 1)
    }
}

/// The prop nodes among the first `n` nodes, in node order.
pub open spec fn glb_prop_nodes(nodes: Seq<GlbNode>, n: int) -> Seq<int>
    decreases n,
{
    if n <= 0 {
        Seq::empty()
    } else if role_of_node(nodes[n - 1]) is Prop {
        glb_prop_nodes(nodes, n - 1).push(n - 1)
    } else {
        glb_prop_nodes(nodes, n - 1)
    }
}

/// The ids of the props among the first `n` nodes, in node order; each
/// numbered id counts the props before it.
pub open spec fn glb_prop_ids(nodes: Seq<GlbNode>, n: int) -> Seq<Seq<char>>
    decreases n,
{
    if n <= 0 {
        Seq::empty()
    } else if role_of_node(nodes[n - 1]) is Prop {
        let before = glb_prop_ids(nodes, n - 1);
        before.push(glb_prop_id_text(nodes[n - 1].extras_id@, before.len()))
    } else {
        glb_prop_ids(nodes, n - 1)
    }
}

/// How a glTF scene becomes a map: which node holds the metadata, in which
/// format, and which nodes are props under which ids.
pub struct GlbScenePlan {
    pub meta_node: usize,
    pub meta_nested: bool,
    pub prop_nodes: Vec<usize>,
    pub prop_ids: Vec<String>,
}

/// Walks the nodes of a glTF scene in order: the last metadata node gives the
/// map its metadata, every prop node becomes a prop under the id
/// `glb_prop_id` gives it, and the rest are skipped. A scene without a
/// metadata node is refused.
pub fn plan_glb_nodes(nodes: &Vec<GlbNode>) -> (r: Result<GlbScenePlan, ValidationIssue>)
    ensures
        glb_meta_node(nodes@, nodes@.len() as int) is None ==> (r matches Err(i) && i.message@
            == "missing __bevymmo_map_meta node in GLB"@),
        glb_meta_node(nodes@, nodes@.len() as int) matches Some(m) ==> (r matches Ok(plan) && {
            &&& plan.meta_node == m
            &&& plan.meta_nested == nodes@[m].has_nested
            &&& plan.prop_nodes@.len() == glb_prop_nodes(nodes@, nodes@.len() as int).len()
            &&& forall|k: int|
                0 <= k < plan.prop_nodes@.len() ==> plan.prop_nodes@[k] as int == glb_prop_nodes(
                    nodes@,
                    nodes@.len() as int,
                )[k]
            &&& plan.prop_ids@.len() == glb_prop_ids(nodes@, nodes@.len() as int).len()
            &&& forall|k: int|
                0 <= k < plan.prop_ids@.len() ==> #[trigger] plan.prop_ids@[k]@ == glb_prop_ids(
                    nodes@,
                    nodes@.len() as int,
                )[k]
        }),
{
    let mut meta: Option<(usize, bool)> = None;
    let mut prop_nodes: Vec<usize> = Vec::new();
    let mut prop_ids: Vec<String> = Vec::new();
    let mut i: usize = 0;
    while i < nodes.len()
        invariant
            i <= nodes@.len(),
            match meta {
                None => glb_meta_node(nodes@, i as int) is None,
                Some((m, nested)) => glb_meta_node(nodes@, i as int) == Some(m as int) && nested
                    == nodes@[m as int].has_nested,
            },
            prop_nodes@.len() == glb_prop_nodes(nodes@, i as int).len(),
            forall|k: int|
                0 <= k < prop_nodes@.len() ==> prop_nodes@[k] as int == glb_prop_nodes(nodes@, i as int)[k],
            prop_ids@.len() == glb_prop_ids(nodes@, i as int).len(),
            prop_ids@.len() == prop_nodes@.len(),
            prop_nodes@.len() <= i,
            forall|k: int|
                0 <= k < prop_ids@.len() ==> #[trigger] prop_ids@[k]@ == glb_prop_ids(nodes@, i as int)[k],
        decreases nodes@.len() - i,
    {
        let node = &nodes[i];
        let role = glb_node_role(node.name.as_str(), node.has_extras, node.has_nested, node.has_flat_kind);
        let ghost before_nodes = prop_nodes@;
        let ghost before_ids = prop_ids@;
        match role {
            NodeRole::Meta { nested } => {
                meta = Some((i, nested));
            },
            NodeRole::Prop { .. } => {
                let id = glb_prop_id(node.extras_id.as_str(), prop_ids.len());
                prop_nodes.push(i);
                prop_ids.push(id);
                proof {
                    assert(forall|k: int| 0 <= k < before_ids.len() ==> prop_ids@[k] == before_ids[k]);
                }
            },
            NodeRole::Skip => {},
        }
        i = i + 1;
    }
    match meta {
        Some((m, nested)) => Ok(GlbScenePlan { meta_node: m, meta_nested: nested, prop_nodes, prop_ids }),
        None => Err(missing_meta_issue()),
    }
}

// ---------------------------------------------------------------------------
// Collision shapes and heightfields
// ---------------------------------------------------------------------------

/// The kinds of collision shape a prop can declare.
#[derive(Debug, Clone, Copy, PartialEq, Eq, Structural)]
pub enum CollisionKind {
    Cylinder,
    Box,
    Sphere,
}

/// The collision kind a type name spells, if any.
pub open spec fn collision_kind_named(shape_name: Seq<char>) -> Option<CollisionKind> {
    if shape_name == "cylinder"@ {
        Some(CollisionKind::Cylinder)
    } else if shape_name == "box"@ {
        Some(CollisionKind::Box)
    } else if shape_name == "sphere"@ {
        Some(CollisionKind::Sphere)
    } else {
        None
    }
}

/// The kind of a nested collision declaration; an unknown type name is an
/// error naming it.
pub fn collision_kind(shape_name: &str) -> (r: Result<CollisionKind, String>)
    ensures
        collision_kind_named(shape_name@) matches Some(k) ==> r == Ok::<CollisionKind, String>(k),
        collision_kind_named(shape_name@) is None ==> (r matches Err(e) && e@ == "unknown collision type '"@
            + shape_name@ + "'"@),
{
    proof {
        reveal_strlit("cylinder");
        reveal_strlit("box");
        reveal_strlit("sphere");
        reveal_strlit("unknown collision type '");
        reveal_strlit("'");
    }
    if same_text(shape_name, "cylinder") {
        Ok(CollisionKind::Cylinder)
    } else if same_text(shape_name, "box") {
        Ok(CollisionKind::Box)
    } else if same_text(shape_name, "sphere") {
        Ok(CollisionKind::Sphere)
    } else {
        Err(concat(concat(owned("unknown collision type '"), shape_name), "'"))
    }
}

/// The kind of a flat (Blender-native) collision declaration: the known
/// names, and no shape for anything else (`none` and the empty name
/// included).
pub fn flat_collision_kind(shape_name: &str) -> (r: Option<CollisionKind>)
    ensures
        r == collision_kind_named(shape_name@),
{
    match collision_kind(shape_name) {
        Ok(k) => Some(k),
        Err(_) => None,
    }
}

/// The refusal for a heightfield whose height list does not fit its grid.
pub open spec fn heightfield_size_text(len: nat, expected: nat, resolution: u32) -> Seq<char> {
    "Heightfield has "@ + decimal(len) + " heights but expected "@ + decimal(expected)
        + " for resolution "@ + decimal(resolution as nat)
}

/// A heightfield of `resolution` cells per side has one height per grid
/// corner: `(resolution + 1)` squared of them.
pub fn check_heightfield_size(resolution: u32, heights_len: usize) -> (r: Result<(), String>)
    requires
        (resolution + 1) * (resolution + 1) <= u32::MAX,
    ensures
        heights_len == (resolution + 1) * (resolution + 1) ==> r is Ok,
        heights_len != (resolution + 1) * (resolution + 1) ==> (r matches Err(e) && e@
            == heightfield_size_text(heights_len as nat, ((resolution + 1) * (resolution + 1)) as nat, resolution)),
{
    let side: u64 = resolution as u64 + 1;
    assert(side * side <= u32::MAX) by (nonlinear_arith)
        requires
            side == resolution + 1,
            (resolution + 1) * (resolution + 1) <= u32::MAX,
    ;
    let expected: u64 = side * side;
    if heights_len as u64 != expected {
        proof {
            reveal_strlit("Heightfield has ");
            reveal_strlit(" heights but expected ");
            reveal_strlit(" for resolution ");
        }
        let text = concat(owned("Heightfield has "), decimal_string(heights_len as u64).as_str());
        let text = concat(text, " heights but expected ");
        let text = concat(text, decimal_string(expected).as_str());
        let text = concat(text, " for resolution ");
        return Err(concat(text, decimal_string(resolution as u64).as_str()));
    }
    Ok(())
}

} // verus!
