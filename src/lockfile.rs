//! The lockfile rule: which entries of `packages` must carry `integrity`
//! and `resolved`, and which of them lack one.
use vstd::prelude::*;

use crate::json::JsonValue;

verus! {

/// `s` begins with `p`.
pub open spec fn has_prefix(s: Seq<char>, p: Seq<char>) -> bool {
    p.len() <= s.len() && s.subrange(0, p.len() as int) == p
}

/// The field `name` of `entry` is absent or JSON `null`. A value of any other
/// type counts as present.
pub open spec fn is_missing(entry: JsonValue, name: Seq<char>) -> bool {
    match entry.field(name) {
        None => true,
        Some(JsonValue::Null) => true,
        _ => false,
    }
}

/// The entry is an installed dependency: its key is not the root project's
/// empty key and lies under `node_modules`.
pub open spec fn is_installed(key: Seq<char>) -> bool {
    key.len() > 0 && has_prefix(key, "node_modules"@)
}

/// The entry is a symlink: its `link` field is exactly `true`.
pub open spec fn is_link(entry: JsonValue) -> bool {
    entry.field("link"@) == Some(JsonValue::Bool(true))
}

/// The entry under `key` must carry both fields and lacks at least one.
pub open spec fn is_violation(key: Seq<char>, entry: JsonValue) -> bool {
    &&& is_installed(key)
    &&& !is_link(entry)
    &&& (is_missing(entry, "integrity"@) || is_missing(entry, "resolved"@))
}

/// The keys of the violating entries among `packages`, in their order.
pub open spec fn violations(packages: Seq<(String, JsonValue)>) -> Seq<Seq<char>>
    decreases packages.len(),
{
    if packages.len() == 0 {
        Seq::empty()
    } else {
        let before = violations(packages.drop_last());
        let last = packages.last();
        if is_violation(last.0@, last.1) {
            before.push(last.0@)
        } else {
            before
        }
    }
}

/// The violations of a whole document: none unless `packages` is an object.
pub open spec fn document_violations(doc: JsonValue) -> Seq<Seq<char>> {
    match doc.field("packages"@) {
        Some(JsonValue::Object(packages)) => violations(packages@),
        _ => Seq::empty(),
    }
}

/// The text of each string.
pub open spec fn texts(v: Seq<String>) -> Seq<Seq<char>> {
    v.map_values(|s: String| s@)
}

/// Relies on str::starts_with: true exactly when `p` is a prefix of `s`.
#[verifier::external_body]
fn starts_with(s: &str, p: &str) -> (r: bool)
    ensures
        r == has_prefix(s@, p@),
{
    s.starts_with(p)
}

/// Whether the field `name` of `entry` is absent or `null`.
fn field_missing(entry: &JsonValue, name: &str) -> (r: bool)
    ensures
        r == is_missing(*entry, name@),
{
    let key = name.to_owned();
    match entry.get(&key) {
        None => true,
        Some(JsonValue::Null) => true,
        Some(_) => false,
    }
}

/// Whether the entry under `key` must carry `integrity` and `resolved` and
/// lacks one of them.
pub fn entry_violates(key: &String, entry: &JsonValue) -> (r: bool)
    ensures
        r == is_violation(key@, *entry),
{
    if key.as_str().is_empty() {
        return false;
    }
    if !starts_with(key.as_str(), "node_modules") {
        return false;
    }
    let link = "link".to_owned();
    if let Some(JsonValue::Bool(true)) = entry.get(&link) {
        return false;
    }
    field_missing(entry, "integrity") || field_missing(entry, "resolved")
}

/// The keys of the entries of `packages` that lack `integrity` or
/// `resolved`, in the order of the object's members. A document without a
/// `packages` object has none.
pub fn validate_json(json: &JsonValue) -> (r: Vec<String>)
    ensures
        texts(r@) == document_violations(*json),
{
    let packages_key = "packages".to_owned();
    match json.get(&packages_key) {
        Some(JsonValue::Object(packages)) => {
            let mut found: Vec<String> = Vec::new();
            let mut i: usize = 0;
            while i < packages.len()
                invariant
                    i <= packages.len(),
                    texts(found@) == violations(packages@.take(i as int)),
                decreases packages.len() - i,
            {
                let member = &packages[i];
                let bad = entry_violates(&member.0, &member.1);
                proof {
                    assert(packages@.take(i + 1).drop_last() =~= packages@.take(i as int));
                }
                if bad {
                    found.push(member.0.clone());
                    assert(texts(found@) =~= violations(packages@.take(i + 1)));
                }
                i = i + 1;
            }
            assert(packages@.take(packages.len() as int) =~= packages@);
            found
        },
        _ => Vec::new(),
    }
}

/// The lockfile's `name`, when the document has one that is a string.
pub fn package_name(json: &JsonValue) -> (r: Option<String>)
    ensures
        match json.field("name"@) {
            Some(JsonValue::Str(name)) => r == Some(name),
            _ => r is None,
        },
{
    let key = "name".to_owned();
    match json.get(&key) {
        Some(JsonValue::Str(name)) => Some(name.clone()),
        _ => None,
    }
}

/// No two members of the object share a key, as in every object the JSON
/// parser produces.
pub open spec fn distinct_keys(members: Seq<(String, JsonValue)>) -> bool {
    forall|a: int, b: int|
        0 <= a < b < members.len() ==> #[trigger] members[a].0@ != #[trigger] members[b].0@
}

/// A key is reported exactly when some member under that key violates the rule.
proof fn lemma_violations_contains(packages: Seq<(String, JsonValue)>, key: Seq<char>)
    ensures
        violations(packages).contains(key) <==> exists|i: int|
            0 <= i < packages.len() && #[trigger] packages[i].0@ == key && is_violation(
                key,
                packages[i].1,
            ),
    decreases packages.len(),
{
    if packages.len() > 0 {
        let init = packages.drop_last();
        lemma_violations_contains(init, key);
        let n = packages.len() - 1;
        if violations(packages).contains(key) {
            if !violations(init).contains(key) {
                assert(violations(packages).last() == key);
                assert(packages[n].0@ == key);
            } else {
                let i = choose|i: int|
                    0 <= i < init.len() && #[trigger] init[i].0@ == key && is_violation(key, init[i].1);
                assert(packages[i] == init[i]);
            }
        }
        if exists|i: int|
            0 <= i < packages.len() && #[trigger] packages[i].0@ == key && is_violation(key, packages[i].1)
        {
            let i = choose|i: int|
                0 <= i < packages.len() && #[trigger] packages[i].0@ == key && is_violation(key, packages[i].1);
            if i == n {
                assert(violations(packages).last() == key);
            } else {
                assert(init[i] == packages[i]);
                let j = choose|j: int| 0 <= j < violations(init).len() && violations(init)[j] == key;
                assert(violations(packages)[j] == key);
            }
        }
    }
}

/// A document whose `packages` is absent or not an object has no violations.
pub proof fn law_no_packages_object(doc: JsonValue)
    requires
        !(doc.field("packages"@) matches Some(JsonValue::Object(_))),
    ensures
        document_violations(doc) == Seq::<Seq<char>>::empty(),
{
}

/// The root project's entry, under the empty key, is never reported.
pub proof fn law_root_never_reported(doc: JsonValue)
    ensures
        !document_violations(doc).contains(Seq::<char>::empty()),
{
    if let Some(JsonValue::Object(packages)) = doc.field("packages"@) {
        lemma_violations_contains(packages@, Seq::empty());
    }
}

/// An entry whose key does not start with `node_modules` is never reported.
pub proof fn law_outside_node_modules_never_reported(doc: JsonValue, key: Seq<char>)
    requires
        !has_prefix(key, "node_modules"@),
    ensures
        !document_violations(doc).contains(key),
{
    if let Some(JsonValue::Object(packages)) = doc.field("packages"@) {
        lemma_violations_contains(packages@, key);
    }
}

/// An entry whose `link` is `true` is never reported, whatever else it holds.
pub proof fn law_link_never_reported(doc: JsonValue, packages: Vec<(String, JsonValue)>, i: int)
    requires
        doc.field("packages"@) == Some(JsonValue::Object(packages)),
        distinct_keys(packages@),
        0 <= i < packages@.len(),
        is_link(packages@[i].1),
    ensures
        !document_violations(doc).contains(packages@[i].0@),
{
    lemma_violations_contains(packages@, packages@[i].0@);
}

/// Any other entry under `node_modules` is reported exactly when its
/// `integrity` or its `resolved` is absent or `null`.
pub proof fn law_installed_reported_iff_missing(
    doc: JsonValue,
    packages: Vec<(String, JsonValue)>,
    i: int,
)
    requires
        doc.field("packages"@) == Some(JsonValue::Object(packages)),
        distinct_keys(packages@),
        0 <= i < packages@.len(),
        is_installed(packages@[i].0@),
        !is_link(packages@[i].1),
    ensures
        document_violations(doc).contains(packages@[i].0@) <==> (is_missing(
            packages@[i].1,
            "integrity"@,
        ) || is_missing(packages@[i].1, "resolved"@)),
{
    lemma_violations_contains(packages@, packages@[i].0@);
}

/// Two runs of the validator on one document report the same keys.
pub proof fn law_validation_repeatable(doc: JsonValue, first: Vec<String>, second: Vec<String>)
    requires
        texts(first@) == document_violations(doc),
        texts(second@) == document_violations(doc),
    ensures
        texts(first@) == texts(second@),
{
}

} // verus!
