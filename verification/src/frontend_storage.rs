//! Key-value storage of the front end: one JSON object per namespace under
//! `<data_dir>/frontend_storage/`.
use vstd::prelude::*;

use crate::errors::{CommandError, ErrorKind};
use crate::json::{json_pretty_string_map, json_string_map, json_value_outcome, parse_json_value, parse_string_map, pretty_string_map};
use crate::kvmap::{entries_map, insert_all, lemma_insert_all_sorted, sorted_keys, TextMap};
use crate::paths::{
    concat_text, spec_extension, spec_file_stem, spec_sanitize_name, split_file_name, PathView,
    StoragePath, sanitize_name,
};
use crate::sort::{group_of, sort_records};
use crate::text::{ends_with_text, owned, same_text, text_lt};

verus! {

broadcast use vstd::seq_lib::group_to_multiset_ensures;

/// One stored pair.
#[derive(Debug)]
pub struct FrontendStorageEntry {
    pub key: String,
    pub value: String,
}

/// A namespace and how many pairs it holds.
#[derive(Debug)]
pub struct FrontendStorageNamespaceSummary {
    pub namespace: String,
    pub count: usize,
}

pub open spec fn spec_storage_dir(d: PathView) -> PathView {
    d.join("frontend_storage"@)
}

pub open spec fn spec_namespace_file(d: PathView, ns: Seq<char>) -> PathView {
    spec_storage_dir(d).join(spec_sanitize_name(ns) + ".json"@)
}

/// `<data_dir>/frontend_storage`
pub fn storage_dir(data_dir: &StoragePath) -> (p: StoragePath)
    ensures
        p@ == spec_storage_dir(data_dir@),
{
    data_dir.join_str("frontend_storage")
}

/// `<data_dir>/frontend_storage/<sanitized namespace>.json`
pub fn namespace_file(data_dir: &StoragePath, namespace: &str) -> (p: StoragePath)
    ensures
        p@ == spec_namespace_file(data_dir@, namespace@),
{
    let name = concat_text(sanitize_namespace(namespace).as_str(), ".json");
    storage_dir(data_dir).join(name)
}

/// Namespace made safe as a file name: letters, digits, `-`, `_`, `.` kept,
/// every other character `_`, the empty namespace `_empty_`.
pub fn sanitize_namespace(ns: &str) -> (r: String)
    ensures
        r@ == spec_sanitize_name(ns@),
{
    sanitize_name(ns)
}

/// Where a namespace is written before it replaces the old file:
/// `<data_dir>/frontend_storage/<sanitized namespace>.tmp`.
pub fn namespace_tmp_file(data_dir: &StoragePath, namespace: &str) -> (p: StoragePath)
    ensures
        p@ == spec_storage_dir(data_dir@).join(spec_sanitize_name(namespace@) + ".tmp"@),
{
    let name = concat_text(sanitize_namespace(namespace).as_str(), ".tmp");
    storage_dir(data_dir).join(name)
}

/// The map of a list of members, a later member replacing an earlier one
/// with the same key.
pub open spec fn members_map(s: Seq<(Seq<char>, Seq<char>)>) -> Map<Seq<char>, Seq<char>>
    decreases s.len(),
{
    if s.len() == 0 {
        Map::empty()
    } else {
        members_map(s.drop_last()).insert(s.last().0, s.last().1)
    }
}

/// The views of a namespace's values.
pub open spec fn text_values(m: Map<Seq<char>, String>) -> Map<Seq<char>, Seq<char>> {
    m.map_values(|v: String| v@)
}

proof fn lemma_members_map(v: Seq<(String, String)>)
    ensures
        text_values(insert_all(Map::<Seq<char>, String>::empty(), v)) == members_map(
            crate::json::pair_texts(v),
        ),
    decreases v.len(),
{
    if v.len() > 0 {
        lemma_members_map(v.drop_last());
        assert(crate::json::pair_texts(v).drop_last() =~= crate::json::pair_texts(v.drop_last()));
        assert(text_values(insert_all(Map::<Seq<char>, String>::empty(), v)) =~= members_map(
            crate::json::pair_texts(v),
        ));
    } else {
        assert(text_values(insert_all(Map::<Seq<char>, String>::empty(), v)) =~= Map::empty());
    }
}

/// A namespace as stored, from its file's text (`None` when there is no
/// file): empty for a missing or blank file, else the JSON object of
/// strings it holds, or a `Serde` error with the parser's message.
pub fn read_namespace(raw: Option<&str>) -> (r: Result<TextMap<String>, CommandError>)
    ensures
        raw is None ==> (r matches Ok(m) && m.map().len() == 0 && m.map().dom().finite()),
        raw matches Some(t) ==> (if crate::text::trimmed(t@).len() == 0 {
            r matches Ok(m) && m.map() == Map::<Seq<char>, String>::empty()
        } else {
            match json_string_map(t@) {
                Ok(members) => r matches Ok(m) && text_values(m.map()) == members_map(members),
                Err(msg) => r matches Err(e) && e.kind() == ErrorKind::Serde && e.text() == msg,
            }
        }),
{
    match raw {
        None => {
            let m = TextMap::new();
            proof {
                assert(m.map() =~= Map::<Seq<char>, String>::empty());
            }
            Ok(m)
        },
        Some(t) => {
            if crate::text::is_blank(t) {
                let m = TextMap::new();
                proof {
                    assert(m.map() =~= Map::<Seq<char>, String>::empty());
                }
                return Ok(m);
            }
            match parse_string_map(t) {
                Ok(v) => {
                    proof {
                        lemma_members_map(v@);
                    }
                    Ok(TextMap::from_entries(v))
                },
                Err(msg) => Err(CommandError::Serde(msg)),
            }
        },
    }
}

/// The text a namespace is written as: the indented JSON object of its
/// pairs, which is not blank and reads back (by `read_namespace`) as the
/// same pairs.
pub fn namespace_json(map: &TextMap<String>) -> (r: Result<String, CommandError>)
    ensures
        r matches Ok(t) && {
            &&& json_pretty_string_map(crate::json::pair_texts(map.entry_seq())) == Ok::<Seq<char>, Seq<char>>(t@)
            &&& crate::text::trimmed(t@).len() > 0
            &&& (json_string_map(t@) matches Ok(members) && members_map(members) == text_values(map.map()))
        },
{
    let entries = map.entries();
    match pretty_string_map(entries) {
        Ok(s) => {
            proof {
                let v = entries@;
                assert(crate::json::keys_increasing(crate::json::pair_texts(v))) by {
                    assert(sorted_keys(v));
                }
                crate::text::lemma_trimmed_nonempty(s@);
                lemma_members_map(v);
                lemma_insert_all_sorted(Map::<Seq<char>, String>::empty(), v);
                assert(Map::<Seq<char>, String>::empty().union_prefer_right(entries_map(v)) =~= entries_map(v));
            }
            Ok(s)
        },
        Err(msg) => Err(CommandError::Serde(msg)),
    }
}

/// How many pairs the listing of namespaces shows for a file's text: none
/// for a blank file or one that is not a JSON object.
pub fn namespace_count(raw: &str) -> (r: usize)
    ensures
        crate::text::trimmed(raw@).len() == 0 ==> r == 0,
        crate::text::trimmed(raw@).len() > 0 ==> r == match json_value_outcome(raw@) {
            Ok(Some(keys)) => keys.len(),
            _ => 0,
        },
{
    if crate::text::is_blank(raw) {
        return 0;
    }
    match parse_json_value(raw) {
        Ok(p) => match p.members {
            Some(v) => {
                assert(crate::json::member_keys(v@).len() == v@.len());
                v.len()
            },
            None => 0,
        },
        Err(_) => 0,
    }
}

/// Sets `key` to `value` in a namespace; the empty key is refused.
pub fn frontend_storage_set(map: &mut TextMap<String>, key: String, value: String) -> (r: Result<
    (),
    CommandError,
>)
    ensures
        r is Ok <==> key@.len() > 0,
        r is Ok ==> final(map).map() == old(map).map().insert(key@, value),
        r matches Err(e) ==> e.kind() == ErrorKind::Invalid && e.text()
            == "frontend_storage_set 不允许空 key"@ && final(map).map() == old(map).map(),
{
    if key.as_str().is_empty() {
        return Err(CommandError::Invalid(owned("frontend_storage_set 不允许空 key")));
    }
    map.insert(key, value);
    Ok(())
}

/// Removes `key` from a namespace; an absent key is no error.
pub fn frontend_storage_remove(map: &mut TextMap<String>, key: &str)
    ensures
        final(map).map() == old(map).map().remove(key@),
{
    map.remove(key);
}

/// The pairs of a namespace, in key order.
pub fn frontend_storage_list(map: TextMap<String>) -> (r: Vec<FrontendStorageEntry>)
    ensures
        r@.len() == map.entry_seq().len(),
        forall|i: int|
            0 <= i < r@.len() ==> #[trigger] r@[i].key == map.entry_seq()[i].0 && r@[i].value
                == map.entry_seq()[i].1,
        forall|i: int, j: int| 0 <= i < j < r@.len() ==> text_lt(#[trigger] r@[i].key@, #[trigger] r@[j].key@),
        forall|i: int| 0 <= i < r@.len() ==> map.map().dom().contains(#[trigger] r@[i].key@)
            && map.map()[r@[i].key@] == r@[i].value,
{
    let entries = map.into_entries();
    let ghost es = entries@;
    let mut rest = entries;
    let mut back: Vec<FrontendStorageEntry> = Vec::new();
    let ghost n = es.len();
    while rest.len() > 0
        invariant
            rest@ == es.take(rest@.len() as int),
            rest@.len() <= n,
            n == es.len(),
            back@.len() == n - rest@.len(),
            forall|i: int|
                0 <= i < back@.len() ==> #[trigger] back@[i].key == es[n - 1 - i].0 && back@[i].value
                    == es[n - 1 - i].1,
        decreases rest@.len(),
    {
        let (key, value) = rest.pop().unwrap();
        back.push(FrontendStorageEntry { key, value });
    }
    let mut out: Vec<FrontendStorageEntry> = Vec::new();
    while back.len() > 0
        invariant
            n == es.len(),
            back@.len() + out@.len() == n,
            forall|i: int|
                0 <= i < back@.len() ==> #[trigger] back@[i].key == es[n - 1 - i].0 && back@[i].value
                    == es[n - 1 - i].1,
            forall|i: int|
                0 <= i < out@.len() ==> #[trigger] out@[i].key == es[i].0 && out@[i].value == es[i].1,
        decreases back@.len(),
    {
        let e = back.pop().unwrap();
        out.push(e);
    }
    proof {
        assert forall|i: int| 0 <= i < out@.len() implies map.map().dom().contains(
            #[trigger] out@[i].key@,
        ) && map.map()[out@[i].key@] == out@[i].value by {
            assert(es[i].0@ == out@[i].key@);
            assert(crate::kvmap::has_key(es, out@[i].key@));
            let k = crate::kvmap::key_index(es, out@[i].key@);
            if k != i {
                if k < i {
                    assert(text_lt(es[k].0@, es[i].0@));
                } else {
                    assert(text_lt(es[i].0@, es[k].0@));
                }
                crate::text::lemma_text_lt_irreflexive(out@[i].key@);
            }
        }
    }
    out
}

// ── listing namespaces ───────────────────────────────────────────────────

/// The namespace a file of the storage directory holds: the stem of a
/// `.json` file, unless the stem ends in `.tmp` (a write in progress).
pub open spec fn spec_namespace_of(file_name: Seq<char>) -> Option<Seq<char>> {
    let stem = spec_file_stem(file_name);
    if spec_extension(file_name) == Some("json"@) && !(stem.len() >= 4 && stem.skip(stem.len() - 4)
        == ".tmp"@) {
        Some(stem)
    } else {
        None
    }
}

/// Which namespace, if any, a directory entry named `file_name` stores.
pub fn namespace_of_file(file_name: &str) -> (r: Option<String>)
    ensures
        r matches Some(ns) ==> spec_namespace_of(file_name@) == Some(ns@),
        r is None ==> spec_namespace_of(file_name@) is None,
{
    let (stem, ext) = split_file_name(file_name);
    let is_json = match &ext {
        Some(e) => same_text(e.as_str(), "json"),
        None => false,
    };
    if !is_json {
        return None;
    }
    proof {
        reveal_strlit(".tmp");
    }
    if ends_with_text(stem.as_str(), ".tmp") {
        return None;
    }
    Some(stem)
}

/// A summary's namespace, the key the summaries are ordered by.
pub open spec fn namespace_key() -> spec_fn(FrontendStorageNamespaceSummary) -> Seq<char> {
    |s: FrontendStorageNamespaceSummary| s.namespace@
}

/// Namespace summaries ordered by namespace: the same summaries, as many
/// times each, and those of one namespace in the order they came in.
pub fn sort_namespace_summaries(items: Vec<FrontendStorageNamespaceSummary>) -> (r: Vec<
    FrontendStorageNamespaceSummary,
>)
    ensures
        r@.to_multiset() == items@.to_multiset(),
        forall|i: int, j: int|
            0 <= i < j < r@.len() ==> !text_lt(#[trigger] r@[j].namespace@, #[trigger] r@[i].namespace@),
        forall|k: Seq<char>| #[trigger] group_of(r@, namespace_key(), k) == group_of(items@, namespace_key(), k),
{
    let ghost orig = items@;
    let mut keyed: Vec<(String, FrontendStorageNamespaceSummary)> = Vec::new();
    let mut rest = items;
    let mut rev: Vec<FrontendStorageNamespaceSummary> = Vec::new();
    while rest.len() > 0
        invariant
            rev@.len() + rest@.len() == orig.len(),
            rest@ == orig.take(rest@.len() as int),
            forall|j: int| 0 <= j < rev@.len() ==> #[trigger] rev@[j] == orig[orig.len() - 1 - j],
        decreases rest@.len(),
    {
        let e = rest.pop().unwrap();
        rev.push(e);
    }
    while rev.len() > 0
        invariant
            rev@.len() + keyed@.len() == orig.len(),
            forall|j: int| 0 <= j < rev@.len() ==> #[trigger] rev@[j] == orig[orig.len() - 1 - j],
            forall|i: int| 0 <= i < keyed@.len() ==> #[trigger] keyed@[i].0@ == namespace_key()(keyed@[i].1),
            keyed@.map_values(|p: (String, FrontendStorageNamespaceSummary)| p.1) == orig.take(keyed@.len() as int),
        decreases rev@.len(),
    {
        let s = rev.pop().unwrap();
        let ghost before = keyed@;
        keyed.push((s.namespace.clone(), s));
        assert(keyed@.map_values(|p: (String, FrontendStorageNamespaceSummary)| p.1) =~= orig.take(keyed@.len() as int));
    }
    assert(orig.take(orig.len() as int) =~= orig);
    sort_records(keyed, Ghost(namespace_key()))
}

/// How many pairs the listing shows for a namespace file's text (what
/// `namespace_count` gives).
pub open spec fn spec_namespace_count(raw: Seq<char>) -> nat {
    if crate::text::trimmed(raw).len() == 0 {
        0
    } else {
        match json_value_outcome(raw) {
            Ok(Some(keys)) => keys.len(),
            _ => 0,
        }
    }
}

/// A summary as plain values: its namespace and its count.
pub open spec fn summary_view() -> spec_fn(FrontendStorageNamespaceSummary) -> (Seq<char>, nat) {
    |s: FrontendStorageNamespaceSummary| (s.namespace@, s.count as nat)
}

/// The namespace of a summary's plain values.
pub open spec fn summary_view_key() -> spec_fn((Seq<char>, nat)) -> Seq<char> {
    |v: (Seq<char>, nat)| v.0
}

/// The summaries of the storage files (name and text), in their order: one
/// for each file that holds a namespace, with the namespace and its count.
pub open spec fn spec_summaries(files: Seq<(String, String)>) -> Seq<(Seq<char>, nat)>
    decreases files.len(),
{
    if files.len() == 0 {
        Seq::empty()
    } else {
        match spec_namespace_of(files.last().0@) {
            Some(ns) => spec_summaries(files.drop_last()).push((ns, spec_namespace_count(files.last().1@))),
            None => spec_summaries(files.drop_last()),
        }
    }
}

/// The listing of the namespaces from the storage files that were read
/// (name and text): the summaries of the files that hold a namespace,
/// ordered by namespace, those of one namespace in the order of the files.
pub fn namespace_summaries(files: &Vec<(String, String)>) -> (r: Vec<FrontendStorageNamespaceSummary>)
    ensures
        forall|i: int, j: int|
            0 <= i < j < r@.len() ==> !text_lt(#[trigger] r@[j].namespace@, #[trigger] r@[i].namespace@),
        r@.map_values(summary_view()).to_multiset() == spec_summaries(files@).to_multiset(),
        forall|k: Seq<char>|
            #[trigger] group_of(r@.map_values(summary_view()), summary_view_key(), k) == group_of(
                spec_summaries(files@),
                summary_view_key(),
                k,
            ),
{
    let mut items: Vec<FrontendStorageNamespaceSummary> = Vec::new();
    let n = files.len();
    for i in 0..n
        invariant
            n == files@.len(),
            items@.map_values(summary_view()) == spec_summaries(files@.take(i as int)),
    {
        let ghost before = items@;
        proof {
            assert(files@.take(i + 1).drop_last() =~= files@.take(i as int));
            assert(files@.take(i + 1).last() == files@[i as int]);
        }
        match namespace_of_file(files[i].0.as_str()) {
            Some(ns) => {
                let count = namespace_count(files[i].1.as_str());
                items.push(FrontendStorageNamespaceSummary { namespace: ns, count });
                assert(items@.map_values(summary_view()) =~= before.map_values(summary_view()).push(
                    summary_view()(items@.last()),
                ));
            },
            None => {},
        }
    }
    assert(files@.take(n as int) =~= files@);
    let ghost unsorted = items@;
    let r = sort_namespace_summaries(items);
    proof {
        crate::sort::lemma_map_values_multiset(r@, unsorted, summary_view());
        assert forall|k: Seq<char>|
            #[trigger] group_of(r@.map_values(summary_view()), summary_view_key(), k) == group_of(
                spec_summaries(files@),
                summary_view_key(),
                k,
            ) by {
            assert(group_of(r@, namespace_key(), k) == group_of(unsorted, namespace_key(), k));
            crate::sort::lemma_group_of_map(r@, summary_view(), namespace_key(), summary_view_key(), k);
            crate::sort::lemma_group_of_map(unsorted, summary_view(), namespace_key(), summary_view_key(), k);
        }
    }
    r
}

// ── laws ─────────────────────────────────────────────────────────────────

/// A value set under a key is what the namespace then holds for that key.
pub proof fn law_set_then_get(m: Map<Seq<char>, String>, key: String, value: String)
    ensures
        m.insert(key@, value).dom().contains(key@),
        m.insert(key@, value)[key@] == value,
{
}

/// Removing an absent key changes nothing, and removing twice is removing once.
pub proof fn law_remove_idempotent(m: Map<Seq<char>, String>, key: Seq<char>)
    ensures
        !m.dom().contains(key) ==> m.remove(key) == m,
        m.remove(key).remove(key) == m.remove(key),
{
    assert(m.remove(key).remove(key) =~= m.remove(key));
    if !m.dom().contains(key) {
        assert(m.remove(key) =~= m);
    }
}

/// Setting then removing a key that was absent restores the namespace.
pub proof fn law_set_then_remove(m: Map<Seq<char>, String>, key: Seq<char>, value: String)
    requires
        !m.dom().contains(key),
    ensures
        m.insert(key, value).remove(key) == m,
{
    assert(m.insert(key, value).remove(key) =~= m);
}

} // verus!
