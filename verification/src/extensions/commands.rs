//! The extension manager: where extensions live, which are on, and the
//! listing of the extension directory.
use vstd::prelude::*;

use crate::errors::{CommandError, ErrorKind};
use crate::extensions::model::{ExtensionMeta, ExtensionMetaView};
use crate::paths::{
    checked_file_name, concat_text, confined_below, lemma_plain_name_confined, marker_plan, plain_file_name, MarkerPlan,
    PathView, StoragePath,
};
use crate::sort::{group_of, lemma_group_of_map, lemma_map_values_multiset, sort_records};
use crate::text::{ends_with_text, text_lt, trim_end_all, trim_end_matches_text};

verus! {

/// One file of a save: the extension's file name and its text.
#[derive(Debug)]
pub struct ExtensionSaveArgs {
    pub file_name: String,
    pub content: String,
}

pub open spec fn spec_extensions_root(d: PathView) -> PathView {
    d.join("extensions"@)
}

/// `<data_dir>/extensions`
pub fn extensions_root(data_dir: &StoragePath) -> (p: StoragePath)
    ensures
        p@ == spec_extensions_root(data_dir@),
{
    data_dir.join_str("extensions")
}

/// Whether an extension is on, from which of its markers exist: a
/// `.disabled` marker switches it off; otherwise (an `.enabled` marker or
/// none at all) it is on.
pub fn file_enabled(disabled_marker_exists: bool, enabled_marker_exists: bool) -> (r: bool)
    ensures
        r == !disabled_marker_exists,
{
    if disabled_marker_exists {
        return false;
    }
    if enabled_marker_exists {
        return true;
    }
    true
}

/// The two markers of an extension: `<name>.disabled` and `<name>.enabled`
/// in the extension directory.
pub fn marker_paths(data_dir: &StoragePath, file_name: &str) -> (r: (StoragePath, StoragePath))
    ensures
        r.0@ == spec_extensions_root(data_dir@).join(file_name@ + ".disabled"@),
        r.1@ == spec_extensions_root(data_dir@).join(file_name@ + ".enabled"@),
{
    let root = extensions_root(data_dir);
    (root.join(concat_text(file_name, ".disabled")), root.join(concat_text(file_name, ".enabled")))
}

/// An extension file name given by the front end: it must be plain.
pub fn safe_file_name(input: &str) -> (r: Result<String, CommandError>)
    ensures
        r is Ok <==> plain_file_name(input@),
        r matches Ok(s) ==> s@ == input@,
        input@.len() == 0 ==> (r matches Err(e) && e.kind() == ErrorKind::Invalid && e.text() == "扩展文件名不能为空"@),
        input@.len() > 0 && !plain_file_name(input@) ==> (r matches Err(e) && e.kind() == ErrorKind::Invalid
            && e.text() == "非法文件名: "@ + input@),
{
    checked_file_name(input, "扩展文件名不能为空", "非法文件名: ")
}

/// `<data_dir>/extensions/<file_name>`, for a plain file name.
pub fn extension_path(data_dir: &StoragePath, file_name: &str) -> (r: Result<StoragePath, CommandError>)
    ensures
        r is Ok <==> plain_file_name(file_name@),
        r matches Ok(p) ==> p@ == spec_extensions_root(data_dir@).join(file_name@),
        r matches Err(e) ==> e.kind() == ErrorKind::Invalid,
{
    let safe = match safe_file_name(file_name) {
        Ok(s) => s,
        Err(e) => return Err(e),
    };
    Ok(extensions_root(data_dir).join(safe))
}

/// Where a save first writes: `<data_dir>/extensions/<file_name>.tmp`.
pub fn extension_tmp_path(data_dir: &StoragePath, file_name: &str) -> (r: Result<StoragePath, CommandError>)
    ensures
        r is Ok <==> plain_file_name(file_name@),
        r matches Ok(p) ==> p@ == spec_extensions_root(data_dir@).join(file_name@ + ".tmp"@),
        r matches Err(e) ==> e.kind() == ErrorKind::Invalid,
{
    let safe = match safe_file_name(file_name) {
        Ok(s) => s,
        Err(e) => return Err(e),
    };
    Ok(extensions_root(data_dir).join(concat_text(safe.as_str(), ".tmp")))
}

/// The error when an extension to read is not there.
pub fn missing_extension(file_name: &str) -> (e: CommandError)
    ensures
        e.kind() == ErrorKind::NotFound,
        e.text() == "扩展文件不存在: "@ + file_name@,
{
    CommandError::NotFound(concat_text("扩展文件不存在: ", file_name))
}

/// The markers to write and remove to switch an extension on or off.
pub fn extension_toggle_plan(data_dir: &StoragePath, file_name: &str, enabled: bool) -> (r: Result<
    MarkerPlan,
    CommandError,
>)
    ensures
        r is Ok <==> plain_file_name(file_name@),
        r matches Err(e) ==> e.kind() == ErrorKind::Invalid,
        r matches Ok(plan) ==> {
            &&& plan.create@ == spec_extensions_root(data_dir@).join(
                file_name@ + (if enabled { ".enabled"@ } else { ".disabled"@ }),
            )
            &&& plan.remove@ == spec_extensions_root(data_dir@).join(
                file_name@ + (if enabled { ".disabled"@ } else { ".enabled"@ }),
            )
        },
{
    let safe = match safe_file_name(file_name) {
        Ok(s) => s,
        Err(e) => return Err(e),
    };
    Ok(marker_plan(&extensions_root(data_dir), safe.as_str(), enabled))
}

/// The files a delete removes where they exist: the extension, then its
/// `.disabled` and `.enabled` markers.
pub fn extension_delete_paths(data_dir: &StoragePath, file_name: &str) -> (r: Result<Vec<StoragePath>, CommandError>)
    ensures
        r is Ok <==> plain_file_name(file_name@),
        r matches Err(e) ==> e.kind() == ErrorKind::Invalid,
        r matches Ok(v) ==> {
            &&& v@.len() == 3
            &&& v@[0]@ == spec_extensions_root(data_dir@).join(file_name@)
            &&& v@[1]@ == spec_extensions_root(data_dir@).join(file_name@ + ".disabled"@)
            &&& v@[2]@ == spec_extensions_root(data_dir@).join(file_name@ + ".enabled"@)
        },
{
    let safe = match safe_file_name(file_name) {
        Ok(s) => s,
        Err(e) => return Err(e),
    };
    let (off, on) = marker_paths(data_dir, safe.as_str());
    let mut v: Vec<StoragePath> = Vec::new();
    v.push(extensions_root(data_dir).join(safe));
    v.push(off);
    v.push(on);
    Ok(v)
}

/// Every path the extension commands build from a file name stays in the
/// extension directory.
pub proof fn law_extension_paths_confined(d: PathView, name: Seq<char>)
    requires
        plain_file_name(name),
    ensures
        confined_below(spec_extensions_root(d).join(name), spec_extensions_root(d)),
        confined_below(spec_extensions_root(d).join(name + ".tmp"@), spec_extensions_root(d)),
        confined_below(spec_extensions_root(d).join(name + ".enabled"@), spec_extensions_root(d)),
        confined_below(spec_extensions_root(d).join(name + ".disabled"@), spec_extensions_root(d)),
{
    reveal_strlit(".enabled");
    reveal_strlit(".disabled");
    reveal_strlit(".tmp");
    lemma_plain_name_confined(name, Seq::empty());
    assert(name + Seq::<char>::empty() =~= name);
    lemma_plain_name_confined(name, ".tmp"@);
    lemma_plain_name_confined(name, ".enabled"@);
    lemma_plain_name_confined(name, ".disabled"@);
    let p = spec_extensions_root(d);
    assert(p.join(name).segments.take(p.segments.len() as int) =~= p.segments);
    assert(p.join(name + ".tmp"@).segments.take(p.segments.len() as int) =~= p.segments);
    assert(p.join(name + ".enabled"@).segments.take(p.segments.len() as int) =~= p.segments);
    assert(p.join(name + ".disabled"@).segments.take(p.segments.len() as int) =~= p.segments);
}

/// Switching an extension on or off and then listing it reports the state
/// it was switched to: whatever markers existed, after the switch's marker
/// is created and the other removed, the extension is on exactly when it
/// was switched on.
pub proof fn law_toggle_then_enabled(d: PathView, name: Seq<char>, enabled: bool, existing: Set<PathView>)
    ensures
        ({
            let on = spec_extensions_root(d).join(name + ".enabled"@);
            let off = spec_extensions_root(d).join(name + ".disabled"@);
            let after = existing.remove(if enabled { off } else { on }).insert(if enabled { on } else { off });
            !after.contains(off) == enabled
        }),
{
    reveal_strlit(".enabled");
    reveal_strlit(".disabled");
    let on = spec_extensions_root(d).join(name + ".enabled"@);
    let off = spec_extensions_root(d).join(name + ".disabled"@);
    assert(on.segments.last() != off.segments.last()) by {
        assert((name + ".enabled"@).len() != (name + ".disabled"@).len());
    }
    assert(on != off);
}

// ── listing ──────────────────────────────────────────────────────────────

/// An entry of the extension directory as the host found it, with whether
/// its two markers exist.
#[derive(Debug, Clone)]
pub struct ExtensionFileEntry {
    pub file_name: String,
    pub is_file: bool,
    pub file_size: u64,
    pub modified_at: i64,
    pub disabled_marker: bool,
    pub enabled_marker: bool,
}

/// An entry is an extension when it is a file whose name ends in `.js`.
pub open spec fn is_extension_file(e: ExtensionFileEntry) -> bool {
    e.is_file && e.file_name@.len() >= 3 && e.file_name@.skip(e.file_name@.len() - 3) == ".js"@
}

/// What the listing shows of an extension file: its name without `.js` as
/// the title, whether it is on, and empty header fields.
pub open spec fn extension_entry_meta(e: ExtensionFileEntry) -> ExtensionMetaView {
    ExtensionMetaView {
        file_name: e.file_name@,
        name: trim_end_all(e.file_name@, ".js"@),
        namespace: Seq::empty(),
        version: Seq::empty(),
        description: Seq::empty(),
        author: Seq::empty(),
        match_patterns: Seq::empty(),
        grants: Seq::empty(),
        run_at: Seq::empty(),
        category: Seq::empty(),
        enabled: !e.disabled_marker,
        file_size: e.file_size,
        modified_at: e.modified_at,
    }
}

/// The extension files among the entries, in order.
pub open spec fn extension_files(es: Seq<ExtensionFileEntry>) -> Seq<ExtensionFileEntry>
    decreases es.len(),
{
    if es.len() == 0 {
        es
    } else if is_extension_file(es.last()) {
        extension_files(es.drop_last()).push(es.last())
    } else {
        extension_files(es.drop_last())
    }
}

/// The listing entry of a directory entry, if it is an extension.
pub fn extension_meta_for_entry(e: &ExtensionFileEntry) -> (r: Option<ExtensionMeta>)
    ensures
        r is Some <==> is_extension_file(*e),
        r matches Some(m) ==> m@ == extension_entry_meta(*e),
{
    if !e.is_file {
        return None;
    }
    proof {
        reveal_strlit(".js");
    }
    if !ends_with_text(e.file_name.as_str(), ".js") {
        return None;
    }
    let m = ExtensionMeta {
        file_name: e.file_name.clone(),
        name: trim_end_matches_text(e.file_name.as_str(), ".js"),
        namespace: String::new(),
        version: String::new(),
        description: String::new(),
        author: String::new(),
        match_patterns: Vec::new(),
        grants: Vec::new(),
        run_at: String::new(),
        category: String::new(),
        enabled: file_enabled(e.disabled_marker, e.enabled_marker),
        file_size: e.file_size,
        modified_at: e.modified_at,
    };
    proof {
        assert(crate::json::texts(m.match_patterns@) =~= Seq::<Seq<char>>::empty());
        assert(crate::json::texts(m.grants@) =~= Seq::<Seq<char>>::empty());
    }
    Some(m)
}

/// An extension's file name, the key the listing is ordered by.
pub open spec fn ext_key() -> spec_fn(ExtensionMeta) -> Seq<char> {
    |m: ExtensionMeta| m.file_name@
}

/// The file name in an extension's view.
pub open spec fn ext_view_key() -> spec_fn(ExtensionMetaView) -> Seq<char> {
    |v: ExtensionMetaView| v.file_name
}

/// The views of the given extensions, in order.
pub open spec fn ext_views(s: Seq<ExtensionMeta>) -> Seq<ExtensionMetaView> {
    s.map_values(|m: ExtensionMeta| m@)
}

/// What the extension files among `entries` show as, in their order.
pub open spec fn listed_extensions(entries: Seq<ExtensionFileEntry>) -> Seq<ExtensionMetaView> {
    extension_files(entries).map_values(|e: ExtensionFileEntry| extension_entry_meta(e))
}

/// The extensions among the directory entries, ordered by file name: as
/// many of each as there are files that show as it, and those of one file
/// name in the order of the entries.
pub fn list_extensions(entries: &Vec<ExtensionFileEntry>) -> (r: Vec<ExtensionMeta>)
    ensures
        forall|i: int, j: int| 0 <= i < j < r@.len() ==> !text_lt(#[trigger] r@[j].file_name@, #[trigger] r@[i].file_name@),
        ext_views(r@).to_multiset() == listed_extensions(entries@).to_multiset(),
        forall|k: Seq<char>|
            #[trigger] group_of(ext_views(r@), ext_view_key(), k) == group_of(listed_extensions(entries@), ext_view_key(), k),
{
    let mut keyed: Vec<(String, ExtensionMeta)> = Vec::new();
    let n = entries.len();
    for i in 0..n
        invariant
            n == entries@.len(),
            forall|k: int| 0 <= k < keyed@.len() ==> #[trigger] keyed@[k].0@ == ext_key()(keyed@[k].1),
            keyed@.map_values(|p: (String, ExtensionMeta)| p.1@) == extension_files(entries@.take(i as int)).map_values(
                |e: ExtensionFileEntry| extension_entry_meta(e),
            ),
    {
        let ghost before = keyed@;
        proof {
            assert(entries@.take(i + 1).drop_last() =~= entries@.take(i as int));
            assert(entries@.take(i + 1).last() == entries@[i as int]);
        }
        match extension_meta_for_entry(&entries[i]) {
            Some(m) => {
                let k = m.file_name.clone();
                keyed.push((k, m));
                assert(keyed@.map_values(|p: (String, ExtensionMeta)| p.1@) =~= before.map_values(
                    |p: (String, ExtensionMeta)| p.1@,
                ).push(extension_entry_meta(entries@[i as int])));
                assert(extension_files(entries@.take(i + 1)) == extension_files(entries@.take(i as int)).push(
                    entries@[i as int],
                ));
                assert(extension_files(entries@.take(i + 1)).map_values(|e: ExtensionFileEntry| extension_entry_meta(e))
                    =~= extension_files(entries@.take(i as int)).map_values(
                    |e: ExtensionFileEntry| extension_entry_meta(e),
                ).push(extension_entry_meta(entries@[i as int])));
            },
            None => {
                assert(keyed@ == before);
            },
        }
    }
    assert(entries@.take(n as int) =~= entries@);
    let r = sort_records(keyed, Ghost(ext_key()));
    proof {
        let unsorted = keyed@.map_values(|p: (String, ExtensionMeta)| p.1);
        lemma_map_values_multiset(r@, unsorted, |m: ExtensionMeta| m@);
        assert(unsorted.map_values(|m: ExtensionMeta| m@) =~= keyed@.map_values(|p: (String, ExtensionMeta)| p.1@));
        assert forall|k: Seq<char>|
            #[trigger] group_of(ext_views(r@), ext_view_key(), k) == group_of(listed_extensions(entries@), ext_view_key(), k) by {
            lemma_group_of_map(r@, |m: ExtensionMeta| m@, ext_key(), ext_view_key(), k);
            lemma_group_of_map(unsorted, |m: ExtensionMeta| m@, ext_key(), ext_view_key(), k);
        }
    }
    r
}


/// A listed extension is enabled exactly when its `.disabled` marker does
/// not exist: a fresh extension (no marker) is enabled, an `.enabled` marker
/// alone changes nothing, and a `.disabled` marker wins over both. So after a
/// switch (see `law_toggle_then_enabled`) the listing shows the state
/// switched to.
pub proof fn law_listed_enabled(e: ExtensionFileEntry)
    ensures
        extension_entry_meta(e).enabled <==> !e.disabled_marker,
        !e.disabled_marker && !e.enabled_marker ==> extension_entry_meta(e).enabled,
        e.disabled_marker ==> !extension_entry_meta(e).enabled,
{
}

/// Every extension of a listing carries the enabled state of its own file.
pub proof fn law_listing_enabled(es: Seq<ExtensionFileEntry>)
    ensures
        listed_extensions(es).len() == extension_files(es).len(),
        forall|i: int|
            0 <= i < listed_extensions(es).len() ==> (#[trigger] listed_extensions(es)[i]).enabled
                == !extension_files(es)[i].disabled_marker && listed_extensions(es)[i].file_name
                == extension_files(es)[i].file_name@,
{
}

} // verus!
