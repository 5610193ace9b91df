//! The book-source manager: its directories, the listing of their `.js`
//! files, and the paths of single sources, drafts and on/off markers.
use vstd::prelude::*;

use crate::booksource::model::{BookSourceMeta, BookSourceMetaView};
use crate::errors::{CommandError, ErrorKind};
use crate::json::{json_pretty_string_list, json_string_list, parse_string_list, pretty_string_list, texts};
use crate::paths::{
    checked_file_name, concat_text, confined_below, lemma_plain_name_confined, marker_plan, plain_file_name,
    spec_extension, split_file_name, MarkerPlan, PathView, StoragePath,
};
use crate::sort::{group_of, lemma_group_of_map, lemma_map_values_multiset, sort_records};
use crate::text::{owned, same_text, text_lt, trim_end_all, trim_end_matches_text, trim_text, trimmed, lemma_trimmed_nonempty};

verus! {

// ── directories ──────────────────────────────────────────────────────────

pub open spec fn spec_primary_booksource_dir(d: PathView) -> PathView {
    d.join("booksource"@)
}

pub open spec fn spec_extra_dirs_path(d: PathView) -> PathView {
    d.join("external-booksource-dirs.json"@)
}

/// `<data_dir>/booksource`, the directory of the user's own book sources.
pub fn primary_booksource_dir(data_dir: &StoragePath) -> (p: StoragePath)
    ensures
        p@ == spec_primary_booksource_dir(data_dir@),
{
    data_dir.join_str("booksource")
}

/// `<data_dir>/external-booksource-dirs.json`, the list of added directories.
pub fn extra_dirs_path(data_dir: &StoragePath) -> (p: StoragePath)
    ensures
        p@ == spec_extra_dirs_path(data_dir@),
{
    data_dir.join_str("external-booksource-dirs.json")
}

/// Where the list is written before it replaces the old one.
pub fn extra_dirs_tmp_path(data_dir: &StoragePath) -> (p: StoragePath)
    ensures
        p@ == data_dir@.join("external-booksource-dirs.json.tmp"@),
{
    data_dir.join_str("external-booksource-dirs.json.tmp")
}

/// `acc` followed by the items of `xs` it does not hold yet, each once, in
/// the order they first occur.
pub open spec fn keep_new(acc: Seq<Seq<char>>, xs: Seq<Seq<char>>) -> Seq<Seq<char>>
    decreases xs.len(),
{
    if xs.len() == 0 {
        acc
    } else {
        let a = keep_new(acc, xs.drop_last());
        if a.contains(xs.last()) {
            a
        } else {
            a.push(xs.last())
        }
    }
}

/// The directories searched for book sources: the primary one first, then
/// the added ones, without repeats.
pub open spec fn spec_all_dirs(primary: Seq<char>, extras: Seq<Seq<char>>) -> Seq<Seq<char>> {
    keep_new(seq![primary], extras)
}

pub open spec fn no_repeats(s: Seq<Seq<char>>) -> bool {
    forall|i: int, j: int| 0 <= i < j < s.len() ==> s[i] != s[j]
}

proof fn lemma_keep_new(acc: Seq<Seq<char>>, xs: Seq<Seq<char>>)
    requires
        no_repeats(acc),
    ensures
        no_repeats(keep_new(acc, xs)),
        acc.len() <= keep_new(acc, xs).len(),
        keep_new(acc, xs).take(acc.len() as int) == acc,
        forall|x: Seq<char>| #[trigger] keep_new(acc, xs).contains(x) <==> acc.contains(x) || xs.contains(x),
    decreases xs.len(),
{
    if xs.len() > 0 {
        let a = keep_new(acc, xs.drop_last());
        lemma_keep_new(acc, xs.drop_last());
        let r = keep_new(acc, xs);
        assert forall|x: Seq<char>| #[trigger] r.contains(x) <==> acc.contains(x) || xs.contains(x) by {
            if xs.contains(x) && !xs.drop_last().contains(x) {
                let k = choose|k: int| 0 <= k < xs.len() && xs[k] == x;
                if k < xs.len() - 1 {
                    assert(xs.drop_last()[k] == x);
                }
                assert(x == xs.last());
                if !a.contains(x) {
                    assert(r[r.len() - 1] == x);
                }
            }
            if xs.drop_last().contains(x) {
                let k = choose|k: int| 0 <= k < xs.drop_last().len() && xs.drop_last()[k] == x;
                assert(xs[k] == x);
            }
            if r.contains(x) && !a.contains(x) {
                let k = choose|k: int| 0 <= k < r.len() && r[k] == x;
                if k < a.len() {
                    assert(a[k] == x);
                }
                assert(xs[xs.len() - 1] == x);
            }
            if a.contains(x) && !a.contains(xs.last()) {
                let k = choose|k: int| 0 <= k < a.len() && a[k] == x;
                assert(r[k] == x);
            }
        }
        if !a.contains(xs.last()) {
            assert(r.take(acc.len() as int) =~= a.take(acc.len() as int));
        }
    }
}

/// Whether a list of strings holds `t`.
pub fn contains_text(v: &Vec<String>, t: &str) -> (r: bool)
    ensures
        r == texts(v@).contains(t@),
{
    let n = v.len();
    for i in 0..n
        invariant
            n == v@.len(),
            forall|j: int| 0 <= j < i ==> v@[j]@ != t@,
    {
        if same_text(v[i].as_str(), t) {
            assert(texts(v@)[i as int] == t@);
            return true;
        }
    }
    proof {
        if texts(v@).contains(t@) {
            let k = choose|k: int| 0 <= k < texts(v@).len() && texts(v@)[k] == t@;
            assert(v@[k]@ == t@);
        }
    }
    false
}

/// The primary directory first, then each added directory not seen before.
pub fn all_dirs(primary: String, extras: Vec<String>) -> (r: Vec<String>)
    ensures
        texts(r@) == spec_all_dirs(primary@, texts(extras@)),
{
    let ghost xs = texts(extras@);
    let mut all: Vec<String> = Vec::new();
    all.push(primary);
    proof {
        assert(texts(all@) =~= seq![all@[0]@]);
        assert(xs.take(0) =~= Seq::<Seq<char>>::empty());
    }
    let mut rest = extras;
    let mut i: usize = 0;
    let ghost orig = rest@;
    let total = rest.len();
    // consume from the front, in order
    let mut rev: Vec<String> = Vec::new();
    while rest.len() > 0
        invariant
            rev@.len() + rest@.len() == orig.len(),
            rest@ == orig.take(rest@.len() as int),
            forall|j: int| 0 <= j < rev@.len() ==> #[trigger] rev@[j] == orig[orig.len() - 1 - j],
        decreases rest@.len(),
    {
        let e = rest.pop().unwrap();
        rev.push(e);
    }
    let ghost n = orig.len();
    while rev.len() > 0
        invariant
            n == orig.len(),
            n == total,
            xs == texts(orig),
            i + rev@.len() == n,
            forall|j: int| 0 <= j < rev@.len() ==> #[trigger] rev@[j] == orig[n - 1 - j],
            texts(all@) == spec_all_dirs(primary@, xs.take(i as int)),
        decreases rev@.len(),
    {
        let e = rev.pop().unwrap();
        assert(e == orig[i as int]);
        let ghost before = texts(all@);
        proof {
            assert(xs.take(i + 1).drop_last() =~= xs.take(i as int));
            assert(xs.take(i + 1).last() == e@);
        }
        if !contains_text(&all, e.as_str()) {
            all.push(e);
            assert(texts(all@) =~= before.push(e@));
        }
        i = i + 1;
    }
    assert(xs.take(n as int) =~= xs);
    all
}

/// The directory list holds the primary directory first, every added
/// directory, nothing else, and no directory twice.
pub proof fn law_all_dirs(primary: Seq<char>, extras: Seq<Seq<char>>)
    ensures
        spec_all_dirs(primary, extras).len() >= 1,
        spec_all_dirs(primary, extras)[0] == primary,
        no_repeats(spec_all_dirs(primary, extras)),
        forall|x: Seq<char>| #[trigger] spec_all_dirs(primary, extras).contains(x) <==> x == primary || extras.contains(x),
{
    let acc = seq![primary];
    lemma_keep_new(acc, extras);
    let r = spec_all_dirs(primary, extras);
    assert(r.take(1)[0] == primary);
    assert forall|x: Seq<char>| #[trigger] r.contains(x) <==> x == primary || extras.contains(x) by {
        assert(acc.contains(x) <==> x == primary) by {
            if acc.contains(x) {
                let k = choose|k: int| 0 <= k < acc.len() && acc[k] == x;
            }
            if x == primary {
                assert(acc[0] == x);
            }
        }
    }
}

/// An added directory must be given as a non-blank text.
pub fn check_dir_input(dir_path: &str) -> (r: Result<(), CommandError>)
    ensures
        r is Ok <==> trimmed(dir_path@).len() > 0,
        r matches Err(e) ==> e.kind() == ErrorKind::Invalid && e.text() == "外部书源目录不能为空"@,
{
    let t = trim_text(dir_path);
    if t.as_str().is_empty() {
        return Err(CommandError::Invalid(owned("外部书源目录不能为空")));
    }
    Ok(())
}

/// The form in which a directory is stored, from what the host found out
/// about it: it must exist and be a directory; it is stored canonicalised
/// when the host could canonicalise it, else as given.
pub fn normalized_dir(input: &str, exists: bool, is_dir: bool, canonical: Option<String>) -> (r: Result<
    String,
    CommandError,
>)
    ensures
        r is Ok <==> exists && is_dir,
        !exists ==> (r matches Err(e) && e.kind() == ErrorKind::Invalid && e.text() == "目录不存在: "@ + input@),
        exists && !is_dir ==> (r matches Err(e) && e.kind() == ErrorKind::Invalid && e.text() == "不是目录: "@
            + input@),
        r matches Ok(s) ==> s@ == (match canonical {
            Some(c) => c@,
            None => input@,
        }),
{
    if !exists {
        return Err(CommandError::Invalid(concat_text("目录不存在: ", input)));
    }
    if !is_dir {
        return Err(CommandError::Invalid(concat_text("不是目录: ", input)));
    }
    match canonical {
        Some(c) => Ok(c),
        None => Ok(owned(input)),
    }
}

/// Adds a directory to the list unless it is there; says whether the list
/// changed (and so must be written back).
pub fn add_extra_dir(extras: &mut Vec<String>, dir: String) -> (changed: bool)
    ensures
        changed == !texts(old(extras)@).contains(dir@),
        changed ==> final(extras)@ == old(extras)@.push(dir),
        !changed ==> final(extras)@ == old(extras)@,
{
    if contains_text(extras, dir.as_str()) {
        false
    } else {
        extras.push(dir);
        true
    }
}

/// The list without any entry equal to `x`.
pub open spec fn without(xs: Seq<Seq<char>>, x: Seq<char>) -> Seq<Seq<char>>
    decreases xs.len(),
{
    if xs.len() == 0 {
        xs
    } else if xs.last() == x {
        without(xs.drop_last(), x)
    } else {
        without(xs.drop_last(), x).push(xs.last())
    }
}

pub proof fn lemma_without(xs: Seq<Seq<char>>, x: Seq<char>)
    ensures
        without(xs, x).len() <= xs.len(),
        without(xs, x).len() == xs.len() <==> !xs.contains(x),
        forall|y: Seq<char>| #[trigger] without(xs, x).contains(y) <==> xs.contains(y) && y != x,
    decreases xs.len(),
{
    if xs.len() > 0 {
        let t = xs.drop_last();
        lemma_without(t, x);
        let w = without(xs, x);
        assert forall|y: Seq<char>| #[trigger] w.contains(y) <==> xs.contains(y) && y != x by {
            if xs.contains(y) {
                let k = choose|k: int| 0 <= k < xs.len() && xs[k] == y;
                if k < xs.len() - 1 {
                    assert(t[k] == y);
                }
            }
            if t.contains(y) {
                let k = choose|k: int| 0 <= k < t.len() && t[k] == y;
                assert(xs[k] == y);
            }
            if xs.last() != x {
                if w.contains(y) {
                    let k = choose|k: int| 0 <= k < w.len() && w[k] == y;
                    if k < w.len() - 1 {
                        assert(without(t, x)[k] == y);
                    }
                }
                if without(t, x).contains(y) {
                    let k = choose|k: int| 0 <= k < without(t, x).len() && without(t, x)[k] == y;
                    assert(w[k] == y);
                }
                if y == xs.last() {
                    assert(w[w.len() - 1] == y);
                }
            }
        }
        if xs.contains(x) && !t.contains(x) {
            let k = choose|k: int| 0 <= k < xs.len() && xs[k] == x;
            if k < xs.len() - 1 {
                assert(t[k] == x);
            }
        }
        if xs.last() == x {
            assert(xs.contains(x)) by {
                assert(xs[xs.len() - 1] == x);
            }
        }
        if t.contains(x) {
            let k = choose|k: int| 0 <= k < t.len() && t[k] == x;
            assert(xs[k] == x);
        }
    }
}

/// Removes every entry equal to `dir`; says whether the list changed.
pub fn remove_extra_dir(extras: &mut Vec<String>, dir: &str) -> (changed: bool)
    ensures
        texts(final(extras)@) == without(texts(old(extras)@), dir@),
        changed == texts(old(extras)@).contains(dir@),
{
    let ghost orig = texts(extras@);
    let mut kept: Vec<String> = Vec::new();
    let mut rest: Vec<String> = Vec::new();
    std::mem::swap(&mut rest, extras);
    let ghost all = rest@;
    let total = rest.len();
    // walk from the back, then restore the order
    let mut back: Vec<String> = Vec::new();
    while rest.len() > 0
        invariant
            back@.len() + rest@.len() == all.len(),
            rest@ == all.take(rest@.len() as int),
            forall|j: int| 0 <= j < back@.len() ==> #[trigger] back@[j] == all[all.len() - 1 - j],
        decreases rest@.len(),
    {
        let e = rest.pop().unwrap();
        back.push(e);
    }
    let mut i: usize = 0;
    let ghost n = all.len();
    while back.len() > 0
        invariant
            n == all.len(),
            n == total,
            orig == texts(all),
            i + back@.len() == n,
            forall|j: int| 0 <= j < back@.len() ==> #[trigger] back@[j] == all[n - 1 - j],
            texts(kept@) == without(orig.take(i as int), dir@),
        decreases back@.len(),
    {
        let e = back.pop().unwrap();
        assert(e == all[i as int]);
        let ghost before = texts(kept@);
        proof {
            assert(orig.take(i + 1).drop_last() =~= orig.take(i as int));
            assert(orig.take(i + 1).last() == e@);
        }
        if !same_text(e.as_str(), dir) {
            kept.push(e);
            assert(texts(kept@) =~= before.push(e@));
        }
        i = i + 1;
    }
    assert(orig.take(n as int) =~= orig);
    proof {
        lemma_without(orig, dir@);
    }
    let changed = kept.len() != i;
    *extras = kept;
    changed
}

/// Adding a directory makes the list hold it; adding it again changes
/// nothing.
pub proof fn law_add_dir(extras: Seq<Seq<char>>, dir: Seq<char>)
    ensures
        (if extras.contains(dir) { extras } else { extras.push(dir) }).contains(dir),
        extras.contains(dir) ==> (if extras.contains(dir) { extras } else { extras.push(dir) }) == extras,
{
    if !extras.contains(dir) {
        assert(extras.push(dir)[extras.len() as int] == dir);
    }
}

/// Removing a directory leaves no entry of it and keeps every other one;
/// removing it again changes nothing.
pub proof fn law_remove_dir(extras: Seq<Seq<char>>, dir: Seq<char>)
    ensures
        !without(extras, dir).contains(dir),
        forall|y: Seq<char>| y != dir ==> (#[trigger] without(extras, dir).contains(y) <==> extras.contains(y)),
        without(without(extras, dir), dir) == without(extras, dir),
{
    lemma_without(extras, dir);
    lemma_without(without(extras, dir), dir);
    lemma_without_absent(without(extras, dir), dir);
}

proof fn lemma_without_absent(xs: Seq<Seq<char>>, x: Seq<char>)
    requires
        !xs.contains(x),
    ensures
        without(xs, x) == xs,
    decreases xs.len(),
{
    if xs.len() > 0 {
        assert(xs[xs.len() - 1] == xs.last());
        assert(!xs.drop_last().contains(x)) by {
            if xs.drop_last().contains(x) {
                let k = choose|k: int| 0 <= k < xs.drop_last().len() && xs.drop_last()[k] == x;
                assert(xs[k] == x);
            }
        }
        lemma_without_absent(xs.drop_last(), x);
        assert(xs.drop_last().push(xs.last()) =~= xs);
    }
}

/// The stored list of added directories, from the file's text (`None` when
/// there is no file): empty for a missing or blank file, else the JSON array
/// of strings it holds, or a `Serde` error with the parser's message.
pub fn read_extra_dirs(raw: Option<&str>) -> (r: Result<Vec<String>, CommandError>)
    ensures
        raw is None ==> (r matches Ok(v) && v@.len() == 0),
        raw matches Some(t) ==> (if trimmed(t@).len() == 0 {
            r matches Ok(v) && v@.len() == 0
        } else {
            match json_string_list(t@) {
                Ok(items) => r matches Ok(v) && texts(v@) == items,
                Err(m) => r matches Err(e) && e.kind() == ErrorKind::Serde && e.text() == m,
            }
        }),
{
    match raw {
        None => Ok(Vec::new()),
        Some(t) => {
            let tt = trim_text(t);
            if tt.as_str().is_empty() {
                return Ok(Vec::new());
            }
            match parse_string_list(t) {
                Ok(v) => Ok(v),
                Err(m) => Err(CommandError::Serde(m)),
            }
        },
    }
}

/// The text written to the list file: the indented JSON array of the
/// directories, which is not blank and reads back (by `read_extra_dirs`) as
/// the same list.
pub fn extra_dirs_json(dirs: &Vec<String>) -> (r: Result<String, CommandError>)
    ensures
        r matches Ok(t) && json_pretty_string_list(texts(dirs@)) == Ok::<Seq<char>, Seq<char>>(t@)
            && trimmed(t@).len() > 0 && json_string_list(t@) == Ok::<Seq<Seq<char>>, Seq<char>>(texts(dirs@)),
{
    match pretty_string_list(dirs) {
        Ok(s) => {
            proof {
                lemma_trimmed_nonempty(s@);
            }
            Ok(s)
        },
        Err(m) => Err(CommandError::Serde(m)),
    }
}


// ── listing ──────────────────────────────────────────────────────────────

/// A file the host found in one of the book-source directories.
#[derive(Debug, Clone)]
pub struct SourceFileEntry {
    pub source_dir: String,
    pub file_name: String,
    pub file_size: u64,
    pub modified_at: i64,
}

/// A file is a book source when its extension is `js`.
pub open spec fn is_source_file(e: SourceFileEntry) -> bool {
    spec_extension(e.file_name@) == Some("js"@)
}

/// What the listing shows of a book-source file: its name without the
/// `.js` suffix as the title, enabled, of type `novel`, no other metadata.
pub open spec fn entry_meta(e: SourceFileEntry) -> BookSourceMetaView {
    BookSourceMetaView {
        source_key: None,
        uuid: None,
        file_name: e.file_name@,
        name: trim_end_all(e.file_name@, ".js"@),
        author: None,
        logo: None,
        description: None,
        enabled: true,
        file_size: e.file_size,
        modified_at: e.modified_at,
        source_dir: e.source_dir@,
        source_type: "novel"@,
    }
}

/// The book-source files among the entries, in order.
pub open spec fn source_files(es: Seq<SourceFileEntry>) -> Seq<SourceFileEntry>
    decreases es.len(),
{
    if es.len() == 0 {
        es
    } else if is_source_file(es.last()) {
        source_files(es.drop_last()).push(es.last())
    } else {
        source_files(es.drop_last())
    }
}

/// The listing entry of a file, if it is a book source.
pub fn source_meta_for_entry(e: &SourceFileEntry) -> (r: Option<BookSourceMeta>)
    ensures
        r is Some <==> is_source_file(*e),
        r matches Some(m) ==> m@ == entry_meta(*e),
{
    let (_, ext) = split_file_name(e.file_name.as_str());
    let is_js = match &ext {
        Some(x) => same_text(x.as_str(), "js"),
        None => false,
    };
    if !is_js {
        return None;
    }
    proof {
        reveal_strlit(".js");
    }
    Some(BookSourceMeta {
        source_key: None,
        uuid: None,
        file_name: e.file_name.clone(),
        name: trim_end_matches_text(e.file_name.as_str(), ".js"),
        author: None,
        logo: None,
        description: None,
        enabled: true,
        file_size: e.file_size,
        modified_at: e.modified_at,
        source_dir: e.source_dir.clone(),
        source_type: owned("novel"),
    })
}

/// A book source's file name, the key the listing is ordered by.
pub open spec fn meta_key() -> spec_fn(BookSourceMeta) -> Seq<char> {
    |m: BookSourceMeta| m.file_name@
}

/// The file name in a book source's view.
pub open spec fn meta_view_key() -> spec_fn(BookSourceMetaView) -> Seq<char> {
    |v: BookSourceMetaView| v.file_name
}

/// The views of the given book sources, in order.
pub open spec fn meta_views(s: Seq<BookSourceMeta>) -> Seq<BookSourceMetaView> {
    s.map_values(|m: BookSourceMeta| m@)
}

/// What the source files among `entries` show as, in their order.
pub open spec fn listed_metas(entries: Seq<SourceFileEntry>) -> Seq<BookSourceMetaView> {
    source_files(entries).map_values(|e: SourceFileEntry| entry_meta(e))
}

/// The book sources among the listed files, ordered by file name: as many
/// of each as there are source files that show as it, and those of one file
/// name in the order of the entries.
pub fn list_book_sources(entries: &Vec<SourceFileEntry>) -> (r: Vec<BookSourceMeta>)
    ensures
        forall|i: int, j: int| 0 <= i < j < r@.len() ==> !text_lt(#[trigger] r@[j].file_name@, #[trigger] r@[i].file_name@),
        meta_views(r@).to_multiset() == listed_metas(entries@).to_multiset(),
        forall|k: Seq<char>|
            #[trigger] group_of(meta_views(r@), meta_view_key(), k) == group_of(listed_metas(entries@), meta_view_key(), k),
{
    let mut keyed: Vec<(String, BookSourceMeta)> = Vec::new();
    let n = entries.len();
    for i in 0..n
        invariant
            n == entries@.len(),
            forall|k: int| 0 <= k < keyed@.len() ==> #[trigger] keyed@[k].0@ == meta_key()(keyed@[k].1),
            keyed@.map_values(|p: (String, BookSourceMeta)| p.1@) == source_files(entries@.take(i as int)).map_values(
                |e: SourceFileEntry| entry_meta(e),
            ),
    {
        let ghost before = keyed@;
        proof {
            assert(entries@.take(i + 1).drop_last() =~= entries@.take(i as int));
            assert(entries@.take(i + 1).last() == entries@[i as int]);
        }
        match source_meta_for_entry(&entries[i]) {
            Some(m) => {
                let k = m.file_name.clone();
                keyed.push((k, m));
                assert(keyed@.map_values(|p: (String, BookSourceMeta)| p.1@) =~= before.map_values(
                    |p: (String, BookSourceMeta)| p.1@,
                ).push(entry_meta(entries@[i as int])));
                assert(source_files(entries@.take(i + 1)) == source_files(entries@.take(i as int)).push(entries@[i as int]));
                assert(source_files(entries@.take(i + 1)).map_values(|e: SourceFileEntry| entry_meta(e)) =~= source_files(
                    entries@.take(i as int),
                ).map_values(|e: SourceFileEntry| entry_meta(e)).push(entry_meta(entries@[i as int])));
            },
            None => {
                assert(keyed@ == before);
            },
        }
    }
    assert(entries@.take(n as int) =~= entries@);
    let r = sort_records(keyed, Ghost(meta_key()));
    proof {
        let unsorted = keyed@.map_values(|p: (String, BookSourceMeta)| p.1);
        lemma_map_values_multiset(r@, unsorted, |m: BookSourceMeta| m@);
        assert(unsorted.map_values(|m: BookSourceMeta| m@) =~= keyed@.map_values(
            |p: (String, BookSourceMeta)| p.1@,
        ));
        assert forall|k: Seq<char>|
            #[trigger] group_of(meta_views(r@), meta_view_key(), k) == group_of(listed_metas(entries@), meta_view_key(), k) by {
            lemma_group_of_map(r@, |m: BookSourceMeta| m@, meta_key(), meta_view_key(), k);
            lemma_group_of_map(unsorted, |m: BookSourceMeta| m@, meta_key(), meta_view_key(), k);
        }
    }
    r
}


// ── streaming the listing ────────────────────────────────────────────────

/// How many book sources one streamed event carries at most.
pub const LISTING_BATCH: usize = 50;

/// The `i`-th batch of a listing: items `50 i` up to `50 (i + 1)`, or to the
/// end.
pub open spec fn batch_of<T>(s: Seq<T>, i: int) -> Seq<T> {
    s.subrange(50 * i, if 50 * (i + 1) < s.len() { 50 * (i + 1) } else { s.len() as int })
}

/// How many batches a listing of `n` items takes.
pub open spec fn batch_count(n: nat) -> nat {
    ((n + 49) / 50) as nat
}

/// The items in consecutive batches of `LISTING_BATCH`.
pub fn split_batches<T>(items: Vec<T>) -> (r: Vec<Vec<T>>)
    ensures
        r@.len() == batch_count(items@.len()),
        forall|i: int| 0 <= i < r@.len() ==> (#[trigger] r@[i])@ == batch_of(items@, i),
{
    let ghost orig = items@;
    let n = items.len();
    let mut rest = items;
    let mut rev: Vec<T> = Vec::new();
    while rest.len() > 0
        invariant
            rev@.len() + rest@.len() == n,
            n == orig.len(),
            rest@ == orig.take(rest@.len() as int),
            forall|j: int| 0 <= j < rev@.len() ==> #[trigger] rev@[j] == orig[n - 1 - j],
        decreases rest@.len(),
    {
        let e = rest.pop().unwrap();
        rev.push(e);
    }
    let mut out: Vec<Vec<T>> = Vec::new();
    while rev.len() > 0
        invariant
            n == orig.len(),
            rev@.len() <= n,
            forall|j: int| 0 <= j < rev@.len() ==> #[trigger] rev@[j] == orig[n - 1 - j],
            rev@.len() > 0 ==> n - rev@.len() == 50 * out@.len(),
            rev@.len() == 0 ==> 50 * (out@.len() - 1) < n <= 50 * out@.len() || (n == 0 && out@.len() == 0),
            forall|i: int| 0 <= i < out@.len() ==> (#[trigger] out@[i])@ == batch_of(orig, i),
        decreases rev@.len(),
    {
        let start = n - rev.len();
        let mut chunk: Vec<T> = Vec::new();
        while chunk.len() < LISTING_BATCH && rev.len() > 0
            invariant
                n == orig.len(),
                start == n - rev@.len() - chunk@.len(),
                chunk@.len() <= 50,
                rev@.len() <= n,
                forall|j: int| 0 <= j < rev@.len() ==> #[trigger] rev@[j] == orig[n - 1 - j],
                chunk@ == orig.subrange(start as int, start + chunk@.len()),
            decreases rev@.len(),
        {
            let e = rev.pop().unwrap();
            chunk.push(e);
            assert(chunk@ =~= orig.subrange(start as int, start + chunk@.len()));
        }
        let ghost b = out@.len();
        assert(chunk@ == batch_of(orig, b as int));
        out.push(chunk);
    }
    out
}

/// The batches cover the listing in order: item `k` is item `k % 50` of
/// batch `k / 50`, and every batch but the last is full.
pub proof fn law_batches_cover<T>(items: Seq<T>)
    ensures
        forall|k: int| 0 <= k < items.len() ==> k / 50 < batch_count(items.len()) && #[trigger] items[k] == batch_of(items, k / 50)[k % 50],
        forall|i: int| 0 <= i < batch_count(items.len()) - 1 ==> #[trigger] batch_of(items, i).len() == 50,
        forall|i: int| 0 <= i < batch_count(items.len()) ==> #[trigger] batch_of(items, i).len() > 0,
{
    assert forall|k: int| 0 <= k < items.len() implies k / 50 < batch_count(items.len()) && #[trigger] items[k] == batch_of(items, k / 50)[k % 50] by {
        let b = k / 50;
        assert(50 * b <= k < 50 * (b + 1));
        assert(batch_of(items, b)[k % 50] == items[50 * b + k % 50]);
    }
}

/// One event of the streamed listing.
#[derive(Debug)]
pub struct ListingEvent {
    pub request_id: String,
    pub items: Vec<BookSourceMeta>,
    pub done: bool,
    pub total: Option<usize>,
    pub error: Option<String>,
}

/// The events that stream a listing to the front end: each batch with the
/// total and `done` unset, then an empty event with `done` set; or, when
/// the listing failed, a single `done` event that carries the error message.
pub fn listing_events(request_id: &str, listing: Result<Vec<BookSourceMeta>, CommandError>) -> (r: Vec<ListingEvent>)
    ensures
        forall|i: int| 0 <= i < r@.len() ==> (#[trigger] r@[i]).request_id@ == request_id@,
        match listing {
            Ok(items) => {
                &&& r@.len() == batch_count(items@.len()) + 1
                &&& forall|i: int| 0 <= i < r@.len() - 1 ==> {
                    &&& !(#[trigger] r@[i]).done
                    &&& r@[i].items@ == batch_of(items@, i)
                    &&& r@[i].total == Some(items@.len() as usize)
                    &&& r@[i].error is None
                }
                &&& r@.last().done
                &&& r@.last().items@.len() == 0
                &&& r@.last().total == Some(items@.len() as usize)
                &&& r@.last().error is None
            },
            Err(e) => {
                &&& r@.len() == 1
                &&& r@[0].done
                &&& r@[0].items@.len() == 0
                &&& r@[0].total is None
                &&& r@[0].error matches Some(m) && m@ == crate::errors::error_prefix(e.kind()) + e.text()
            },
        },
{
    match listing {
        Ok(items) => {
            let total = items.len();
            let ghost all = items@;
            let batches = split_batches(items);
            let mut out: Vec<ListingEvent> = Vec::new();
            let mut rest = batches;
            let ghost bs = rest@;
            let mut rev: Vec<Vec<BookSourceMeta>> = Vec::new();
            while rest.len() > 0
                invariant
                    rev@.len() + rest@.len() == bs.len(),
                    rest@ == bs.take(rest@.len() as int),
                    forall|j: int| 0 <= j < rev@.len() ==> #[trigger] rev@[j] == bs[bs.len() - 1 - j],
                decreases rest@.len(),
            {
                let e = rest.pop().unwrap();
                rev.push(e);
            }
            while rev.len() > 0
                invariant
                    bs.len() == batch_count(all.len()),
                    total == all.len(),
                    forall|i: int| 0 <= i < bs.len() ==> (#[trigger] bs[i])@ == batch_of(all, i),
                    rev@.len() + out@.len() == bs.len(),
                    forall|j: int| 0 <= j < rev@.len() ==> #[trigger] rev@[j] == bs[bs.len() - 1 - j],
                    forall|i: int| 0 <= i < out@.len() ==> {
                        &&& (#[trigger] out@[i]).request_id@ == request_id@
                        &&& !out@[i].done
                        &&& out@[i].items@ == batch_of(all, i)
                        &&& out@[i].total == Some(total)
                        &&& out@[i].error is None
                    },
                decreases rev@.len(),
            {
                let b = rev.pop().unwrap();
                out.push(ListingEvent { request_id: owned(request_id), items: b, done: false, total: Some(total), error: None });
            }
            out.push(ListingEvent { request_id: owned(request_id), items: Vec::new(), done: true, total: Some(total), error: None });
            out
        },
        Err(e) => {
            let mut out: Vec<ListingEvent> = Vec::new();
            out.push(ListingEvent { request_id: owned(request_id), items: Vec::new(), done: true, total: None, error: Some(e.message()) });
            out
        },
    }
}

// ── single sources ───────────────────────────────────────────────────────

/// A book-source file name given by the front end: it must be plain.
pub fn safe_file_name(input: &str) -> (r: Result<String, CommandError>)
    ensures
        r is Ok <==> plain_file_name(input@),
        r matches Ok(s) ==> s@ == input@,
        input@.len() == 0 ==> (r matches Err(e) && e.kind() == ErrorKind::Invalid && e.text() == "fileName 不能为空"@),
        input@.len() > 0 && !plain_file_name(input@) ==> (r matches Err(e) && e.kind() == ErrorKind::Invalid
            && e.text() == "非法 fileName: "@ + input@),
{
    checked_file_name(input, "fileName 不能为空", "非法 fileName: ")
}

/// Where a book source lives: in `source_dir` when one is given (which must
/// be absolute), else in the primary directory. `absolute` is whether the
/// host found `source_dir` absolute.
pub fn booksource_path_in(data_dir: &StoragePath, file_name: &str, source_dir: Option<&str>, absolute: bool) -> (r:
    Result<StoragePath, CommandError>)
    ensures
        !plain_file_name(file_name@) ==> (r matches Err(e) && e.kind() == ErrorKind::Invalid),
        plain_file_name(file_name@) ==> match source_dir {
            None => r matches Ok(p) && p@ == spec_primary_booksource_dir(data_dir@).join(file_name@),
            Some(sd) => if absolute {
                r matches Ok(p) && p@ == PathView { root: sd@, segments: seq![file_name@] }
            } else {
                r matches Err(e) && e.kind() == ErrorKind::Invalid && e.text() == "sourceDir 必须是绝对路径: "@ + sd@
            },
        },
{
    let safe = match safe_file_name(file_name) {
        Ok(s) => s,
        Err(e) => return Err(e),
    };
    match source_dir {
        Some(sd) => {
            if !absolute {
                return Err(CommandError::Invalid(concat_text("sourceDir 必须是绝对路径: ", sd)));
            }
            let p = StoragePath::at(owned(sd)).join(safe);
            assert(p@.segments =~= seq![file_name@]);
            Ok(p)
        },
        None => Ok(primary_booksource_dir(data_dir).join(safe)),
    }
}

/// Calls `std::path::Path::is_absolute` on the text. What it returns depends
/// on the platform (on Unix: the text starts with `/`), so nothing is stated.
#[verifier::external_body]
fn path_is_absolute(p: &str) -> bool {
    std::path::Path::new(p).is_absolute()
}

/// Where a book source lives, as `booksource_path_in` says, asking the
/// platform whether a given `source_dir` is absolute.
pub fn resolve_booksource_path(data_dir: &StoragePath, file_name: &str, source_dir: Option<&str>) -> (r: Result<
    StoragePath,
    CommandError,
>)
    ensures
        !plain_file_name(file_name@) ==> (r matches Err(e) && e.kind() == ErrorKind::Invalid),
        plain_file_name(file_name@) && source_dir is None ==> (r matches Ok(p) && p@
            == spec_primary_booksource_dir(data_dir@).join(file_name@)),
        plain_file_name(file_name@) ==> (source_dir matches Some(sd) ==> (r matches Ok(p) ==> p@ == PathView {
            root: sd@,
            segments: seq![file_name@],
        })),
        r matches Err(e) ==> e.kind() == ErrorKind::Invalid,
{
    let absolute = match source_dir {
        Some(sd) => path_is_absolute(sd),
        None => true,
    };
    booksource_path_in(data_dir, file_name, source_dir, absolute)
}

/// The error when a book source to read is not there.
pub fn missing_source(file_name: &str) -> (e: CommandError)
    ensures
        e.kind() == ErrorKind::NotFound,
        e.text() == "书源文件不存在: "@ + file_name@,
{
    CommandError::NotFound(concat_text("书源文件不存在: ", file_name))
}

pub open spec fn spec_drafts_dir(d: PathView) -> PathView {
    d.join("booksource_drafts"@)
}

/// `<data_dir>/booksource_drafts/<file_name>`, for a plain file name.
pub fn draft_path(data_dir: &StoragePath, file_name: &str) -> (r: Result<StoragePath, CommandError>)
    ensures
        r is Ok <==> plain_file_name(file_name@),
        r matches Ok(p) ==> p@ == spec_drafts_dir(data_dir@).join(file_name@),
        r matches Err(e) ==> e.kind() == ErrorKind::Invalid,
{
    let safe = match safe_file_name(file_name) {
        Ok(s) => s,
        Err(e) => return Err(e),
    };
    Ok(data_dir.join_str("booksource_drafts").join(safe))
}

/// The markers to write and remove to switch a book source on or off, in
/// `source_dir` when given, else in the primary directory.
pub fn booksource_toggle_plan(data_dir: &StoragePath, file_name: &str, enabled: bool, source_dir: Option<&str>) -> (r:
    Result<MarkerPlan, CommandError>)
    ensures
        r is Ok <==> plain_file_name(file_name@),
        r matches Err(e) ==> e.kind() == ErrorKind::Invalid,
        r matches Ok(plan) ==> {
            let dir = match source_dir {
                Some(sd) => PathView { root: sd@, segments: Seq::empty() },
                None => spec_primary_booksource_dir(data_dir@),
            };
            &&& plan.create@ == dir.join(file_name@ + (if enabled { ".enabled"@ } else { ".disabled"@ }))
            &&& plan.remove@ == dir.join(file_name@ + (if enabled { ".disabled"@ } else { ".enabled"@ }))
        },
{
    let dir = match source_dir {
        Some(sd) => StoragePath::at(owned(sd)),
        None => primary_booksource_dir(data_dir),
    };
    let safe = match safe_file_name(file_name) {
        Ok(s) => s,
        Err(e) => return Err(e),
    };
    Ok(marker_plan(&dir, safe.as_str(), enabled))
}

/// Every path the book-source commands build from a file name stays in its
/// directory: the source, its draft and its markers.
pub proof fn law_booksource_paths_confined(d: PathView, sd: Seq<char>, name: Seq<char>)
    requires
        plain_file_name(name),
    ensures
        confined_below(spec_primary_booksource_dir(d).join(name), spec_primary_booksource_dir(d)),
        confined_below(
            PathView { root: sd, segments: seq![name] },
            PathView { root: sd, segments: Seq::empty() },
        ),
        confined_below(spec_drafts_dir(d).join(name), spec_drafts_dir(d)),
        confined_below(spec_primary_booksource_dir(d).join(name + ".enabled"@), spec_primary_booksource_dir(d)),
        confined_below(spec_primary_booksource_dir(d).join(name + ".disabled"@), spec_primary_booksource_dir(d)),
{
    reveal_strlit(".enabled");
    reveal_strlit(".disabled");
    lemma_plain_name_confined(name, Seq::empty());
    assert(name + Seq::<char>::empty() =~= name);
    lemma_plain_name_confined(name, ".enabled"@);
    lemma_plain_name_confined(name, ".disabled"@);
    let p = spec_primary_booksource_dir(d);
    assert(p.join(name).segments.take(p.segments.len() as int) =~= p.segments);
    assert(p.join(name + ".enabled"@).segments.take(p.segments.len() as int) =~= p.segments);
    assert(p.join(name + ".disabled"@).segments.take(p.segments.len() as int) =~= p.segments);
    let q = spec_drafts_dir(d);
    assert(q.join(name).segments.take(q.segments.len() as int) =~= q.segments);
    assert(seq![name].take(0) =~= Seq::<Seq<char>>::empty());
}

} // verus!
