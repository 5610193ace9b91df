//! Where the bookshelf lives on disk, and lookups in the in-memory shelf.
use vstd::prelude::*;

use crate::bookshelf::model::ShelfBook;
use crate::sort::sort_i32;
use crate::errors::{CommandError, ErrorKind};
use crate::paths::{
    concat_text, confined_below, confined_segment, lemma_sanitized_id_confined, spec_sanitize_id, PathView,
    StoragePath,
};
use crate::text::{same_text, lemma_decimal_chars, ends_with_text, parse_i32, spec_parse_i32, slice_text,
    ascii_alnum, chars_of, i64_decimal, int_decimal, owned, push_char, push_text,
    };

verus! {

pub open spec fn spec_bookshelf_root(d: PathView) -> PathView {
    d.join("bookshelf"@)
}

pub open spec fn spec_chapters_dir(d: PathView) -> PathView {
    spec_bookshelf_root(d).join("chapters"@)
}

pub open spec fn spec_chapters_file(d: PathView, id: Seq<char>) -> PathView {
    spec_chapters_dir(d).join(spec_sanitize_id(id) + ".json"@)
}

pub open spec fn spec_content_dir(d: PathView, id: Seq<char>) -> PathView {
    spec_bookshelf_root(d).join("content"@).join(spec_sanitize_id(id))
}

pub open spec fn spec_content_file(d: PathView, id: Seq<char>, index: i32) -> PathView {
    spec_content_dir(d, id).join(int_decimal(index as int) + ".txt"@)
}

pub open spec fn spec_episode_progress_file(d: PathView, id: Seq<char>) -> PathView {
    spec_bookshelf_root(d).join("meta"@).join("episode_progress"@).join(
        spec_sanitize_id(id) + ".json"@,
    )
}

/// `<data_dir>/bookshelf`
pub fn bookshelf_root(data_dir: &StoragePath) -> (p: StoragePath)
    ensures
        p@ == spec_bookshelf_root(data_dir@),
{
    data_dir.join_str("bookshelf")
}

/// `<data_dir>/bookshelf/books.json`
pub fn books_file(data_dir: &StoragePath) -> (p: StoragePath)
    ensures
        p@ == spec_bookshelf_root(data_dir@).join("books.json"@),
{
    bookshelf_root(data_dir).join_str("books.json")
}

/// `<data_dir>/bookshelf/chapters`
pub fn chapters_dir(data_dir: &StoragePath) -> (p: StoragePath)
    ensures
        p@ == spec_chapters_dir(data_dir@),
{
    bookshelf_root(data_dir).join_str("chapters")
}

/// `<data_dir>/bookshelf/chapters/<sanitized id>.json`
pub fn chapters_file(data_dir: &StoragePath, book_id: &str) -> (p: StoragePath)
    ensures
        p@ == spec_chapters_file(data_dir@, book_id@),
{
    let name = concat_text(sanitize_id(book_id).as_str(), ".json");
    chapters_dir(data_dir).join(name)
}

/// `<data_dir>/bookshelf/content/<sanitized id>`
pub fn content_dir(data_dir: &StoragePath, book_id: &str) -> (p: StoragePath)
    ensures
        p@ == spec_content_dir(data_dir@, book_id@),
{
    bookshelf_root(data_dir).join_str("content").join(sanitize_id(book_id))
}

/// `<data_dir>/bookshelf/content/<sanitized id>/<index>.txt`
pub fn content_file(data_dir: &StoragePath, book_id: &str, index: i32) -> (p: StoragePath)
    ensures
        p@ == spec_content_file(data_dir@, book_id@, index),
{
    let name = concat_text(i64_decimal(index as i64).as_str(), ".txt");
    content_dir(data_dir, book_id).join(name)
}

/// `<data_dir>/bookshelf/meta/episode_progress/<sanitized id>.json`
pub fn episode_progress_file(data_dir: &StoragePath, book_id: &str) -> (p: StoragePath)
    ensures
        p@ == spec_episode_progress_file(data_dir@, book_id@),
{
    let name = concat_text(sanitize_id(book_id).as_str(), ".json");
    bookshelf_root(data_dir).join_str("meta").join_str("episode_progress").join(name)
}

/// `<data_dir>/bookshelf/source_switch_backup/<sanitized id>.json`
pub fn source_switch_backup_file(data_dir: &StoragePath, book_id: &str) -> (p: StoragePath)
    ensures
        p@ == spec_bookshelf_root(data_dir@).join("source_switch_backup"@).join(
            spec_sanitize_id(book_id@) + ".json"@,
        ),
{
    let name = concat_text(sanitize_id(book_id).as_str(), ".json");
    bookshelf_root(data_dir).join_str("source_switch_backup").join(name)
}

/// A book id made safe for the file system: every character that is not an
/// ASCII letter, digit, `-` or `_` becomes `_` (so `../../etc/passwd`
/// cannot climb out of the bookshelf).
pub fn sanitize_id(id: &str) -> (r: String)
    ensures
        r@ == spec_sanitize_id(id@),
{
    let cs = chars_of(id);
    let mut out = String::new();
    let n = cs.len();
    for i in 0..n
        invariant
            n == cs@.len(),
            cs@ == id@,
            out@ == spec_sanitize_id(id@).take(i as int),
    {
        let c = cs[i];
        let d = if ascii_alnum(c) || c == '-' || c == '_' {
            c
        } else {
            '_'
        };
        push_char(&mut out, d);
        assert(spec_sanitize_id(id@).take(i + 1) =~= spec_sanitize_id(id@).take(i as int).push(d));
    }
    assert(spec_sanitize_id(id@).take(n as int) =~= spec_sanitize_id(id@));
    out
}

// ── where writes go first ────────────────────────────────────────────────

/// `<data_dir>/bookshelf/books.json.tmp`
pub fn books_tmp_file(data_dir: &StoragePath) -> (p: StoragePath)
    ensures
        p@ == spec_bookshelf_root(data_dir@).join("books.json.tmp"@),
{
    bookshelf_root(data_dir).join_str("books.json.tmp")
}

/// `<data_dir>/bookshelf/chapters/<sanitized id>.chapters.tmp`
pub fn chapters_tmp_file(data_dir: &StoragePath, book_id: &str) -> (p: StoragePath)
    ensures
        p@ == spec_chapters_dir(data_dir@).join(spec_sanitize_id(book_id@) + ".chapters.tmp"@),
{
    let name = concat_text(sanitize_id(book_id).as_str(), ".chapters.tmp");
    chapters_dir(data_dir).join(name)
}

/// `<data_dir>/bookshelf/content/<sanitized id>/<index>.content.tmp`
pub fn content_tmp_file(data_dir: &StoragePath, book_id: &str, index: i32) -> (p: StoragePath)
    ensures
        p@ == spec_content_dir(data_dir@, book_id@).join(int_decimal(index as int) + ".content.tmp"@),
{
    let name = concat_text(i64_decimal(index as i64).as_str(), ".content.tmp");
    content_dir(data_dir, book_id).join(name)
}

// ── cached chapter texts ─────────────────────────────────────────────────

/// Where the episode progress is written before it replaces the old file.
pub fn episode_progress_tmp_file(data_dir: &StoragePath, book_id: &str) -> (p: StoragePath)
    ensures
        p@ == spec_bookshelf_root(data_dir@).join("meta"@).join("episode_progress"@).join(
            spec_sanitize_id(book_id@) + ".tmp"@,
        ),
{
    let name = concat_text(sanitize_id(book_id).as_str(), ".tmp");
    bookshelf_root(data_dir).join_str("meta").join_str("episode_progress").join(name)
}

/// A cached chapter text as read: a missing or empty file holds none.
pub fn chapter_text(raw: Option<String>) -> (r: Option<String>)
    ensures
        match raw {
            Some(t) => if t@.len() == 0 {
                r is None
            } else {
                r == Some(t)
            },
            None => r is None,
        },
{
    match raw {
        Some(t) => if t.as_str().is_empty() {
            None
        } else {
            Some(t)
        },
        None => None,
    }
}

/// The name of the text file of chapter `i`: its index in decimal, then
/// `.txt` (what `content_file` writes).
pub open spec fn content_name(i: i32) -> Seq<char> {
    int_decimal(i as int) + ".txt"@
}

/// The chapter index a file of a book's content directory holds: the file
/// name must end in `.txt`, and what comes before must be an `i32` written
/// as `content_file` writes it (no sign `+`, no leading zero).
pub open spec fn spec_cached_index(name: Seq<char>) -> Option<i32> {
    if name.len() >= 4 && name.skip(name.len() - 4) == ".txt"@ {
        match spec_parse_i32(name.take(name.len() - 4)) {
            Some(i) => if int_decimal(i as int) == name.take(name.len() - 4) {
                Some(i)
            } else {
                None
            },
            None => None,
        }
    } else {
        None
    }
}

/// The indices the names hold, in order.
pub open spec fn cached_indices_of(names: Seq<Seq<char>>) -> Seq<i32>
    decreases names.len(),
{
    if names.len() == 0 {
        Seq::empty()
    } else {
        match spec_cached_index(names.last()) {
            Some(i) => cached_indices_of(names.drop_last()).push(i),
            None => cached_indices_of(names.drop_last()),
        }
    }
}

/// A file name holds index `i` exactly when it is the name of chapter `i`'s
/// text file.
pub proof fn law_cached_index_exact(name: Seq<char>, i: i32)
    ensures
        spec_cached_index(name) == Some(i) <==> name == content_name(i),
{
    reveal_strlit(".txt");
    if name == content_name(i) {
        assert(name.skip(name.len() - 4) =~= ".txt"@);
        assert(name.take(name.len() - 4) =~= int_decimal(i as int));
        crate::text::lemma_parse_decimal(i);
    }
    if spec_cached_index(name) == Some(i) {
        assert(name =~= name.take(name.len() - 4) + name.skip(name.len() - 4));
    }
}

proof fn lemma_cached_indices_of(names: Seq<Seq<char>>, x: i32)
    ensures
        cached_indices_of(names).contains(x) <==> names.contains(content_name(x)),
    decreases names.len(),
{
    if names.len() > 0 {
        let t = names.drop_last();
        lemma_cached_indices_of(t, x);
        law_cached_index_exact(names.last(), x);
        let c = content_name(x);
        assert(names =~= t.push(names.last()));
        if names.contains(c) {
            let k = choose|k: int| 0 <= k < names.len() && names[k] == c;
            if k < t.len() {
                assert(t[k] == c);
            }
        }
        if t.contains(c) {
            let k = choose|k: int| 0 <= k < t.len() && t[k] == c;
            assert(names[k] == c);
        }
        match spec_cached_index(names.last()) {
            Some(i) => {
                let p = cached_indices_of(t);
                assert(cached_indices_of(names) == p.push(i));
                if p.push(i).contains(x) {
                    let k = choose|k: int| 0 <= k < p.push(i).len() && p.push(i)[k] == x;
                    if k < p.len() {
                        assert(p[k] == x);
                    }
                }
                if p.contains(x) {
                    let k = choose|k: int| 0 <= k < p.len() && p[k] == x;
                    assert(p.push(i)[k] == x);
                }
                assert(p.push(i)[p.len() as int] == i);
                law_cached_index_exact(names.last(), i);
            },
            None => {},
        }
    }
}

/// The chapter index a content file name holds, if any.
pub fn cached_index(name: &str) -> (r: Option<i32>)
    ensures
        r == spec_cached_index(name@),
{
    proof {
        reveal_strlit(".txt");
    }
    if !ends_with_text(name, ".txt") {
        return None;
    }
    let cs = chars_of(name);
    let stem = slice_text(&cs, 0, cs.len() - 4);
    assert(stem@ =~= name@.take(name@.len() - 4));
    match parse_i32(stem.as_str()) {
        Some(i) => {
            let back = i64_decimal(i as i64);
            if same_text(back.as_str(), stem.as_str()) {
                Some(i)
            } else {
                None
            }
        },
        None => None,
    }
}

/// The set of the chapters whose text is cached, from the names of the
/// files in a book's content directory: each index once, in increasing
/// order, exactly the indices whose text file is among the names.
pub fn cached_indices(names: &Vec<String>) -> (r: Vec<i32>)
    ensures
        forall|i: int, j: int| 0 <= i < j < r@.len() ==> #[trigger] r@[i] < #[trigger] r@[j],
        forall|x: i32| #[trigger] r@.contains(x) <==> crate::json::texts(names@).contains(content_name(x)),
{
    let mut found: Vec<i32> = Vec::new();
    let n = names.len();
    for i in 0..n
        invariant
            n == names@.len(),
            found@ == cached_indices_of(crate::json::texts(names@).take(i as int)),
    {
        proof {
            let t = crate::json::texts(names@);
            assert(t.take(i + 1).drop_last() =~= t.take(i as int));
            assert(t.take(i + 1).last() == names@[i as int]@);
        }
        match cached_index(names[i].as_str()) {
            Some(k) => found.push(k),
            None => {},
        }
    }
    assert(crate::json::texts(names@).take(n as int) =~= crate::json::texts(names@));
    let ghost all = found@;
    let sorted = sort_i32(found);
    let mut out: Vec<i32> = Vec::new();
    let m = sorted.len();
    for i in 0..m
        invariant
            m == sorted@.len(),
            forall|a: int, b: int| 0 <= a < b < sorted@.len() ==> #[trigger] sorted@[a] <= #[trigger] sorted@[b],
            forall|a: int, b: int| 0 <= a < b < out@.len() ==> #[trigger] out@[a] < #[trigger] out@[b],
            out@.len() > 0 ==> i > 0 && out@.last() == sorted@[i - 1],
            forall|x: i32| #[trigger] out@.contains(x) <==> sorted@.take(i as int).contains(x),
    {
        let v = sorted[i];
        let ghost before = out@;
        let ghost s0 = sorted@.take(i as int);
        let ghost s1 = sorted@.take(i + 1);
        proof {
            assert(s1 =~= s0.push(v));
        }
        if out.len() == 0 || out[out.len() - 1] != v {
            out.push(v);
            proof {
                if before.len() > 0 {
                    assert(sorted@[i - 1] <= v);
                }
                assert forall|x: i32| #[trigger] out@.contains(x) <==> s1.contains(x) by {
                    if out@.contains(x) {
                        let k = choose|k: int| 0 <= k < out@.len() && out@[k] == x;
                        if k < before.len() {
                            assert(before[k] == x);
                            assert(before.contains(x));
                            let q = choose|q: int| 0 <= q < s0.len() && s0[q] == x;
                            assert(s1[q] == x);
                        } else {
                            assert(s1[s0.len() as int] == x);
                        }
                    }
                    if s1.contains(x) {
                        let q = choose|q: int| 0 <= q < s1.len() && s1[q] == x;
                        if q < s0.len() {
                            assert(s0[q] == x);
                            assert(before.contains(x));
                            let k = choose|k: int| 0 <= k < before.len() && before[k] == x;
                            assert(out@[k] == x);
                        } else {
                            assert(out@[before.len() as int] == x);
                        }
                    }
                }
            }
        } else {
            proof {
                assert forall|x: i32| #[trigger] out@.contains(x) <==> s1.contains(x) by {
                    if s1.contains(x) {
                        let q = choose|q: int| 0 <= q < s1.len() && s1[q] == x;
                        if q < s0.len() {
                            assert(s0[q] == x);
                        } else {
                            assert(out@[out@.len() - 1] == x);
                        }
                    }
                    if out@.contains(x) {
                        assert(s0.contains(x));
                        let q = choose|q: int| 0 <= q < s0.len() && s0[q] == x;
                        assert(s1[q] == x);
                    }
                }
            }
        }
    }
    proof {
        assert(sorted@.take(m as int) =~= sorted@);
        assert forall|x: i32| #[trigger] out@.contains(x) <==> crate::json::texts(names@).contains(content_name(x)) by {
            vstd::seq_lib::to_multiset_contains(sorted@, x);
            vstd::seq_lib::to_multiset_contains(all, x);
            lemma_cached_indices_of(crate::json::texts(names@), x);
        }
    }
    out
}

/// The error when a book has no snapshot to restore.
pub fn missing_backup(id: &str) -> (e: CommandError)
    ensures
        e.kind() == ErrorKind::NotFound,
        e.text() == "书 "@ + id@ + " 没有换源快照"@,
{
    let mut m = owned("书 ");
    push_text(&mut m, id);
    push_text(&mut m, " 没有换源快照");
    CommandError::NotFound(m)
}

/// The error when a book has no data directory to show.
pub fn missing_data_dir(id: &str) -> (e: CommandError)
    ensures
        e.kind() == ErrorKind::NotFound,
        e.text() == "书 "@ + id@ + " 数据目录不存在"@,
{
    let mut m = owned("书 ");
    push_text(&mut m, id);
    push_text(&mut m, " 数据目录不存在");
    CommandError::NotFound(m)
}

/// The error when an exported file to show is not there.
pub fn missing_export_file(path: &str) -> (e: CommandError)
    ensures
        e.kind() == ErrorKind::NotFound,
        e.text() == "文件不存在: "@ + path@,
{
    CommandError::NotFound(concat_text("文件不存在: ", path))
}

/// What a chapter text is saved under is what a read looks up and what the
/// listing finds again: the content file of index `i` holds index `i`.
pub proof fn law_content_file_listed(d: PathView, id: Seq<char>, index: i32)
    ensures
        spec_cached_index(spec_content_file(d, id, index).segments.last()) == Some(index),
{
    reveal_strlit(".txt");
    let name = int_decimal(index as int) + ".txt"@;
    assert(spec_content_file(d, id, index).segments.last() == name);
    assert(name.skip(name.len() - 4) =~= ".txt"@);
    assert(name.take(name.len() - 4) =~= int_decimal(index as int));
    crate::text::lemma_parse_decimal(index);
}

// ── lookups ──────────────────────────────────────────────────────────────

/// Position of the first book with the given id.
pub open spec fn first_with_id(books: Seq<ShelfBook>, id: Seq<char>) -> int
    recommends
        exists|i: int| 0 <= i < books.len() && books[i].id@ == id,
{
    choose|i: int|
        0 <= i < books.len() && books[i].id@ == id && forall|j: int|
            0 <= j < i ==> books[j].id@ != id
}

pub open spec fn has_id(books: Seq<ShelfBook>, id: Seq<char>) -> bool {
    exists|i: int| 0 <= i < books.len() && #[trigger] books[i].id@ == id
}

/// The text of the error for an unknown book id.
pub open spec fn missing_book_text(id: Seq<char>) -> Seq<char> {
    "书 id "@ + id + " 不存在"@
}

fn missing_book(id: &str) -> (e: CommandError)
    ensures
        e.kind() == ErrorKind::NotFound,
        e.text() == missing_book_text(id@),
{
    let mut m = owned("书 id ");
    push_text(&mut m, id);
    push_text(&mut m, " 不存在");
    CommandError::NotFound(m)
}

/// Index of the first book with id `id`, if any.
pub fn find_book_index(books: &[ShelfBook], id: &str) -> (r: Option<usize>)
    ensures
        r.is_some() <==> has_id(books@, id@),
        r matches Some(i) ==> i < books@.len() && books@[i as int].id@ == id@ && forall|j: int|
            0 <= j < i ==> books@[j].id@ != id@,
{
    let n = books.len();
    for i in 0..n
        invariant
            n == books@.len(),
            forall|j: int| 0 <= j < i ==> books@[j].id@ != id@,
    {
        if same_text(books[i].id.as_str(), id) {
            return Some(i);
        }
    }
    None
}


pub proof fn lemma_first_with_id(books: Seq<ShelfBook>, id: Seq<char>, i: int)
    requires
        0 <= i < books.len(),
        books[i].id@ == id,
        forall|j: int| 0 <= j < i ==> books[j].id@ != id,
    ensures
        first_with_id(books, id) == i,
{
    let k = first_with_id(books, id);
    assert(0 <= k < books.len() && books[k].id@ == id && forall|j: int|
        0 <= j < k ==> books[j].id@ != id);
    if k < i {
        assert(books[k].id@ != id);
    }
    if i < k {
        assert(books[i].id@ != id);
    }
}

/// When some book has the id, the first such book is well defined.
pub proof fn lemma_first_with_id_exists(books: Seq<ShelfBook>, id: Seq<char>)
    requires
        has_id(books, id),
    ensures
        0 <= first_with_id(books, id) < books.len(),
        books[first_with_id(books, id)].id@ == id,
        forall|j: int| 0 <= j < first_with_id(books, id) ==> books[j].id@ != id,
{
    let i = choose|i: int| 0 <= i < books.len() && #[trigger] books[i].id@ == id;
    lemma_least_index(books, id, i);
}

proof fn lemma_least_index(books: Seq<ShelfBook>, id: Seq<char>, i: int)
    requires
        0 <= i < books.len(),
        books[i].id@ == id,
    ensures
        0 <= first_with_id(books, id) < books.len(),
        books[first_with_id(books, id)].id@ == id,
        forall|j: int| 0 <= j < first_with_id(books, id) ==> books[j].id@ != id,
    decreases i,
{
    if exists|j: int| 0 <= j < i && #[trigger] books[j].id@ == id {
        let j = choose|j: int| 0 <= j < i && #[trigger] books[j].id@ == id;
        lemma_least_index(books, id, j);
    } else {
        lemma_first_with_id(books, id, i);
    }
}

/// The book with the given id (the first one, should ids repeat); an error
/// `NotFound` when the shelf has none.
pub fn find_book<'a>(books: &'a [ShelfBook], id: &str) -> (r: Result<&'a ShelfBook, CommandError>)
    ensures
        r is Ok <==> has_id(books@, id@),
        r matches Ok(b) ==> *b == books@[first_with_id(books@, id@)],
        r matches Err(e) ==> e.kind() == ErrorKind::NotFound && e.text() == missing_book_text(id@),
{
    match find_book_index(books, id) {
        Some(i) => {
            proof {
                lemma_first_with_id(books@, id@, i as int);
            }
            Ok(&books[i])
        },
        None => Err(missing_book(id)),
    }
}

/// Mutable access to the book with the given id (the first one); an error
/// `NotFound` when the shelf has none.
pub fn find_book_mut<'a>(books: &'a mut Vec<ShelfBook>, id: &str) -> (r: Result<
    &'a mut ShelfBook,
    CommandError,
>)
    ensures
        r is Ok <==> has_id(old(books)@, id@),
        r matches Ok(b) ==> {
            &&& *b == old(books)@[first_with_id(old(books)@, id@)]
            &&& final(books)@ == old(books)@.update(first_with_id(old(books)@, id@), *final(b))
        },
        r matches Err(e) ==> {
            &&& e.kind() == ErrorKind::NotFound
            &&& e.text() == missing_book_text(id@)
            &&& final(books)@ == old(books)@
        },
{
    match find_book_index(books.as_slice(), id) {
        Some(i) => {
            proof {
                lemma_first_with_id(old(books)@, id@, i as int);
            }
            Ok(&mut books[i])
        },
        None => Err(missing_book(id)),
    }
}


// ── laws ─────────────────────────────────────────────────────────────────

/// Whatever the book id and chapter index, the files of a book stay below
/// `<data_dir>/bookshelf`: no id can make a path that climbs out of it.
pub proof fn law_book_files_confined(d: PathView, id: Seq<char>, index: i32)
    ensures
        confined_below(spec_chapters_file(d, id), spec_bookshelf_root(d)),
        confined_below(spec_content_dir(d, id), spec_bookshelf_root(d)),
        confined_below(spec_content_file(d, id, index), spec_bookshelf_root(d)),
        confined_below(spec_episode_progress_file(d, id), spec_bookshelf_root(d)),
{
    let root = spec_bookshelf_root(d);
    reveal_strlit(".json");
    reveal_strlit(".txt");
    reveal_strlit("chapters");
    reveal_strlit("content");
    reveal_strlit("meta");
    reveal_strlit("episode_progress");
    reveal_strlit("..");
    lemma_sanitized_id_confined(id, ".json"@);
    assert(Seq::<char>::empty().len() != ".."@.len());
    lemma_sanitized_id_confined(id, Seq::<char>::empty());
    assert(spec_sanitize_id(id) + Seq::<char>::empty() =~= spec_sanitize_id(id));
    lemma_decimal_chars(index as int);
    let num = int_decimal(index as int) + ".txt"@;
    assert forall|j: int| 0 <= j < num.len() implies num[j] != '/' && num[j] != '\\' by {
        if j < int_decimal(index as int).len() {
            assert(num[j] == int_decimal(index as int)[j]);
        } else {
            assert(num[j] == ".txt"@[j - int_decimal(index as int).len()]);
        }
    }
    assert(num.len() >= 5);
    assert(confined_segment(num));
    assert(confined_segment("chapters"@));
    assert(confined_segment("content"@));
    assert(confined_segment("meta"@));
    assert(confined_segment("episode_progress"@));
    assert(spec_chapters_file(d, id).segments.take(root.segments.len() as int) =~= root.segments);
    assert(spec_content_dir(d, id).segments.take(root.segments.len() as int) =~= root.segments);
    assert(spec_content_file(d, id, index).segments.take(root.segments.len() as int) =~= root.segments);
    assert(spec_episode_progress_file(d, id).segments.take(root.segments.len() as int) =~= root.segments);
}

} // verus!
