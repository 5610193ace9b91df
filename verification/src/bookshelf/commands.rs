//! What the bookshelf commands do to the in-memory shelf. The host keeps the
//! shelf behind a lock, calls these, then writes `books.json`.
use vstd::prelude::*;

use crate::bookshelf::model::{
    copy_chapters, copy_opt, now_ms, AddBookPayload, CachedChapter, ShelfBook,
    SourceSwitchBackup, UpdateShelfBookPayload, MINUS_ONE_F32_BITS,
};
use crate::bookshelf::storage::{
    find_book, find_book_mut, first_with_id, has_id, lemma_first_with_id_exists, missing_book_text,
};
use crate::errors::{CommandError, ErrorKind};
use crate::text::owned;

verus! {

// ── adding ───────────────────────────────────────────────────────────────

pub open spec fn is_lower_hex(c: char) -> bool {
    ('0' <= c && c <= '9') || ('a' <= c && c <= 'f')
}

/// The text of a random (version 4) UUID in hyphenated lower-case form:
/// `xxxxxxxx-xxxx-4xxx-yxxx-xxxxxxxxxxxx` with `y` one of `8 9 a b`.
pub open spec fn is_v4_uuid_text(s: Seq<char>) -> bool {
    &&& s.len() == 36
    &&& forall|i: int|
        0 <= i < 36 ==> (if i == 8 || i == 13 || i == 18 || i == 23 {
            s[i] == '-'
        } else {
            is_lower_hex(#[trigger] s[i])
        })
    &&& s[14] == '4'
    &&& (s[19] == '8' || s[19] == '9' || s[19] == 'a' || s[19] == 'b')
}

/// `uuid::Uuid::new_v4().to_string()`: a fresh random UUID in its
/// hyphenated lower-case text form. The contract states the shape the uuid
/// crate gives every such text (version nibble `4`, RFC 4122 variant); which
/// UUID comes out is chance and is not stated.
#[verifier::external_body]
fn random_uuid_text() -> (r: String)
    ensures
        is_v4_uuid_text(r@),
{
    uuid::Uuid::new_v4().to_string()
}

/// Builds the record of a book put on the shelf: author defaults to empty,
/// source type to `novel`, progress fields to "not read yet" (`-1`).
pub fn new_shelf_book(
    book: AddBookPayload,
    file_name: String,
    source_name: String,
    id: String,
    now: i64,
) -> (r: ShelfBook)
    ensures
        r.id == id,
        r.name == book.name,
        r.author@ == (match book.author {
            Some(a) => a@,
            None => Seq::<char>::empty(),
        }),
        r.cover_url == book.cover_url,
        r.cover_referer is None,
        r.intro == book.intro,
        r.kind == book.kind,
        r.group_id == book.group_id,
        r.book_url == book.book_url,
        r.file_name == file_name,
        r.source_name == source_name,
        r.last_chapter == book.last_chapter,
        r.added_at == now,
        r.last_read_at == 0,
        r.read_chapter_index == -1,
        r.read_chapter_url is None,
        r.total_chapters == 0,
        r.source_type@ == (match book.source_type {
            Some(t) => t@,
            None => "novel"@,
        }),
        r.read_page_index == -1,
        r.read_scroll_ratio_bits == MINUS_ONE_F32_BITS,
        r.read_playback_time_bits == MINUS_ONE_F32_BITS,
        r.reader_settings is None,
        r.is_private == false,
{
    let author = match book.author {
        Some(a) => a,
        None => String::new(),
    };
    let source_type = match book.source_type {
        Some(t) => t,
        None => owned("novel"),
    };
    ShelfBook {
        id,
        name: book.name,
        author,
        cover_url: book.cover_url,
        cover_referer: None,
        intro: book.intro,
        kind: book.kind,
        group_id: book.group_id,
        book_url: book.book_url,
        file_name,
        source_name,
        last_chapter: book.last_chapter,
        added_at: now,
        last_read_at: 0,
        read_chapter_index: -1,
        read_chapter_url: None,
        total_chapters: 0,
        source_type,
        read_page_index: -1,
        read_scroll_ratio_bits: MINUS_ONE_F32_BITS,
        read_playback_time_bits: MINUS_ONE_F32_BITS,
        reader_settings: None,
        is_private: false,
    }
}

/// Puts a book on the shelf under a fresh random id, stamped with the
/// current time, and returns its record.
pub fn bookshelf_add(
    books: &mut Vec<ShelfBook>,
    book: AddBookPayload,
    file_name: String,
    source_name: String,
) -> (r: ShelfBook)
    ensures
        final(books)@ == old(books)@.push(r),
        is_v4_uuid_text(r.id@),
        r.name == book.name,
        r.author@ == (match book.author {
            Some(a) => a@,
            None => Seq::<char>::empty(),
        }),
        r.cover_url == book.cover_url,
        r.cover_referer is None,
        r.intro == book.intro,
        r.kind == book.kind,
        r.group_id == book.group_id,
        r.book_url == book.book_url,
        r.file_name == file_name,
        r.source_name == source_name,
        r.last_chapter == book.last_chapter,
        r.last_read_at == 0,
        r.read_chapter_index == -1,
        r.read_chapter_url is None,
        r.total_chapters == 0,
        r.source_type@ == (match book.source_type {
            Some(t) => t@,
            None => "novel"@,
        }),
        r.read_page_index == -1,
        r.read_scroll_ratio_bits == MINUS_ONE_F32_BITS,
        r.read_playback_time_bits == MINUS_ONE_F32_BITS,
        r.reader_settings is None,
        r.is_private == false,
{
    let id = random_uuid_text();
    let now = now_ms();
    let shelf_book = new_shelf_book(book, file_name, source_name, id, now);
    books.push(shelf_book.clone());
    shelf_book
}

// ── updating ─────────────────────────────────────────────────────────────

pub open spec fn or_keep<T>(new: Option<T>, old: T) -> T {
    match new {
        Some(v) => v,
        None => old,
    }
}

pub open spec fn or_keep_opt<T>(new: Option<T>, old: Option<T>) -> Option<T> {
    match new {
        Some(v) => Some(v),
        None => old,
    }
}

/// A book after an update: the required fields are overwritten, each
/// optional field only where the payload carries it.
pub open spec fn spec_updated_book(b: ShelfBook, p: UpdateShelfBookPayload) -> ShelfBook {
    ShelfBook {
        id: b.id,
        name: or_keep(p.name, b.name),
        author: or_keep(p.author, b.author),
        cover_url: or_keep_opt(p.cover_url, b.cover_url),
        cover_referer: b.cover_referer,
        intro: or_keep_opt(p.intro, b.intro),
        kind: or_keep_opt(p.kind, b.kind),
        group_id: or_keep_opt(p.group_id, b.group_id),
        book_url: p.book_url,
        file_name: p.file_name,
        source_name: p.source_name,
        last_chapter: or_keep_opt(p.last_chapter, b.last_chapter),
        added_at: or_keep(p.added_at, b.added_at),
        last_read_at: or_keep(p.last_read_at, b.last_read_at),
        read_chapter_index: or_keep(p.read_chapter_index, b.read_chapter_index),
        read_chapter_url: or_keep_opt(p.read_chapter_url, b.read_chapter_url),
        total_chapters: or_keep(p.total_chapters, b.total_chapters),
        source_type: p.source_type,
        read_page_index: or_keep(p.read_page_index, b.read_page_index),
        read_scroll_ratio_bits: or_keep(p.read_scroll_ratio_bits, b.read_scroll_ratio_bits),
        read_playback_time_bits: or_keep(p.read_playback_time_bits, b.read_playback_time_bits),
        reader_settings: or_keep_opt(p.reader_settings, b.reader_settings),
        is_private: or_keep(p.is_private, b.is_private),
    }
}

fn string_or(new: &Option<String>, cur: &String) -> (r: String)
    ensures
        r == or_keep(*new, *cur),
{
    match new {
        Some(v) => v.clone(),
        None => cur.clone(),
    }
}

fn opt_or(new: &Option<String>, cur: &Option<String>) -> (r: Option<String>)
    ensures
        r == or_keep_opt(*new, *cur),
{
    match new {
        Some(v) => Some(v.clone()),
        None => copy_opt(cur),
    }
}

fn value_or<T: Copy>(new: Option<T>, cur: T) -> (r: T)
    ensures
        r == or_keep(new, cur),
{
    match new {
        Some(v) => v,
        None => cur,
    }
}

/// Applies an update payload to one book record.
pub fn apply_update(target: &mut ShelfBook, book: &UpdateShelfBookPayload)
    ensures
        *final(target) == spec_updated_book(*old(target), *book),
{
    let t: &ShelfBook = target;
    let updated = ShelfBook {
        id: t.id.clone(),
        name: string_or(&book.name, &t.name),
        author: string_or(&book.author, &t.author),
        cover_url: opt_or(&book.cover_url, &t.cover_url),
        cover_referer: copy_opt(&t.cover_referer),
        intro: opt_or(&book.intro, &t.intro),
        kind: opt_or(&book.kind, &t.kind),
        group_id: opt_or(&book.group_id, &t.group_id),
        book_url: book.book_url.clone(),
        file_name: book.file_name.clone(),
        source_name: book.source_name.clone(),
        last_chapter: opt_or(&book.last_chapter, &t.last_chapter),
        added_at: value_or(book.added_at, t.added_at),
        last_read_at: value_or(book.last_read_at, t.last_read_at),
        read_chapter_index: value_or(book.read_chapter_index, t.read_chapter_index),
        read_chapter_url: opt_or(&book.read_chapter_url, &t.read_chapter_url),
        total_chapters: value_or(book.total_chapters, t.total_chapters),
        source_type: book.source_type.clone(),
        read_page_index: value_or(book.read_page_index, t.read_page_index),
        read_scroll_ratio_bits: value_or(book.read_scroll_ratio_bits, t.read_scroll_ratio_bits),
        read_playback_time_bits: value_or(book.read_playback_time_bits, t.read_playback_time_bits),
        reader_settings: opt_or(&book.reader_settings, &t.reader_settings),
        is_private: value_or(book.is_private, t.is_private),
    };
    *target = updated;
}

/// Updates the book with `book.id` in place; `NotFound` (and the shelf
/// unchanged) when there is none.
pub fn bookshelf_update_book(books: &mut Vec<ShelfBook>, book: &UpdateShelfBookPayload) -> (r:
    Result<(), CommandError>)
    ensures
        r is Ok <==> has_id(old(books)@, book.id@),
        r is Ok ==> final(books)@ == old(books)@.update(
            first_with_id(old(books)@, book.id@),
            spec_updated_book(old(books)@[first_with_id(old(books)@, book.id@)], *book),
        ),
        r matches Err(e) ==> e.kind() == ErrorKind::NotFound && e.text() == missing_book_text(
            book.id@,
        ) && final(books)@ == old(books)@,
{
    match find_book_mut(books, book.id.as_str()) {
        Ok(target) => {
            apply_update(target, book);
            Ok(())
        },
        Err(e) => Err(e),
    }
}

/// The snapshot of a book and its table of contents taken before a source
/// switch; `NotFound` when the shelf has no such book.
pub fn source_switch_snapshot(
    books: &Vec<ShelfBook>,
    id: &str,
    chapters: &Vec<CachedChapter>,
    saved_at: i64,
) -> (r: Result<SourceSwitchBackup, CommandError>)
    ensures
        r is Ok <==> has_id(books@, id@),
        r matches Ok(s) ==> s.book == books@[first_with_id(books@, id@)] && s.chapters@
            == chapters@ && s.saved_at == saved_at,
        r matches Err(e) ==> e.kind() == ErrorKind::NotFound && e.text() == missing_book_text(
            id@,
        ),
{
    match find_book(books.as_slice(), id) {
        Ok(current) => Ok(
            SourceSwitchBackup {
                book: current.clone(),
                chapters: copy_chapters(chapters.as_slice()),
                saved_at,
            },
        ),
        Err(e) => Err(e),
    }
}

/// Updates the book with `book.id` as `bookshelf_update_book` does; when
/// `backup_chapters` is given (a source switch), first takes the snapshot of
/// the book as it was before the update, with those chapters and `saved_at`.
/// `NotFound`, with the shelf unchanged and no snapshot, when there is no
/// such book.
pub fn bookshelf_update_book_with_backup(
    books: &mut Vec<ShelfBook>,
    book: &UpdateShelfBookPayload,
    backup_chapters: Option<&Vec<CachedChapter>>,
    saved_at: i64,
) -> (r: Result<Option<SourceSwitchBackup>, CommandError>)
    ensures
        r is Ok <==> has_id(old(books)@, book.id@),
        r is Ok ==> final(books)@ == old(books)@.update(
            first_with_id(old(books)@, book.id@),
            spec_updated_book(old(books)@[first_with_id(old(books)@, book.id@)], *book),
        ),
        r matches Ok(snap) ==> match backup_chapters {
            Some(chs) => snap matches Some(s) && s.book == old(books)@[first_with_id(old(books)@, book.id@)]
                && s.chapters@ == chs@ && s.saved_at == saved_at,
            None => snap is None,
        },
        r matches Err(e) ==> e.kind() == ErrorKind::NotFound && e.text() == missing_book_text(book.id@)
            && final(books)@ == old(books)@,
{
    let snapshot = match backup_chapters {
        Some(chs) => match source_switch_snapshot(books, book.id.as_str(), chs, saved_at) {
            Ok(s) => Some(s),
            Err(e) => return Err(e),
        },
        None => None,
    };
    match bookshelf_update_book(books, book) {
        Ok(()) => Ok(snapshot),
        Err(e) => Err(e),
    }
}

// ── reading progress ─────────────────────────────────────────────────────

/// Reading-progress update (`f32` fields as bit patterns).
#[derive(Debug)]
pub struct BookshelfUpdateProgressArgs {
    pub id: String,
    pub chapter_index: i32,
    pub chapter_url: String,
    pub page_index: Option<i32>,
    pub scroll_ratio_bits: Option<u32>,
    pub playback_time_bits: Option<u32>,
    pub reader_settings: Option<String>,
}

pub open spec fn spec_progressed_book(
    b: ShelfBook,
    a: BookshelfUpdateProgressArgs,
    now: i64,
) -> ShelfBook {
    ShelfBook {
        read_chapter_index: a.chapter_index,
        read_chapter_url: Some(a.chapter_url),
        last_read_at: now,
        read_page_index: or_keep(a.page_index, b.read_page_index),
        read_scroll_ratio_bits: or_keep(a.scroll_ratio_bits, b.read_scroll_ratio_bits),
        read_playback_time_bits: or_keep(a.playback_time_bits, b.read_playback_time_bits),
        reader_settings: or_keep_opt(a.reader_settings, b.reader_settings),
        ..b
    }
}

/// Records a reading position on one book, read at time `now`.
pub fn apply_progress(target: &mut ShelfBook, args: &BookshelfUpdateProgressArgs, now: i64)
    ensures
        *final(target) == spec_progressed_book(*old(target), *args, now),
{
    target.read_chapter_index = args.chapter_index;
    target.read_chapter_url = Some(args.chapter_url.clone());
    target.last_read_at = now;
    target.read_page_index = value_or(args.page_index, target.read_page_index);
    target.read_scroll_ratio_bits = value_or(args.scroll_ratio_bits, target.read_scroll_ratio_bits);
    target.read_playback_time_bits = value_or(
        args.playback_time_bits,
        target.read_playback_time_bits,
    );
    target.reader_settings = opt_or(&args.reader_settings, &target.reader_settings);
}

/// Records a reading position on the book `args.id`, stamped with the
/// current time; `NotFound` (shelf unchanged) when there is no such book.
pub fn bookshelf_update_progress(books: &mut Vec<ShelfBook>, args: &BookshelfUpdateProgressArgs) -> (r:
    Result<(), CommandError>)
    ensures
        r is Ok <==> has_id(old(books)@, args.id@),
        r is Ok ==> final(books)@ == old(books)@.update(
            first_with_id(old(books)@, args.id@),
            spec_progressed_book(
                old(books)@[first_with_id(old(books)@, args.id@)],
                *args,
                final(books)@[first_with_id(old(books)@, args.id@)].last_read_at,
            ),
        ),
        r matches Err(e) ==> e.kind() == ErrorKind::NotFound && e.text() == missing_book_text(
            args.id@,
        ) && final(books)@ == old(books)@,
{
    let now = now_ms();
    let res = match find_book_mut(books, args.id.as_str()) {
        Ok(target) => {
            apply_progress(target, args, now);
            Ok(())
        },
        Err(e) => Err(e),
    };
    proof {
        if res is Ok {
            lemma_first_with_id_exists(old(books)@, args.id@);
            let k = first_with_id(old(books)@, args.id@);
            assert(books@[k].last_read_at == now);
            assert(books@ =~= old(books)@.update(
                k,
                spec_progressed_book(old(books)@[k], *args, books@[k].last_read_at),
            ));
        }
    }
    res
}

// ── queries ──────────────────────────────────────────────────────────────

/// All books on the shelf, in shelf order.
pub fn bookshelf_list(books: &Vec<ShelfBook>) -> (r: Vec<ShelfBook>)
    ensures
        r@ == books@,
{
    let mut out: Vec<ShelfBook> = Vec::new();
    let n = books.len();
    for i in 0..n
        invariant
            n == books@.len(),
            out@ == books@.take(i as int),
    {
        out.push(books[i].clone());
        assert(books@.take(i + 1) =~= books@.take(i as int).push(books@[i as int]));
    }
    assert(books@.take(n as int) =~= books@);
    out
}

/// The record of the book with the given id.
pub fn bookshelf_get(books: &Vec<ShelfBook>, id: &str) -> (r: Result<ShelfBook, CommandError>)
    ensures
        r is Ok <==> has_id(books@, id@),
        r matches Ok(b) ==> b == books@[first_with_id(books@, id@)],
        r matches Err(e) ==> e.kind() == ErrorKind::NotFound && e.text() == missing_book_text(id@),
{
    match find_book(books.as_slice(), id) {
        Ok(b) => Ok(b.clone()),
        Err(e) => Err(e),
    }
}

/// That a book exists (the check `bookshelf_save_chapters` and
/// `bookshelf_save_txt_chapters` make before writing).
pub fn require_book(books: &Vec<ShelfBook>, id: &str) -> (r: Result<(), CommandError>)
    ensures
        r is Ok <==> has_id(books@, id@),
        r matches Err(e) ==> e.kind() == ErrorKind::NotFound && e.text() == missing_book_text(id@),
{
    match find_book(books.as_slice(), id) {
        Ok(_) => Ok(()),
        Err(e) => Err(e),
    }
}


// ── laws ─────────────────────────────────────────────────────────────────

/// An update that carries the book's current required fields and no
/// optional field leaves the book as it was (the front end resends current
/// values; the update is then a no-op).
pub proof fn law_update_with_current_values_is_noop(b: ShelfBook, p: UpdateShelfBookPayload)
    requires
        p.book_url == b.book_url,
        p.file_name == b.file_name,
        p.source_name == b.source_name,
        p.source_type == b.source_type,
        p.name is None,
        p.author is None,
        p.cover_url is None,
        p.intro is None,
        p.kind is None,
        p.group_id is None,
        p.last_chapter is None,
        p.total_chapters is None,
        p.read_chapter_index is None,
        p.read_chapter_url is None,
        p.added_at is None,
        p.last_read_at is None,
        p.read_page_index is None,
        p.read_scroll_ratio_bits is None,
        p.read_playback_time_bits is None,
        p.reader_settings is None,
        p.is_private is None,
    ensures
        spec_updated_book(b, p) == b,
{
}

/// Applying the same update twice gives what applying it once gives.
pub proof fn law_update_idempotent(b: ShelfBook, p: UpdateShelfBookPayload)
    ensures
        spec_updated_book(spec_updated_book(b, p), p) == spec_updated_book(b, p),
{
}

/// An update never changes a book's id, so the updated book is still found
/// under the same id and at the same place, and no other book changes.
pub proof fn law_update_then_get(books: Seq<ShelfBook>, p: UpdateShelfBookPayload)
    requires
        has_id(books, p.id@),
    ensures
        ({
            let k = first_with_id(books, p.id@);
            let after = books.update(k, spec_updated_book(books[k], p));
            &&& has_id(after, p.id@)
            &&& first_with_id(after, p.id@) == k
            &&& after[k] == spec_updated_book(books[k], p)
            &&& after.len() == books.len()
            &&& forall|j: int| 0 <= j < books.len() && j != k ==> after[j] == books[j]
        }),
{
    lemma_first_with_id_exists(books, p.id@);
    let k = first_with_id(books, p.id@);
    let after = books.update(k, spec_updated_book(books[k], p));
    assert(after[k].id@ == p.id@);
    assert forall|j: int| 0 <= j < k implies after[j].id@ != p.id@ by {
        assert(after[j] == books[j]);
    }
    crate::bookshelf::storage::lemma_first_with_id(after, p.id@, k);
}

/// A book added under an id no other book has is then what the shelf
/// returns for that id.
pub proof fn law_add_then_get(books: Seq<ShelfBook>, b: ShelfBook)
    requires
        !has_id(books, b.id@),
    ensures
        has_id(books.push(b), b.id@),
        books.push(b)[first_with_id(books.push(b), b.id@)] == b,
{
    let after = books.push(b);
    assert(after[books.len() as int] == b);
    assert forall|j: int| 0 <= j < books.len() implies after[j].id@ != b.id@ by {
        assert(after[j] == books[j]);
        if books[j].id@ == b.id@ {
            assert(has_id(books, b.id@));
        }
    }
    crate::bookshelf::storage::lemma_first_with_id(after, b.id@, books.len() as int);
}

/// After a progress update, the book reports the chapter just read.
pub proof fn law_progress_then_get(b: ShelfBook, a: BookshelfUpdateProgressArgs, now: i64)
    ensures
        spec_progressed_book(b, a, now).read_chapter_index == a.chapter_index,
        spec_progressed_book(b, a, now).read_chapter_url == Some(a.chapter_url),
        spec_progressed_book(b, a, now).last_read_at == now,
        spec_progressed_book(b, a, now).id == b.id,
{
}


/// An update writes every field its payload carries and keeps the others:
/// each optional field the payload holds (`Some(v)`) becomes `v` (or
/// `Some(v)`), each one it leaves out (`None`) stays as it was; the required
/// fields take the payload's values; the id and the cover referer never
/// change.
pub proof fn law_update_writes_carried_fields(b: ShelfBook, p: UpdateShelfBookPayload)
    ensures
        p.name matches Some(v) ==> spec_updated_book(b, p).name == v,
        p.name is None ==> spec_updated_book(b, p).name == b.name,
        p.author matches Some(v) ==> spec_updated_book(b, p).author == v,
        p.author is None ==> spec_updated_book(b, p).author == b.author,
        p.added_at matches Some(v) ==> spec_updated_book(b, p).added_at == v,
        p.added_at is None ==> spec_updated_book(b, p).added_at == b.added_at,
        p.last_read_at matches Some(v) ==> spec_updated_book(b, p).last_read_at == v,
        p.last_read_at is None ==> spec_updated_book(b, p).last_read_at == b.last_read_at,
        p.read_chapter_index matches Some(v) ==> spec_updated_book(b, p).read_chapter_index == v,
        p.read_chapter_index is None ==> spec_updated_book(b, p).read_chapter_index == b.read_chapter_index,
        p.total_chapters matches Some(v) ==> spec_updated_book(b, p).total_chapters == v,
        p.total_chapters is None ==> spec_updated_book(b, p).total_chapters == b.total_chapters,
        p.read_page_index matches Some(v) ==> spec_updated_book(b, p).read_page_index == v,
        p.read_page_index is None ==> spec_updated_book(b, p).read_page_index == b.read_page_index,
        p.read_scroll_ratio_bits matches Some(v) ==> spec_updated_book(b, p).read_scroll_ratio_bits == v,
        p.read_scroll_ratio_bits is None ==> spec_updated_book(b, p).read_scroll_ratio_bits == b.read_scroll_ratio_bits,
        p.read_playback_time_bits matches Some(v) ==> spec_updated_book(b, p).read_playback_time_bits == v,
        p.read_playback_time_bits is None ==> spec_updated_book(b, p).read_playback_time_bits == b.read_playback_time_bits,
        p.is_private matches Some(v) ==> spec_updated_book(b, p).is_private == v,
        p.is_private is None ==> spec_updated_book(b, p).is_private == b.is_private,
        p.cover_url matches Some(v) ==> spec_updated_book(b, p).cover_url == Some(v),
        p.cover_url is None ==> spec_updated_book(b, p).cover_url == b.cover_url,
        p.intro matches Some(v) ==> spec_updated_book(b, p).intro == Some(v),
        p.intro is None ==> spec_updated_book(b, p).intro == b.intro,
        p.kind matches Some(v) ==> spec_updated_book(b, p).kind == Some(v),
        p.kind is None ==> spec_updated_book(b, p).kind == b.kind,
        p.group_id matches Some(v) ==> spec_updated_book(b, p).group_id == Some(v),
        p.group_id is None ==> spec_updated_book(b, p).group_id == b.group_id,
        p.last_chapter matches Some(v) ==> spec_updated_book(b, p).last_chapter == Some(v),
        p.last_chapter is None ==> spec_updated_book(b, p).last_chapter == b.last_chapter,
        p.read_chapter_url matches Some(v) ==> spec_updated_book(b, p).read_chapter_url == Some(v),
        p.read_chapter_url is None ==> spec_updated_book(b, p).read_chapter_url == b.read_chapter_url,
        p.reader_settings matches Some(v) ==> spec_updated_book(b, p).reader_settings == Some(v),
        p.reader_settings is None ==> spec_updated_book(b, p).reader_settings == b.reader_settings,
        spec_updated_book(b, p).book_url == p.book_url,
        spec_updated_book(b, p).file_name == p.file_name,
        spec_updated_book(b, p).source_name == p.source_name,
        spec_updated_book(b, p).source_type == p.source_type,
        spec_updated_book(b, p).id == b.id,
        spec_updated_book(b, p).cover_referer == b.cover_referer,
{
}

/// A progress update records the chapter, its URL and the time; each of the
/// page index, scroll ratio, playback time and reader settings it carries
/// (`Some(x)`) is saved, each it leaves out stays as it was; nothing else
/// about the book changes.
pub proof fn law_progress_saves_carried_position(b: ShelfBook, a: BookshelfUpdateProgressArgs, now: i64)
    ensures
        spec_progressed_book(b, a, now).read_chapter_index == a.chapter_index,
        spec_progressed_book(b, a, now).read_chapter_url == Some(a.chapter_url),
        spec_progressed_book(b, a, now).last_read_at == now,
        a.page_index matches Some(x) ==> spec_progressed_book(b, a, now).read_page_index == x,
        a.page_index is None ==> spec_progressed_book(b, a, now).read_page_index == b.read_page_index,
        a.scroll_ratio_bits matches Some(x) ==> spec_progressed_book(b, a, now).read_scroll_ratio_bits == x,
        a.scroll_ratio_bits is None ==> spec_progressed_book(b, a, now).read_scroll_ratio_bits == b.read_scroll_ratio_bits,
        a.playback_time_bits matches Some(x) ==> spec_progressed_book(b, a, now).read_playback_time_bits == x,
        a.playback_time_bits is None ==> spec_progressed_book(b, a, now).read_playback_time_bits == b.read_playback_time_bits,
        a.reader_settings matches Some(x) ==> spec_progressed_book(b, a, now).reader_settings == Some(x),
        a.reader_settings is None ==> spec_progressed_book(b, a, now).reader_settings == b.reader_settings,
        spec_progressed_book(b, a, now).id == b.id,
        spec_progressed_book(b, a, now).name == b.name,
        spec_progressed_book(b, a, now).author == b.author,
        spec_progressed_book(b, a, now).cover_url == b.cover_url,
        spec_progressed_book(b, a, now).cover_referer == b.cover_referer,
        spec_progressed_book(b, a, now).intro == b.intro,
        spec_progressed_book(b, a, now).kind == b.kind,
        spec_progressed_book(b, a, now).group_id == b.group_id,
        spec_progressed_book(b, a, now).book_url == b.book_url,
        spec_progressed_book(b, a, now).file_name == b.file_name,
        spec_progressed_book(b, a, now).source_name == b.source_name,
        spec_progressed_book(b, a, now).last_chapter == b.last_chapter,
        spec_progressed_book(b, a, now).added_at == b.added_at,
        spec_progressed_book(b, a, now).total_chapters == b.total_chapters,
        spec_progressed_book(b, a, now).source_type == b.source_type,
        spec_progressed_book(b, a, now).is_private == b.is_private,
{
}

} // verus!
