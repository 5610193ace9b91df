//! The records of the bookshelf. Floating-point fields of the front end's
//! records travel through the library as their IEEE-754 bit patterns
//! (`f32::to_bits` / `f64::to_bits`): the library copies them and never
//! computes with them.
use vstd::prelude::*;

verus! {

/// Bit pattern of the `f32` value `-1.0`, the "not set yet" marker of the
/// reading-position fields.
pub const MINUS_ONE_F32_BITS: u32 = 0xbf80_0000u32;

/// A book on the shelf (the front end's `ShelfBook`).
#[derive(Debug)]
pub struct ShelfBook {
    pub id: String,
    pub name: String,
    pub author: String,
    pub cover_url: Option<String>,
    pub cover_referer: Option<String>,
    pub intro: Option<String>,
    pub kind: Option<String>,
    pub group_id: Option<String>,
    pub book_url: String,
    pub file_name: String,
    pub source_name: String,
    pub last_chapter: Option<String>,
    pub added_at: i64,
    pub last_read_at: i64,
    pub read_chapter_index: i32,
    pub read_chapter_url: Option<String>,
    pub total_chapters: i32,
    pub source_type: String,
    pub read_page_index: i32,
    /// `f32` bits of the scroll ratio.
    pub read_scroll_ratio_bits: u32,
    /// `f32` bits of the playback position.
    pub read_playback_time_bits: u32,
    pub reader_settings: Option<String>,
    pub is_private: bool,
}

/// What the front end sends to put a book on the shelf.
#[derive(Debug, Clone)]
pub struct AddBookPayload {
    pub name: String,
    pub author: Option<String>,
    pub cover_url: Option<String>,
    pub intro: Option<String>,
    pub kind: Option<String>,
    pub group_id: Option<String>,
    pub book_url: String,
    pub last_chapter: Option<String>,
    pub source_type: Option<String>,
}

/// What the front end sends to update a book: `id` and the required fields,
/// and each optional field only when it changes.
#[derive(Debug, Clone)]
pub struct UpdateShelfBookPayload {
    pub id: String,
    pub name: Option<String>,
    pub author: Option<String>,
    pub cover_url: Option<String>,
    pub intro: Option<String>,
    pub kind: Option<String>,
    pub group_id: Option<String>,
    pub book_url: String,
    pub file_name: String,
    pub source_name: String,
    pub last_chapter: Option<String>,
    pub total_chapters: Option<i32>,
    pub read_chapter_index: Option<i32>,
    pub read_chapter_url: Option<String>,
    pub source_type: String,
    pub added_at: Option<i64>,
    pub last_read_at: Option<i64>,
    pub read_page_index: Option<i32>,
    pub read_scroll_ratio_bits: Option<u32>,
    pub read_playback_time_bits: Option<u32>,
    pub reader_settings: Option<String>,
    pub is_private: Option<bool>,
}

/// One entry of a book's table of contents.
#[derive(Debug)]
pub struct CachedChapter {
    pub index: i32,
    pub name: String,
    pub url: String,
    pub group: Option<String>,
}

/// One chapter body of a TXT import.
#[derive(Debug, Clone)]
pub struct TxtChapterInput {
    pub index: i32,
    pub content: String,
}

/// Playback position of one episode (video / audio book); `f64` bits.
#[derive(Debug, Clone, Copy)]
pub struct EpisodeProgress {
    pub time_bits: u64,
    pub duration_bits: u64,
    pub last_played_at: i64,
}

/// The snapshot taken before a whole-book source switch.
#[derive(Debug, Clone)]
pub struct SourceSwitchBackup {
    pub book: ShelfBook,
    pub chapters: Vec<CachedChapter>,
    pub saved_at: i64,
}

/// A copy of an optional string.
pub fn copy_opt(o: &Option<String>) -> (r: Option<String>)
    ensures
        r == *o,
{
    match o {
        Some(s) => Some(s.clone()),
        None => None,
    }
}

impl Clone for ShelfBook {
    fn clone(&self) -> (r: Self)
        ensures
            r == *self,
    {
        ShelfBook {
            id: self.id.clone(),
            name: self.name.clone(),
            author: self.author.clone(),
            cover_url: copy_opt(&self.cover_url),
            cover_referer: copy_opt(&self.cover_referer),
            intro: copy_opt(&self.intro),
            kind: copy_opt(&self.kind),
            group_id: copy_opt(&self.group_id),
            book_url: self.book_url.clone(),
            file_name: self.file_name.clone(),
            source_name: self.source_name.clone(),
            last_chapter: copy_opt(&self.last_chapter),
            added_at: self.added_at,
            last_read_at: self.last_read_at,
            read_chapter_index: self.read_chapter_index,
            read_chapter_url: copy_opt(&self.read_chapter_url),
            total_chapters: self.total_chapters,
            source_type: self.source_type.clone(),
            read_page_index: self.read_page_index,
            read_scroll_ratio_bits: self.read_scroll_ratio_bits,
            read_playback_time_bits: self.read_playback_time_bits,
            reader_settings: copy_opt(&self.reader_settings),
            is_private: self.is_private,
        }
    }
}

impl Clone for CachedChapter {
    fn clone(&self) -> (r: Self)
        ensures
            r == *self,
    {
        CachedChapter {
            index: self.index,
            name: self.name.clone(),
            url: self.url.clone(),
            group: copy_opt(&self.group),
        }
    }
}

/// A copy of a table of contents.
pub fn copy_chapters(chapters: &[CachedChapter]) -> (r: Vec<CachedChapter>)
    ensures
        r@ == chapters@,
{
    let mut out: Vec<CachedChapter> = Vec::new();
    let n = chapters.len();
    for i in 0..n
        invariant
            n == chapters@.len(),
            out@ == chapters@.take(i as int),
    {
        out.push(chapters[i].clone());
        assert(chapters@.take(i + 1) =~= chapters@.take(i as int).push(chapters@[i as int]));
    }
    assert(chapters@.take(n as int) =~= chapters@);
    out
}

// ── clock ────────────────────────────────────────────────────────────────

#[verifier::external_type_specification]
#[verifier::external_body]
pub struct ExSystemTime(std::time::SystemTime);

#[verifier::external_type_specification]
#[verifier::external_body]
pub struct ExSystemTimeError(std::time::SystemTimeError);

/// `SystemTime::now`: the current wall-clock time. Nothing is claimed of it.
#[verifier::external_body]
fn system_now() -> std::time::SystemTime {
    std::time::SystemTime::now()
}

/// `SystemTime::duration_since(UNIX_EPOCH)`: time since 1970, or an error
/// when the clock is before 1970. Nothing is claimed of either.
#[verifier::external_body]
fn since_unix_epoch(t: &std::time::SystemTime) -> Result<
    core::time::Duration,
    std::time::SystemTimeError,
> {
    t.duration_since(std::time::UNIX_EPOCH)
}

/// `Duration::as_millis`: whole milliseconds of a duration. Nothing is
/// claimed of the value, the duration being opaque here.
#[verifier::external_body]
fn duration_millis(d: &core::time::Duration) -> u128 {
    d.as_millis()
}

/// Milliseconds as the `i64` that `as i64` gives (two's-complement
/// truncation of larger values).
pub fn millis_to_i64(ms: u128) -> (r: i64)
    ensures
        r == ms as i64,
{
    ms as i64
}

/// The time stamp of a clock reading: its milliseconds since 1970 as the
/// `i64` that `as i64` gives, or `0` for a reading before 1970 (`None`).
pub fn millis_or_zero(since: Option<u128>) -> (r: i64)
    ensures
        r == match since {
            Some(ms) => ms as i64,
            None => 0i64,
        },
{
    match since {
        Some(ms) => millis_to_i64(ms),
        None => 0,
    }
}

/// Current time in milliseconds since the Unix epoch; `0` when the clock is
/// before 1970. The reading depends on the clock, so nothing is stated of
/// its value; `millis_or_zero` is what turns it into the time stamp.
pub fn now_ms() -> i64 {
    let t = system_now();
    let since = match since_unix_epoch(&t) {
        Ok(d) => Some(duration_millis(&d)),
        Err(_) => None,
    };
    millis_or_zero(since)
}

} // verus!
