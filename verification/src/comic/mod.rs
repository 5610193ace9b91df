//! The comic page cache: downloaded page images under
//! `<data_dir>/comic_cache/<book source>/<key of the book URL>/<chapter>/`.
use vstd::prelude::*;

use crate::codec::{base64_encode, spec_base64};
use crate::errors::{CommandError, ErrorKind};
use crate::hashing::{spec_text_key, text_key};
use crate::hashing::lemma_hex_fixed_plain;
use crate::paths::{
    concat_text, confined_below, lemma_no_separator_confined, lemma_sanitized_name_confined,
    sanitize_name, spec_sanitize_name, PathView, StoragePath,
};
use crate::text::lemma_decimal_chars;
use crate::text::{i64_decimal, int_decimal, trim_text, trimmed};

verus! {

/// A request to download the images of a chapter.
#[derive(Debug)]
pub struct ComicDownloadImagesArgs {
    pub file_name: String,
    pub book_url: String,
    pub book_name: String,
    pub chapter_url: String,
    pub chapter_index: i32,
    pub image_urls: Vec<String>,
}

pub open spec fn spec_cache_root(d: PathView) -> PathView {
    d.join("comic_cache"@)
}

pub open spec fn spec_chapter_cache_dir(d: PathView, file_name: Seq<char>, url: Seq<char>) -> PathView {
    spec_cache_root(d).join(spec_sanitize_name(file_name)).join(spec_text_key(url))
}

pub open spec fn spec_chapter_dir(d: PathView, file_name: Seq<char>, book_url: Seq<char>, chapter_index: i32) -> PathView {
    spec_chapter_cache_dir(d, file_name, book_url).join(int_decimal(chapter_index as int))
}

/// `<data_dir>/comic_cache`
pub fn cache_root(data_dir: &StoragePath) -> (p: StoragePath)
    ensures
        p@ == spec_cache_root(data_dir@),
{
    data_dir.join_str("comic_cache")
}

/// The cache key of a URL: its default hash as sixteen hex digits, which
/// holds no path separator.
pub fn url_to_path(input: &str) -> (r: String)
    ensures
        r@ == spec_text_key(input@),
{
    text_key(input)
}

/// A book-source file name made safe as a directory name.
pub fn sanitize(input: &str) -> (r: String)
    ensures
        r@ == spec_sanitize_name(input@),
{
    sanitize_name(input)
}

/// `<data_dir>/comic_cache/<sanitized file name>/<key of the URL>`
pub fn chapter_cache_dir(data_dir: &StoragePath, file_name: &str, chapter_url: &str) -> (p: StoragePath)
    ensures
        p@ == spec_chapter_cache_dir(data_dir@, file_name@, chapter_url@),
{
    cache_root(data_dir).join(sanitize(file_name)).join(url_to_path(chapter_url))
}

/// The directory of one chapter's pages: the cache directory of the book
/// URL, then the chapter index.
pub fn chapter_dir(data_dir: &StoragePath, file_name: &str, book_url: &str, chapter_index: i32) -> (p: StoragePath)
    ensures
        p@ == spec_chapter_dir(data_dir@, file_name@, book_url@, chapter_index),
{
    chapter_cache_dir(data_dir, file_name, book_url).join(i64_decimal(chapter_index as i64))
}

/// `<chapter dir>/<sanitized book name>.sizes.json`, the pixel sizes of the
/// chapter's pages.
pub fn page_sizes_path(data_dir: &StoragePath, file_name: &str, book_url: &str, book_name: &str, chapter_index: i32) -> (p:
    StoragePath)
    ensures
        p@ == spec_chapter_dir(data_dir@, file_name@, book_url@, chapter_index).join(
            spec_sanitize_name(book_name@) + ".sizes.json"@,
        ),
{
    chapter_dir(data_dir, file_name, book_url, chapter_index).join(concat_text(sanitize(book_name).as_str(), ".sizes.json"))
}

/// `<chapter dir>/<page index>.bin`, one cached page image.
pub fn page_path(data_dir: &StoragePath, file_name: &str, book_url: &str, chapter_index: i32, page_index: i32) -> (p:
    StoragePath)
    ensures
        p@ == spec_chapter_dir(data_dir@, file_name@, book_url@, chapter_index).join(
            int_decimal(page_index as int) + ".bin"@,
        ),
{
    chapter_dir(data_dir, file_name, book_url, chapter_index).join(concat_text(i64_decimal(page_index as i64).as_str(), ".bin"))
}

/// What a cache clear removes: the directory of one book source, or the
/// whole cache (which is then made again, empty).
pub fn clear_target(data_dir: &StoragePath, file_name: Option<&str>) -> (p: StoragePath)
    ensures
        p@ == match file_name {
            Some(name) => spec_cache_root(data_dir@).join(spec_sanitize_name(name@)),
            None => spec_cache_root(data_dir@),
        },
{
    match file_name {
        Some(name) => cache_root(data_dir).join(sanitize(name)),
        None => cache_root(data_dir),
    }
}

/// The pixel sizes `[w, h]` of a chapter's pages as spec values.
pub open spec fn size_views(v: Seq<Option<[u32; 2]>>) -> Seq<Option<Seq<u32>>> {
    v.map_values(|o: Option<[u32; 2]>| match o {
        Some(a) => Some(a@),
        None => None,
    })
}

/// What `serde_json::from_str::<Vec<Option<[u32; 2]>>>` makes of a text.
pub uninterp spec fn json_page_sizes(text: Seq<char>) -> Result<Seq<Option<Seq<u32>>>, Seq<char>>;

/// Calls `serde_json::from_str::<Vec<Option<[u32; 2]>>>`. Its contract: the
/// result is the named outcome `json_page_sizes`, the error as its message.
#[verifier::external_body]
fn parse_page_sizes(text: &str) -> (r: Result<Vec<Option<[u32; 2]>>, String>)
    ensures
        json_page_sizes(text@) == (match r {
            Ok(v) => Ok(size_views(v@)),
            Err(m) => Err(m@),
        }),
{
    serde_json::from_str::<Vec<Option<[u32; 2]>>>(text).map_err(|e| e.to_string())
}

/// The page sizes stored for a chapter, from the text of its sizes file:
/// none for a blank file, else the JSON list it holds.
pub fn read_page_sizes(raw: &str) -> (r: Result<Vec<Option<[u32; 2]>>, CommandError>)
    ensures
        trimmed(raw@).len() == 0 ==> (r matches Ok(v) && v@.len() == 0),
        trimmed(raw@).len() > 0 ==> match json_page_sizes(raw@) {
            Ok(s) => r matches Ok(v) && size_views(v@) == s,
            Err(m) => r matches Err(e) && e.kind() == ErrorKind::Serde && e.text() == m,
        },
{
    let t = trim_text(raw);
    if t.as_str().is_empty() {
        return Ok(Vec::new());
    }
    match parse_page_sizes(raw) {
        Ok(v) => Ok(v),
        Err(m) => Err(CommandError::Serde(m)),
    }
}

/// A cached page as Base64, when the host found its file.
pub fn cached_page(bytes: Option<Vec<u8>>) -> (r: Option<String>)
    ensures
        r is Some <==> bytes is Some,
        r matches Some(s) ==> s@ == spec_base64(bytes->0@),
{
    match bytes {
        Some(b) => Some(base64_encode(b.as_slice())),
        None => None,
    }
}

/// Downloading needs an HTTP client and the book-source engine, which this
/// command does not have: it caches nothing and reports none cached.
pub fn comic_download_images(args: ComicDownloadImagesArgs) -> (r: Result<u32, CommandError>)
    ensures
        r == Ok::<u32, CommandError>(0),
{
    Ok(0)
}


/// Every path of the comic cache stays below the cache root, unless the
/// book-source file name sanitises to `..` (the name `..` itself).
pub proof fn law_comic_paths_confined(
    d: PathView,
    file_name: Seq<char>,
    book_url: Seq<char>,
    book_name: Seq<char>,
    chapter_index: i32,
    page_index: i32,
)
    requires
        spec_sanitize_name(file_name) != ".."@,
    ensures
        confined_below(spec_chapter_dir(d, file_name, book_url, chapter_index), spec_cache_root(d)),
        confined_below(
            spec_chapter_dir(d, file_name, book_url, chapter_index).join(int_decimal(page_index as int) + ".bin"@),
            spec_cache_root(d),
        ),
        confined_below(
            spec_chapter_dir(d, file_name, book_url, chapter_index).join(spec_sanitize_name(book_name) + ".sizes.json"@),
            spec_cache_root(d),
        ),
        confined_below(spec_cache_root(d).join(spec_sanitize_name(file_name)), spec_cache_root(d)),
{
    reveal_strlit(".bin");
    reveal_strlit(".sizes.json");
    reveal_strlit("..");
    let root = spec_cache_root(d);
    lemma_sanitized_name_confined(file_name, Seq::empty());
    assert(spec_sanitize_name(file_name) + Seq::<char>::empty() =~= spec_sanitize_name(file_name));
    assert((spec_sanitize_name(book_name) + ".sizes.json"@).len() >= 11);
    lemma_sanitized_name_confined(book_name, ".sizes.json"@);
    let key = spec_text_key(book_url);
    lemma_hex_fixed_plain(crate::hashing::default_hash(book_url) as nat, 16);
    lemma_no_separator_confined(key);
    lemma_decimal_chars(chapter_index as int);
    let ch = int_decimal(chapter_index as int);
    assert forall|i: int| 0 <= i < ch.len() implies #[trigger] ch[i] != '/' && ch[i] != '\\' by {
        assert('0' <= ch[i] <= '9' || ch[i] == '-');
    }
    lemma_no_separator_confined(ch);
    lemma_decimal_chars(page_index as int);
    let pg = int_decimal(page_index as int) + ".bin"@;
    assert forall|i: int| 0 <= i < pg.len() implies #[trigger] pg[i] != '/' && pg[i] != '\\' by {
        if i < int_decimal(page_index as int).len() {
            assert(pg[i] == int_decimal(page_index as int)[i]);
        } else {
            assert(pg[i] == ".bin"@[i - int_decimal(page_index as int).len()]);
        }
    }
    assert(pg.len() >= 5);
    lemma_no_separator_confined(pg);
    let cd = spec_chapter_dir(d, file_name, book_url, chapter_index);
    assert(cd.segments.take(root.segments.len() as int) =~= root.segments);
    assert(cd.join(pg).segments.take(root.segments.len() as int) =~= root.segments);
    assert(cd.join(spec_sanitize_name(book_name) + ".sizes.json"@).segments.take(root.segments.len() as int) =~= root.segments);
    assert(root.join(spec_sanitize_name(file_name)).segments.take(root.segments.len() as int) =~= root.segments);
}

} // verus!
