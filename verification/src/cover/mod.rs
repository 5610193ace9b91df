//! The book-cover cache: `<data_dir>/cover_cache/<key of the URL>.bin`, with
//! the image's MIME type beside it in `<key>.mime`.
use vstd::prelude::*;

use crate::codec::{base64_encode, spec_base64};
use crate::errors::{CommandError, ErrorKind};
use crate::hashing::{spec_text_key, text_key};
use crate::hashing::lemma_hex_fixed_plain;
use crate::paths::{concat_text, confined_below, lemma_no_separator_confined, PathView, StoragePath};
use crate::text::owned;

verus! {

/// A cover lookup: the image URL and what a download would send with it.
#[derive(Debug)]
pub struct CoverRequest {
    pub url: String,
    pub referer: Option<String>,
    pub headers: Vec<(String, String)>,
}

/// A cached cover: its MIME type and its bytes as Base64.
#[derive(Debug)]
pub struct CoverResolveResult {
    pub mime: String,
    pub base64: String,
}

pub open spec fn spec_cover_root(d: PathView) -> PathView {
    d.join("cover_cache"@)
}

/// `<data_dir>/cover_cache`
pub fn cover_root(data_dir: &StoragePath) -> (p: StoragePath)
    ensures
        p@ == spec_cover_root(data_dir@),
{
    data_dir.join_str("cover_cache")
}

/// The cache key of a cover URL: its default hash as sixteen hex digits.
pub fn url_key(input: &str) -> (r: String)
    ensures
        r@ == spec_text_key(input@),
{
    text_key(input)
}

/// `<data_dir>/cover_cache/<key>.bin`, the cached image.
pub fn cover_file(data_dir: &StoragePath, url: &str) -> (p: StoragePath)
    ensures
        p@ == spec_cover_root(data_dir@).join(spec_text_key(url@) + ".bin"@),
{
    cover_root(data_dir).join(concat_text(url_key(url).as_str(), ".bin"))
}

/// `<data_dir>/cover_cache/<key>.mime`, the cached image's MIME type.
pub fn cover_mime_file(data_dir: &StoragePath, url: &str) -> (p: StoragePath)
    ensures
        p@ == spec_cover_root(data_dir@).join(spec_text_key(url@) + ".mime"@),
{
    cover_root(data_dir).join(concat_text(url_key(url).as_str(), ".mime"))
}

/// The error of a lookup whose image is not cached.
pub fn cover_miss(url: &str) -> (e: CommandError)
    ensures
        e.kind() == ErrorKind::NotFound,
        e.text() == "封面缓存未命中: "@ + url@,
{
    CommandError::NotFound(concat_text("封面缓存未命中: ", url))
}

/// A cache hit: the stored MIME type, `image/jpeg` when the host could not
/// read one, and the image as Base64.
pub fn cover_result(mime: Option<String>, bytes: &[u8]) -> (r: CoverResolveResult)
    ensures
        r.mime@ == match mime {
            Some(m) => m@,
            None => "image/jpeg"@,
        },
        r.base64@ == spec_base64(bytes@),
{
    let mime = match mime {
        Some(m) => m,
        None => owned("image/jpeg"),
    };
    CoverResolveResult { mime, base64: base64_encode(bytes) }
}


/// Whatever the URL, its cached files lie directly in the cover cache.
pub proof fn law_cover_files_confined(d: PathView, url: Seq<char>)
    ensures
        confined_below(spec_cover_root(d).join(spec_text_key(url) + ".bin"@), spec_cover_root(d)),
        confined_below(spec_cover_root(d).join(spec_text_key(url) + ".mime"@), spec_cover_root(d)),
{
    reveal_strlit(".bin");
    reveal_strlit(".mime");
    let key = spec_text_key(url);
    lemma_hex_fixed_plain(crate::hashing::default_hash(url) as nat, 16);
    let a = key + ".bin"@;
    let b = key + ".mime"@;
    assert forall|i: int| 0 <= i < a.len() implies #[trigger] a[i] != '/' && a[i] != '\\' by {
        if i < 16 {
            assert(a[i] == key[i]);
        } else {
            assert(a[i] == ".bin"@[i - 16]);
        }
    }
    assert forall|i: int| 0 <= i < b.len() implies #[trigger] b[i] != '/' && b[i] != '\\' by {
        if i < 16 {
            assert(b[i] == key[i]);
        } else {
            assert(b[i] == ".mime"@[i - 16]);
        }
    }
    lemma_no_separator_confined(a);
    lemma_no_separator_confined(b);
    let root = spec_cover_root(d);
    assert(root.join(a).segments.take(root.segments.len() as int) =~= root.segments);
    assert(root.join(b).segments.take(root.segments.len() as int) =~= root.segments);
}

} // verus!
