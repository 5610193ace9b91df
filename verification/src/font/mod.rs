//! User fonts: uploaded files under `<data_dir>/user_fonts/` and their index
//! in `<data_dir>/user_fonts-index.json`.
use vstd::prelude::*;

use crate::errors::{error_prefix, CommandError, ErrorKind};
use crate::hashing::{default_hash, hash_text};
use crate::paths::{sanitize_name, spec_sanitize_name, PathView, StoragePath};
use crate::text::{hex16, hex_fixed, owned, push_text, same_text};

verus! {

/// An uploaded font as the index records it.
#[derive(Debug)]
pub struct UserFont {
    pub id: String,
    pub file_name: String,
    pub display_name: String,
    pub file_size: u64,
    pub uploaded_at: i64,
}

impl Clone for UserFont {
    fn clone(&self) -> (r: UserFont)
        ensures
            r == *self,
    {
        UserFont {
            id: self.id.clone(),
            file_name: self.file_name.clone(),
            display_name: self.display_name.clone(),
            file_size: self.file_size,
            uploaded_at: self.uploaded_at,
        }
    }
}

/// A font upload: the file's name and bytes.
#[derive(Debug)]
pub struct UploadUserFontArgs {
    pub file_name: String,
    pub data: Vec<u8>,
}

/// A new display name for a font.
#[derive(Debug)]
pub struct RenameUserFontArgs {
    pub id: String,
    pub display_name: String,
}

pub open spec fn spec_font_dir(d: PathView) -> PathView {
    d.join("user_fonts"@)
}

pub open spec fn spec_font_index_path(d: PathView) -> PathView {
    d.join("user_fonts-index.json"@)
}

/// `<data_dir>/user_fonts`
pub fn font_dir(data_dir: &StoragePath) -> (p: StoragePath)
    ensures
        p@ == spec_font_dir(data_dir@),
{
    data_dir.join_str("user_fonts")
}

/// `<data_dir>/user_fonts-index.json`
pub fn font_index_path(data_dir: &StoragePath) -> (p: StoragePath)
    ensures
        p@ == spec_font_index_path(data_dir@),
{
    data_dir.join_str("user_fonts-index.json")
}

/// Where the index is written before it replaces the old one.
pub fn font_index_tmp_path(data_dir: &StoragePath) -> (p: StoragePath)
    ensures
        p@ == data_dir@.join("user_fonts-index.json.tmp"@),
{
    data_dir.join_str("user_fonts-index.json.tmp")
}

/// A font file name made safe: `_empty_` for the empty name, else ASCII
/// letters, digits, `-`, `_` and `.` kept and every other character `_`.
pub fn sanitize(input: &str) -> (r: String)
    ensures
        r@ == spec_sanitize_name(input@),
{
    sanitize_name(input)
}

/// The hash from which a font's id is made.
pub fn md5_like(input: &str) -> (r: u64)
    ensures
        r == default_hash(input@),
{
    hash_text(input)
}

/// The id of a font stored under a (sanitised) file name.
pub open spec fn spec_font_id(safe_name: Seq<char>) -> Seq<char> {
    hex_fixed(default_hash(safe_name) as nat, 16)
}

/// The index record of an upload: stored under the sanitised name, with an
/// id derived from that name, the given name for display, its size and the
/// upload time.
pub fn new_user_font(file_name: &str, data: &[u8], now: i64) -> (r: UserFont)
    ensures
        r.file_name@ == spec_sanitize_name(file_name@),
        r.id@ == spec_font_id(spec_sanitize_name(file_name@)),
        r.display_name@ == file_name@,
        r.file_size == data@.len(),
        r.uploaded_at == now,
{
    let safe = sanitize(file_name);
    let id = hex16(md5_like(safe.as_str()));
    UserFont { id, file_name: safe, display_name: owned(file_name), file_size: data.len() as u64, uploaded_at: now }
}

/// `<data_dir>/user_fonts/<sanitised file name>`
pub fn font_file(data_dir: &StoragePath, font: &UserFont) -> (p: StoragePath)
    ensures
        p@ == spec_font_dir(data_dir@).join(font.file_name@),
{
    font_dir(data_dir).join(font.file_name.clone())
}

/// The fonts of `s` whose id is not `id`, in order.
pub open spec fn fonts_without(s: Seq<UserFont>, id: Seq<char>) -> Seq<UserFont>
    decreases s.len(),
{
    if s.len() == 0 {
        s
    } else if s.last().id@ == id {
        fonts_without(s.drop_last(), id)
    } else {
        fonts_without(s.drop_last(), id).push(s.last())
    }
}

/// No two fonts of the index share an id.
pub open spec fn ids_unique(s: Seq<UserFont>) -> bool {
    forall|i: int, j: int| 0 <= i < j < s.len() ==> (#[trigger] s[i]).id@ != (#[trigger] s[j]).id@
}

/// Position of the first font with the id, `-1` when there is none.
pub open spec fn first_font(s: Seq<UserFont>, id: Seq<char>) -> int
    decreases s.len(),
{
    if s.len() == 0 {
        -1
    } else if first_font(s.drop_last(), id) >= 0 {
        first_font(s.drop_last(), id)
    } else if s.last().id@ == id {
        s.len() - 1
    } else {
        -1
    }
}

proof fn lemma_first_font(s: Seq<UserFont>, id: Seq<char>)
    ensures
        -1 <= first_font(s, id) < s.len(),
        first_font(s, id) >= 0 ==> s[first_font(s, id)].id@ == id,
        forall|k: int| 0 <= k < s.len() && (k < first_font(s, id) || first_font(s, id) < 0) ==> (#[trigger] s[k]).id@ != id,
    decreases s.len(),
{
    if s.len() > 0 {
        let t = s.drop_last();
        lemma_first_font(t, id);
        assert forall|k: int| 0 <= k < s.len() && (k < first_font(s, id) || first_font(s, id) < 0) implies (#[trigger] s[k]).id@
            != id by {
            if k < t.len() {
                assert(s[k] == t[k]);
            }
        }
        if first_font(t, id) >= 0 {
            assert(s[first_font(t, id)] == t[first_font(t, id)]);
        }
    }
}

proof fn lemma_fonts_without(s: Seq<UserFont>, id: Seq<char>)
    ensures
        forall|f: UserFont| #[trigger] fonts_without(s, id).contains(f) <==> s.contains(f) && f.id@ != id,
        ids_unique(s) ==> ids_unique(fonts_without(s, id)),
        fonts_without(s, id).len() <= s.len(),
    decreases s.len(),
{
    if s.len() > 0 {
        let t = s.drop_last();
        lemma_fonts_without(t, id);
        let w = fonts_without(s, id);
        let wt = fonts_without(t, id);
        assert forall|f: UserFont| #[trigger] w.contains(f) <==> s.contains(f) && f.id@ != id by {
            if s.contains(f) {
                let k = choose|k: int| 0 <= k < s.len() && s[k] == f;
                if k < t.len() {
                    assert(t[k] == f);
                }
            }
            if t.contains(f) {
                let k = choose|k: int| 0 <= k < t.len() && t[k] == f;
                assert(s[k] == f);
            }
            if s.last().id@ != id {
                if w.contains(f) {
                    let k = choose|k: int| 0 <= k < w.len() && w[k] == f;
                    if k < wt.len() {
                        assert(wt[k] == f);
                    }
                }
                if wt.contains(f) {
                    let k = choose|k: int| 0 <= k < wt.len() && wt[k] == f;
                    assert(w[k] == f);
                }
                if f == s.last() {
                    assert(w[w.len() - 1] == f);
                    assert(s[s.len() - 1] == f);
                }
            }
        }
        if ids_unique(s) {
            assert(ids_unique(t)) by {
                assert forall|i: int, j: int| 0 <= i < j < t.len() implies (#[trigger] t[i]).id@ != (#[trigger] t[j]).id@ by {
                    assert(t[i] == s[i] && t[j] == s[j]);
                }
            }
            if s.last().id@ != id {
                assert forall|i: int, j: int| 0 <= i < j < w.len() implies (#[trigger] w[i]).id@ != (#[trigger] w[j]).id@ by {
                    if j == w.len() - 1 {
                        assert(w[j] == s.last());
                        assert(wt.contains(w[i])) by {
                            assert(wt[i] == w[i]);
                        }
                        assert(t.contains(w[i]));
                        let k = choose|k: int| 0 <= k < t.len() && t[k] == w[i];
                        assert(s[k] == w[i]);
                        assert(s[s.len() - 1] == s.last());
                    } else {
                        assert(w[i] == wt[i] && w[j] == wt[j]);
                    }
                }
            }
        }
    }
}

/// Records an upload: any font with the same id leaves the index and the
/// new one is appended.
pub fn upsert_font(list: &mut Vec<UserFont>, font: UserFont)
    ensures
        final(list)@ == fonts_without(old(list)@, font.id@).push(font),
{
    let mut rest: Vec<UserFont> = Vec::new();
    std::mem::swap(&mut rest, list);
    let ghost all = rest@;
    let total = rest.len();
    let mut back: Vec<UserFont> = Vec::new();
    while rest.len() > 0
        invariant
            back@.len() + rest@.len() == all.len(),
            rest@ == all.take(rest@.len() as int),
            forall|j: int| 0 <= j < back@.len() ==> #[trigger] back@[j] == all[all.len() - 1 - j],
        decreases rest@.len(),
    {
        let e = rest.pop().unwrap();
        back.push(e);
    }
    let mut kept: Vec<UserFont> = Vec::new();
    let mut i: usize = 0;
    while back.len() > 0
        invariant
            total == all.len(),
            i + back@.len() == total,
            forall|j: int| 0 <= j < back@.len() ==> #[trigger] back@[j] == all[total - 1 - j],
            kept@ == fonts_without(all.take(i as int), font.id@),
        decreases back@.len(),
    {
        let e = back.pop().unwrap();
        assert(e == all[i as int]);
        proof {
            assert(all.take(i + 1).drop_last() =~= all.take(i as int));
            assert(all.take(i + 1).last() == e);
        }
        if !same_text(e.id.as_str(), font.id.as_str()) {
            kept.push(e);
        }
        i = i + 1;
    }
    assert(all.take(total as int) =~= all);
    kept.push(font);
    *list = kept;
}

/// The error for a font id the index does not hold.
pub fn missing_font(id: &str) -> (e: CommandError)
    ensures
        e.kind() == ErrorKind::NotFound,
        e.text() == "字体 "@ + id@ + " 不存在"@,
{
    let mut m = owned("字体 ");
    push_text(&mut m, id);
    push_text(&mut m, " 不存在");
    CommandError::NotFound(m)
}

/// Position of the first font with the id.
pub fn find_font(list: &Vec<UserFont>, id: &str) -> (r: Option<usize>)
    ensures
        match r {
            Some(i) => first_font(list@, id@) == i && i < list@.len(),
            None => first_font(list@, id@) < 0,
        },
{
    proof {
        lemma_first_font(list@, id@);
    }
    let n = list.len();
    for i in 0..n
        invariant
            n == list@.len(),
            forall|k: int| 0 <= k < i ==> (#[trigger] list@[k]).id@ != id@,
            -1 <= first_font(list@, id@) < list@.len(),
            first_font(list@, id@) >= 0 ==> list@[first_font(list@, id@)].id@ == id@,
            forall|k: int| 0 <= k < list@.len() && (k < first_font(list@, id@) || first_font(list@, id@) < 0) ==> (#[trigger] list@[k]).id@ != id@,
    {
        if same_text(list[i].id.as_str(), id) {
            return Some(i);
        }
    }
    None
}

/// Removes the first font with the id and hands it back; a missing id is a
/// `NotFound` error and leaves the index as it was.
pub fn remove_font(list: &mut Vec<UserFont>, id: &str) -> (r: Result<UserFont, CommandError>)
    ensures
        first_font(old(list)@, id@) >= 0 ==> (r matches Ok(f) && f == old(list)@[first_font(old(list)@, id@)]
            && final(list)@ == old(list)@.remove(first_font(old(list)@, id@))),
        first_font(old(list)@, id@) < 0 ==> (r matches Err(e) && e.kind() == ErrorKind::NotFound && e.text() == "字体 "@
            + id@ + " 不存在"@ && final(list)@ == old(list)@),
{
    match find_font(list, id) {
        Some(i) => Ok(list.remove(i)),
        None => Err(missing_font(id)),
    }
}

/// Gives the first font with the id a new display name; a missing id is a
/// `NotFound` error and leaves the index as it was.
pub fn rename_font(list: &mut Vec<UserFont>, id: &str, display_name: String) -> (r: Result<(), CommandError>)
    ensures
        first_font(old(list)@, id@) >= 0 ==> (r is Ok && final(list)@ == old(list)@.update(
            first_font(old(list)@, id@),
            UserFont { display_name, ..old(list)@[first_font(old(list)@, id@)] },
        )),
        first_font(old(list)@, id@) < 0 ==> (r matches Err(e) && e.kind() == ErrorKind::NotFound && e.text() == "字体 "@
            + id@ + " 不存在"@ && final(list)@ == old(list)@),
{
    match find_font(list, id) {
        Some(i) => {
            let mut f = list.remove(i);
            f.display_name = display_name;
            list.insert(i, f);
            assert(list@ =~= old(list)@.update(
                first_font(old(list)@, id@),
                UserFont { display_name, ..old(list)@[first_font(old(list)@, id@)] },
            ));
            Ok(())
        },
        None => Err(missing_font(id)),
    }
}

/// The error a failed index write is reported as.
pub fn index_write_failed(e: &CommandError) -> (r: CommandError)
    ensures
        r.kind() == ErrorKind::Other,
        r.text() == "索引写入失败: "@ + error_prefix(e.kind()) + e.text(),
{
    let mut m = owned("索引写入失败: ");
    push_text(&mut m, e.message().as_str());
    CommandError::Other(m)
}

/// System fonts are enumerated by the front end; the command lists none.
pub fn list_system_fonts() -> (r: Result<Vec<String>, CommandError>)
    ensures
        r matches Ok(v) && v@.len() == 0,
{
    Ok(Vec::new())
}

// ── laws ─────────────────────────────────────────────────────────────────

/// After an upload the index holds the new font once, last, and every
/// other font it held before; ids stay unique.
pub proof fn law_upload_then_list(list: Seq<UserFont>, font: UserFont)
    requires
        ids_unique(list),
    ensures
        fonts_without(list, font.id@).push(font).last() == font,
        ids_unique(fonts_without(list, font.id@).push(font)),
        forall|f: UserFont| f.id@ != font.id@ ==> (#[trigger] fonts_without(list, font.id@).push(font).contains(f) <==> list.contains(f)),
        forall|i: int| 0 <= i < fonts_without(list, font.id@).len() ==> (#[trigger] fonts_without(list, font.id@)[i]).id@ != font.id@,
{
    lemma_fonts_without(list, font.id@);
    let w = fonts_without(list, font.id@);
    let r = w.push(font);
    assert forall|i: int| 0 <= i < w.len() implies (#[trigger] w[i]).id@ != font.id@ by {
        assert(w.contains(w[i]));
    }
    assert forall|i: int, j: int| 0 <= i < j < r.len() implies (#[trigger] r[i]).id@ != (#[trigger] r[j]).id@ by {
        if j == r.len() - 1 {
            assert(r[i] == w[i]);
            assert(w.contains(w[i]));
        } else {
            assert(r[i] == w[i] && r[j] == w[j]);
        }
    }
    assert forall|f: UserFont| f.id@ != font.id@ implies (#[trigger] r.contains(f) <==> list.contains(f)) by {
        if r.contains(f) {
            let k = choose|k: int| 0 <= k < r.len() && r[k] == f;
            if k < w.len() {
                assert(w[k] == f);
            }
        }
        if w.contains(f) {
            let k = choose|k: int| 0 <= k < w.len() && w[k] == f;
            assert(r[k] == f);
        }
    }
}

/// When ids are unique, deleting a font leaves no font with its id and
/// keeps ids unique.
pub proof fn law_delete_then_absent(list: Seq<UserFont>, id: Seq<char>)
    requires
        ids_unique(list),
        first_font(list, id) >= 0,
    ensures
        forall|k: int| 0 <= k < list.remove(first_font(list, id)).len() ==> (#[trigger] list.remove(first_font(list, id))[k]).id@ != id,
        ids_unique(list.remove(first_font(list, id))),
{
    lemma_first_font(list, id);
    let p = first_font(list, id);
    let r = list.remove(p);
    assert forall|k: int| 0 <= k < r.len() implies (#[trigger] r[k]).id@ != id by {
        if k < p {
            assert(r[k] == list[k]);
        } else {
            assert(r[k] == list[k + 1]);
        }
    }
    assert forall|i: int, j: int| 0 <= i < j < r.len() implies (#[trigger] r[i]).id@ != (#[trigger] r[j]).id@ by {
        let a = if i < p { i } else { i + 1 };
        let b = if j < p { j } else { j + 1 };
        assert(r[i] == list[a] && r[j] == list[b]);
    }
}

/// Renaming changes the display name of that font and nothing else.
pub proof fn law_rename_keeps_files(list: Seq<UserFont>, id: Seq<char>, name: String)
    requires
        first_font(list, id) >= 0,
    ensures
        ({
            let p = first_font(list, id);
            let r = list.update(p, UserFont { display_name: name, ..list[p] });
            &&& r.len() == list.len()
            &&& r[p].display_name == name
            &&& r[p].id == list[p].id
            &&& r[p].file_name == list[p].file_name
            &&& forall|k: int| 0 <= k < r.len() && k != p ==> #[trigger] r[k] == list[k]
        }),
{
    lemma_first_font(list, id);
}

} // verus!
