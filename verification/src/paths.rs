//! File-system locations, built as a root directory plus relative path
//! segments, and the sanitisers that keep user-given names inside the tree.
use vstd::prelude::*;

use crate::errors::{CommandError, ErrorKind};
use crate::text::{
    ascii_alnum, chars_of, contains_char, contains_dotdot, has_dotdot, is_ascii_alnum, owned, push_char,
    push_text, slice_text,
};

verus! {

/// A location below a root directory: `root/segments[0]/segments[1]/...`.
/// The root is a directory path as the host gives it (the application data
/// directory, or an absolute book-source directory); segments are names
/// joined one after another below it.
#[derive(Debug, Clone)]
pub struct StoragePath {
    pub root: String,
    pub segments: Vec<String>,
}

/// Spec view of a location.
pub struct PathView {
    pub root: Seq<char>,
    pub segments: Seq<Seq<char>>,
}

impl View for StoragePath {
    type V = PathView;

    open spec fn view(&self) -> PathView {
        PathView { root: self.root@, segments: self.segments@.map_values(|s: String| s@) }
    }
}

impl PathView {
    pub open spec fn join(self, seg: Seq<char>) -> PathView {
        PathView { root: self.root, segments: self.segments.push(seg) }
    }

    /// `self` lies at or below `dir`.
    pub open spec fn within(self, dir: PathView) -> bool {
        &&& self.root == dir.root
        &&& dir.segments.len() <= self.segments.len()
        &&& self.segments.take(dir.segments.len() as int) == dir.segments
    }

    /// No segment can leave its parent directory: none holds a separator or
    /// is `..`.
    pub open spec fn confined(self) -> bool {
        forall|i: int| 0 <= i < self.segments.len() ==> #[trigger] confined_segment(self.segments[i])
    }
}

/// `p` lies at or below `dir`, and every segment it adds to `dir` is
/// confined: the location cannot resolve outside `dir`.
pub open spec fn confined_below(p: PathView, dir: PathView) -> bool {
    &&& p.within(dir)
    &&& forall|i: int|
        dir.segments.len() <= i < p.segments.len() ==> #[trigger] confined_segment(p.segments[i])
}

/// A segment that names an entry of its directory and nothing else.
pub open spec fn confined_segment(s: Seq<char>) -> bool {
    !s.contains('/') && !s.contains('\\') && s != ".."@
}

impl StoragePath {
    /// The directory itself.
    pub fn at(root: String) -> (p: StoragePath)
        ensures
            p@.root == root@,
            p@.segments == Seq::<Seq<char>>::empty(),
    {
        let p = StoragePath { root, segments: Vec::new() };
        assert(p@.segments =~= Seq::<Seq<char>>::empty());
        p
    }

    /// `Path::join` with a relative name.
    pub fn join(&self, seg: String) -> (p: StoragePath)
        ensures
            p@ == self@.join(seg@),
    {
        let mut segments = self.segments.clone();
        segments.push(seg);
        let p = StoragePath { root: self.root.clone(), segments };
        assert(p@.segments =~= self@.segments.push(seg@));
        p
    }

    pub fn join_str(&self, seg: &str) -> (p: StoragePath)
        ensures
            p@ == self@.join(seg@),
    {
        self.join(owned(seg))
    }
}

// ── sanitisers ───────────────────────────────────────────────────────────

/// `c` if it is an ASCII letter, digit, `-` or `_`, else `_`.
pub open spec fn id_char(c: char) -> char {
    if is_ascii_alnum(c) || c == '-' || c == '_' {
        c
    } else {
        '_'
    }
}

/// `c` if it is an ASCII letter, digit, `-`, `_` or `.`, else `_`.
pub open spec fn name_char(c: char) -> char {
    if is_ascii_alnum(c) || c == '-' || c == '_' || c == '.' {
        c
    } else {
        '_'
    }
}

pub open spec fn spec_sanitize_id(id: Seq<char>) -> Seq<char> {
    id.map_values(|c: char| id_char(c))
}

/// Empty names become `_empty_`; every other character is kept only if it
/// is an ASCII letter, digit, `-`, `_` or `.`.
pub open spec fn spec_sanitize_name(name: Seq<char>) -> Seq<char> {
    if name.len() == 0 {
        "_empty_"@
    } else {
        name.map_values(|c: char| name_char(c))
    }
}

/// The sanitiser for cache file names, font files and storage namespaces:
/// `_empty_` for the empty name, else ASCII letters, digits, `-`, `_` and
/// `.` are kept and every other character becomes `_`.
pub fn sanitize_name(name: &str) -> (r: String)
    ensures
        r@ == spec_sanitize_name(name@),
{
    let cs = chars_of(name);
    let n = cs.len();
    if n == 0 {
        return owned("_empty_");
    }
    let mut out = String::new();
    for i in 0..n
        invariant
            n == cs@.len(),
            cs@ == name@,
            n > 0,
            out@ == name@.map_values(|c: char| name_char(c)).take(i as int),
    {
        let c = cs[i];
        let d = if ascii_alnum(c) || c == '-' || c == '_' || c == '.' {
            c
        } else {
            '_'
        };
        push_char(&mut out, d);
        assert(name@.map_values(|c: char| name_char(c)).take(i + 1) =~= name@.map_values(
            |c: char| name_char(c),
        ).take(i as int).push(d));
    }
    assert(name@.map_values(|c: char| name_char(c)).take(n as int) =~= name@.map_values(
        |c: char| name_char(c),
    ));
    out
}

/// What `sanitize_id` yields holds no separator and is never `..`.
pub proof fn lemma_sanitized_id_confined(id: Seq<char>, suffix: Seq<char>)
    requires
        !suffix.contains('/'),
        !suffix.contains('\\'),
        suffix != ".."@,
    ensures
        confined_segment(spec_sanitize_id(id) + suffix),
{
    let s = spec_sanitize_id(id) + suffix;
    assert forall|i: int| 0 <= i < s.len() implies s[i] != '/' && s[i] != '\\' by {
        if i < id.len() {
            assert(s[i] == id_char(id[i]));
        } else {
            assert(s[i] == suffix[i - id.len()]);
        }
    }
    if s == ".."@ {
        reveal_strlit("..");
        assert(s[0] == '.');
        if id.len() > 0 {
            assert(s[0] == id_char(id[0]));
        } else {
            assert(s[1] == suffix[1]);
            assert(suffix =~= ".."@);
        }
    }
}

/// A sanitised name (plus a suffix without separators) is a confined
/// segment, unless name and suffix together spell `..`.
pub proof fn lemma_sanitized_name_confined(name: Seq<char>, suffix: Seq<char>)
    requires
        !suffix.contains('/'),
        !suffix.contains('\\'),
        spec_sanitize_name(name) + suffix != ".."@,
    ensures
        confined_segment(spec_sanitize_name(name) + suffix),
{
    let s = spec_sanitize_name(name) + suffix;
    let t = spec_sanitize_name(name);
    reveal_strlit("_empty_");
    assert forall|i: int| 0 <= i < s.len() implies s[i] != '/' && s[i] != '\\' by {
        if i < t.len() {
            if name.len() == 0 {
                assert(t == "_empty_"@);
            } else {
                assert(t[i] == name_char(name[i]));
            }
        } else {
            assert(s[i] == suffix[i - t.len()]);
        }
    }
}

/// `format!("{}.{}", stem, ext)`-style concatenation of two pieces.
pub fn concat_text(a: &str, b: &str) -> (r: String)
    ensures
        r@ == a@ + b@,
{
    let mut out = owned(a);
    push_text(&mut out, b);
    out
}


// ── file names ───────────────────────────────────────────────────────────

/// Position of the last `.` in a name, `-1` when there is none.
pub open spec fn last_dot(name: Seq<char>) -> int
    decreases name.len(),
{
    if name.len() == 0 {
        -1
    } else if name.last() == '.' {
        name.len() - 1
    } else {
        last_dot(name.drop_last())
    }
}

/// `Path::extension` of a file name: the text after the last `.`, unless
/// there is no `.` or the only `.` starts the name (or the name is `..`).
pub open spec fn spec_extension(name: Seq<char>) -> Option<Seq<char>> {
    if name == ".."@ || last_dot(name) <= 0 {
        None
    } else {
        Some(name.skip(last_dot(name) + 1))
    }
}

/// `Path::file_stem` of a file name: the text before the last `.`, or the
/// whole name when `Path::extension` finds none.
pub open spec fn spec_file_stem(name: Seq<char>) -> Seq<char> {
    if name == ".."@ || last_dot(name) <= 0 {
        name
    } else {
        name.take(last_dot(name))
    }
}

proof fn lemma_last_dot(name: Seq<char>)
    ensures
        -1 <= last_dot(name) < name.len(),
        last_dot(name) >= 0 ==> name[last_dot(name)] == '.',
        forall|j: int| last_dot(name) < j < name.len() ==> name[j] != '.',
    decreases name.len(),
{
    if name.len() > 0 && name.last() != '.' {
        lemma_last_dot(name.drop_last());
        assert forall|j: int| last_dot(name) < j < name.len() implies name[j] != '.' by {
            if j < name.len() - 1 {
                assert(name[j] == name.drop_last()[j]);
            }
        }
    }
}

proof fn lemma_last_dot_is(name: Seq<char>, k: int)
    requires
        -1 <= k < name.len(),
        k >= 0 ==> name[k] == '.',
        forall|j: int| k < j < name.len() ==> name[j] != '.',
    ensures
        last_dot(name) == k,
    decreases name.len(),
{
    if name.len() > 0 && k < name.len() - 1 {
        assert(name.last() != '.');
        assert forall|j: int| k < j < name.drop_last().len() implies name.drop_last()[j] != '.' by {
            assert(name.drop_last()[j] == name[j]);
        }
        if k >= 0 {
            assert(name.drop_last()[k] == name[k]);
        }
        lemma_last_dot_is(name.drop_last(), k);
    }
}

/// Splits a file name into `Path::file_stem` and `Path::extension`.
pub fn split_file_name(name: &str) -> (r: (String, Option<String>))
    ensures
        r.0@ == spec_file_stem(name@),
        r.1 matches Some(e) ==> spec_extension(name@) == Some(e@),
        r.1 is None ==> spec_extension(name@) is None,
{
    let cs = chars_of(name);
    let n = cs.len();
    let mut k: usize = n;
    // k is one past the candidate dot position
    while k > 0 && cs[k - 1] != '.'
        invariant
            cs@ == name@,
            n == cs@.len(),
            k <= n,
            forall|j: int| k <= j < n ==> cs@[j] != '.',
        decreases k,
    {
        k = k - 1;
    }
    proof {
        lemma_last_dot_is(name@, k - 1);
        reveal_strlit("..");
    }
    let is_dotdot = n == 2 && cs[0] == '.' && cs[1] == '.';
    proof {
        if name@ == ".."@ {
            assert(name@[0] == '.' && name@[1] == '.');
        }
        if is_dotdot {
            assert(name@ =~= ".."@);
        }
    }
    if is_dotdot || k <= 1 {
        (owned(name), None)
    } else {
        (slice_text(&cs, 0, k - 1), Some(slice_text(&cs, k, n)))
    }
}


// ── user-given file names ────────────────────────────────────────────────

/// A file name taken as is from the front end: not empty, without a path
/// separator and without `..` anywhere in it.
pub open spec fn plain_file_name(s: Seq<char>) -> bool {
    &&& s.len() > 0
    &&& !s.contains('/')
    &&& !s.contains('\\')
    &&& !has_dotdot(s)
}

/// Accepts a file name that is plain; else an `Invalid` error whose text is
/// `empty_msg` for the empty name and `bad_prefix` followed by the name for
/// any other.
pub fn checked_file_name(input: &str, empty_msg: &str, bad_prefix: &str) -> (r: Result<String, CommandError>)
    ensures
        r is Ok <==> plain_file_name(input@),
        r matches Ok(s) ==> s@ == input@,
        input@.len() == 0 ==> (r matches Err(e) && e.kind() == ErrorKind::Invalid && e.text() == empty_msg@),
        input@.len() > 0 && !plain_file_name(input@) ==> (r matches Err(e) && e.kind() == ErrorKind::Invalid
            && e.text() == bad_prefix@ + input@),
{
    if input.is_empty() {
        return Err(CommandError::Invalid(owned(empty_msg)));
    }
    if contains_char(input, '/') || contains_char(input, '\\') || contains_dotdot(input) {
        return Err(CommandError::Invalid(concat_text(bad_prefix, input)));
    }
    Ok(owned(input))
}

/// A plain file name, alone or followed by a suffix of two or more
/// characters without separators (a marker such as `.enabled`), names an
/// entry of its directory and nothing else.
pub proof fn lemma_plain_name_confined(name: Seq<char>, suffix: Seq<char>)
    requires
        plain_file_name(name),
        !suffix.contains('/'),
        !suffix.contains('\\'),
        suffix.len() == 0 || suffix.len() >= 2,
    ensures
        confined_segment(name + suffix),
{
    let s = name + suffix;
    assert forall|i: int| 0 <= i < s.len() implies s[i] != '/' && s[i] != '\\' by {
        if i < name.len() {
            assert(s[i] == name[i]);
            assert(name.contains(name[i]));
        } else {
            assert(s[i] == suffix[i - name.len()]);
            assert(suffix.contains(suffix[i - name.len()]));
        }
    }
    reveal_strlit("..");
    if s == ".."@ {
        assert(s.len() == 2);
        assert(suffix.len() == 0);
        assert(name =~= s);
        assert(name[0] == '.' && name[1] == '.');
        assert(has_dotdot(name));
    }
}

/// The marker files that switch a file on or off: the one to create and
/// the one to remove, both beside it.
pub struct MarkerPlan {
    pub create: StoragePath,
    pub remove: StoragePath,
}

/// `<dir>/<name>.enabled` is created and `<dir>/<name>.disabled` removed to
/// switch a file on; the other way round to switch it off.
pub fn marker_plan(dir: &StoragePath, name: &str, enabled: bool) -> (r: MarkerPlan)
    ensures
        r.create@ == dir@.join(name@ + (if enabled { ".enabled"@ } else { ".disabled"@ })),
        r.remove@ == dir@.join(name@ + (if enabled { ".disabled"@ } else { ".enabled"@ })),
{
    let on = dir.join(concat_text(name, ".enabled"));
    let off = dir.join(concat_text(name, ".disabled"));
    if enabled {
        MarkerPlan { create: on, remove: off }
    } else {
        MarkerPlan { create: off, remove: on }
    }
}


/// A name without separators that is not `..` is a confined segment.
pub proof fn lemma_no_separator_confined(s: Seq<char>)
    requires
        forall|i: int| 0 <= i < s.len() ==> #[trigger] s[i] != '/' && s[i] != '\\',
        s.len() != 2 || s[0] != '.' || s[1] != '.',
    ensures
        confined_segment(s),
{
    reveal_strlit("..");
    if s.contains('/') {
        let k = choose|k: int| 0 <= k < s.len() && s[k] == '/';
        assert(s[k] != '/');
    }
    if s.contains('\\') {
        let k = choose|k: int| 0 <= k < s.len() && s[k] == '\\';
        assert(s[k] != '\\');
    }
    if s == ".."@ {
        assert(s[0] == '.' && s[1] == '.');
    }
}

} // verus!
