//! Character-level helpers shared by the rest of the library: building
//! strings, decimal / hexadecimal rendering, Unicode whitespace trimming and
//! the lexicographic order on strings.
use vstd::prelude::*;

verus! {

/// `String::push` from std: appends one character to the string.
#[verifier::external_body]
pub(crate) fn push_char(s: &mut String, c: char)
    ensures
        final(s)@ == old(s)@.push(c),
{
    s.push(c);
}

/// Appends a string slice (vstd's `String::append`).
pub(crate) fn push_text(s: &mut String, t: &str)
    ensures
        final(s)@ == old(s)@ + t@,
{
    s.append(t);
}

/// The characters of `s`, in order.
pub fn chars_of(s: &str) -> (r: Vec<char>)
    ensures
        r@ == s@,
{
    let mut out: Vec<char> = Vec::new();
    for c in it: s.chars()
        invariant
            out@ == it.seq().take(it.index() as int),
            it.seq() == s@,
    {
        out.push(c);
    }
    out
}

/// A string made of the given characters.
pub fn string_from_chars(cs: &[char]) -> (r: String)
    ensures
        r@ == cs@,
{
    let mut out = String::new();
    let n = cs.len();
    for i in 0..n
        invariant
            n == cs@.len(),
            out@ == cs@.take(i as int),
    {
        push_char(&mut out, cs[i]);
        assert(cs@.take(i + 1) =~= cs@.take(i as int).push(cs@[i as int]));
    }
    assert(cs@.take(n as int) =~= cs@);
    out
}

/// A copy of a string slice as an owned `String`.
pub fn owned(s: &str) -> (r: String)
    ensures
        r@ == s@,
{
    s.to_owned()
}

// ── character classes ────────────────────────────────────────────────────

/// ASCII letters and digits (`char::is_ascii_alphanumeric`).
pub open spec fn is_ascii_alnum(c: char) -> bool {
    ('a' <= c && c <= 'z') || ('A' <= c && c <= 'Z') || ('0' <= c && c <= '9')
}

pub fn ascii_alnum(c: char) -> (b: bool)
    ensures
        b == is_ascii_alnum(c),
{
    ('a' <= c && c <= 'z') || ('A' <= c && c <= 'Z') || ('0' <= c && c <= '9')
}

/// The Unicode `White_Space` property, which `char::is_whitespace` and
/// `str::trim` go by.
pub open spec fn is_white(c: char) -> bool {
    let u = c as u32;
    (0x09 <= u && u <= 0x0d) || u == 0x20 || u == 0x85 || u == 0xa0 || u == 0x1680 || (0x2000
        <= u && u <= 0x200a) || u == 0x2028 || u == 0x2029 || u == 0x202f || u == 0x205f || u
        == 0x3000
}

pub fn white(c: char) -> (b: bool)
    ensures
        b == is_white(c),
{
    let u = c as u32;
    (0x09 <= u && u <= 0x0d) || u == 0x20 || u == 0x85 || u == 0xa0 || u == 0x1680 || (0x2000
        <= u && u <= 0x200a) || u == 0x2028 || u == 0x2029 || u == 0x202f || u == 0x205f || u
        == 0x3000
}

/// Number of leading whitespace characters.
pub open spec fn lead_white(s: Seq<char>) -> nat
    decreases s.len(),
{
    if s.len() == 0 || !is_white(s[0]) {
        0
    } else {
        1 + lead_white(s.drop_first())
    }
}

/// Number of trailing whitespace characters.
pub open spec fn trail_white(s: Seq<char>) -> nat
    decreases s.len(),
{
    if s.len() == 0 || !is_white(s.last()) {
        0
    } else {
        1 + trail_white(s.drop_last())
    }
}

/// `s` with leading and trailing whitespace removed (`str::trim`).
pub open spec fn trimmed(s: Seq<char>) -> Seq<char> {
    let a = s.skip(lead_white(s) as int);
    a.take(a.len() - trail_white(a))
}

proof fn lemma_lead_white_bound(s: Seq<char>)
    ensures
        lead_white(s) <= s.len(),
        forall|j: int| 0 <= j < lead_white(s) ==> is_white(#[trigger] s[j]),
        lead_white(s) < s.len() ==> !is_white(s[lead_white(s) as int]),
    decreases s.len(),
{
    if s.len() > 0 && is_white(s[0]) {
        lemma_lead_white_bound(s.drop_first());
        assert forall|j: int| 0 <= j < lead_white(s) implies is_white(#[trigger] s[j]) by {
            if j > 0 {
                assert(s[j] == s.drop_first()[j - 1]);
            }
        }
        if lead_white(s) < s.len() {
            assert(s[lead_white(s) as int] == s.drop_first()[lead_white(s.drop_first()) as int]);
        }
    }
}

proof fn lemma_trail_white_bound(s: Seq<char>)
    ensures
        trail_white(s) <= s.len(),
        forall|j: int| s.len() - trail_white(s) <= j < s.len() ==> is_white(#[trigger] s[j]),
        trail_white(s) < s.len() ==> !is_white(s[s.len() - trail_white(s) - 1]),
    decreases s.len(),
{
    if s.len() > 0 && is_white(s.last()) {
        lemma_trail_white_bound(s.drop_last());
        assert forall|j: int| s.len() - trail_white(s) <= j < s.len() implies is_white(
            #[trigger] s[j],
        ) by {
            if j < s.len() - 1 {
                assert(s[j] == s.drop_last()[j]);
            }
        }
        if trail_white(s) < s.len() {
            assert(s[s.len() - trail_white(s) - 1] == s.drop_last()[s.drop_last().len()
                - trail_white(s.drop_last()) - 1]);
        }
    }
}

/// A text that opens with a character other than whitespace is not blank.
pub proof fn lemma_trimmed_nonempty(s: Seq<char>)
    requires
        s.len() > 0,
        !is_white(s[0]),
    ensures
        trimmed(s).len() > 0,
{
    assert(lead_white(s) == 0);
    assert(s.skip(0) =~= s);
    lemma_trail_white_bound(s);
    if trail_white(s) == s.len() {
        assert(is_white(s[0]));
    }
}

/// Characterises `lead_white` by the index it stops at.
proof fn lemma_lead_white_is(s: Seq<char>, k: int)
    requires
        0 <= k <= s.len(),
        forall|j: int| 0 <= j < k ==> is_white(#[trigger] s[j]),
        k < s.len() ==> !is_white(s[k]),
    ensures
        lead_white(s) == k,
    decreases s.len(),
{
    if k > 0 {
        assert forall|j: int| 0 <= j < k - 1 implies is_white(#[trigger] s.drop_first()[j]) by {
            assert(s.drop_first()[j] == s[j + 1]);
        }
        if k - 1 < s.drop_first().len() {
            assert(s.drop_first()[k - 1] == s[k]);
        }
        lemma_lead_white_is(s.drop_first(), k - 1);
    }
}

/// Characterises `trail_white` by the index it stops at.
proof fn lemma_trail_white_is(s: Seq<char>, k: int)
    requires
        0 <= k <= s.len(),
        forall|j: int| s.len() - k <= j < s.len() ==> is_white(#[trigger] s[j]),
        k < s.len() ==> !is_white(s[s.len() - k - 1]),
    ensures
        trail_white(s) == k,
    decreases s.len(),
{
    if k > 0 {
        let d = s.drop_last();
        assert forall|j: int| d.len() - (k - 1) <= j < d.len() implies is_white(#[trigger] d[j]) by {
            assert(d[j] == s[j]);
        }
        if k - 1 < d.len() {
            assert(d[d.len() - (k - 1) - 1] == s[s.len() - k - 1]);
        }
        lemma_trail_white_is(d, k - 1);
    }
}

/// Whether the text is empty or only whitespace (`s.trim().is_empty()`),
/// which is how a stored file that holds nothing is recognised.
pub fn is_blank(s: &str) -> (r: bool)
    ensures
        r == (trimmed(s@).len() == 0),
{
    let t = trim_text(s);
    t.as_str().is_empty()
}

/// `str::trim`: the string without its leading and trailing whitespace.
pub fn trim_text(s: &str) -> (r: String)
    ensures
        r@ == trimmed(s@),
{
    let cs = chars_of(s);
    let n = cs.len();
    let mut start: usize = 0;
    while start < n && white(cs[start])
        invariant
            n == cs@.len(),
            start <= n,
            forall|j: int| 0 <= j < start ==> is_white(#[trigger] cs@[j]),
        decreases n - start,
    {
        start = start + 1;
    }
    let mut end: usize = n;
    while end > start && white(cs[end - 1])
        invariant
            n == cs@.len(),
            start <= end <= n,
            forall|j: int| end <= j < n ==> is_white(#[trigger] cs@[j]),
        decreases end - start,
    {
        end = end - 1;
    }
    let mut out = String::new();
    let mut i = start;
    while i < end
        invariant
            n == cs@.len(),
            start <= i <= end <= n,
            out@ == cs@.subrange(start as int, i as int),
        decreases end - i,
    {
        push_char(&mut out, cs[i]);
        assert(cs@.subrange(start as int, i + 1) =~= cs@.subrange(start as int, i as int).push(
            cs@[i as int],
        ));
        i = i + 1;
    }
    proof {
        let sv = s@;
        lemma_lead_white_is(sv, start as int);
        let a = sv.skip(start as int);
        let k = (n - end) as int;
        assert forall|j: int| a.len() - k <= j < a.len() implies is_white(#[trigger] a[j]) by {
            assert(a[j] == sv[j + start]);
        }
        if k < a.len() {
            assert(a[a.len() - k - 1] == sv[end - 1]);
        }
        lemma_trail_white_is(a, k);
        assert(out@ =~= a.take(a.len() - trail_white(a)));
    }
    out
}

// ── decimal and hexadecimal rendering ─────────────────────────────────────

/// The ASCII digit for `d` (`0 <= d < 16`), lower-case for `a`..`f`.
pub open spec fn digit_char(d: nat) -> char {
    if d < 10 {
        (48 + d) as char
    } else {
        (87 + d) as char
    }
}

pub(crate) fn digit_of(d: u64) -> (c: char)
    requires
        d < 16,
    ensures
        c == digit_char(d as nat),
{
    let table: [char; 16] = [
        '0', '1', '2', '3', '4', '5', '6', '7', '8', '9', 'a', 'b', 'c', 'd', 'e', 'f',
    ];
    let c = table[d as usize];
    assert(table@ =~= seq!['0', '1', '2', '3', '4', '5', '6', '7', '8', '9', 'a', 'b', 'c', 'd', 'e', 'f']);
    c
}

/// Decimal digits of `n`, most significant first, without leading zeros.
pub open spec fn nat_decimal(n: nat) -> Seq<char>
    decreases n,
{
    if n < 10 {
        seq![digit_char(n)]
    } else {
        nat_decimal(n / 10).push(digit_char(n % 10))
    }
}

/// The decimal rendering of an integer, as `Display` writes it.
pub open spec fn int_decimal(i: int) -> Seq<char> {
    if i < 0 {
        seq!['-'] + nat_decimal((-i) as nat)
    } else {
        nat_decimal(i as nat)
    }
}

fn push_decimal(out: &mut String, n: u64)
    ensures
        final(out)@ == old(out)@ + nat_decimal(n as nat),
    decreases n,
{
    if n >= 10 {
        push_decimal(out, n / 10);
    }
    let c = digit_of(n % 10);
    push_char(out, c);
    proof {
        if n < 10 {
            assert(nat_decimal(n as nat) =~= seq![digit_char(n as nat)]);
        }
    }
}

/// `u64::to_string`.
pub fn u64_decimal(n: u64) -> (r: String)
    ensures
        r@ == nat_decimal(n as nat),
{
    let mut out = String::new();
    push_decimal(&mut out, n);
    out
}

/// `i64::to_string`.
pub fn i64_decimal(n: i64) -> (r: String)
    ensures
        r@ == int_decimal(n as int),
{
    let mut out = String::new();
    if n < 0 {
        push_char(&mut out, '-');
        let m: u64 = (-(n as i128)) as u64;
        push_decimal(&mut out, m);
    } else {
        push_decimal(&mut out, n as u64);
    }
    out
}

/// The last `count` hexadecimal digits of `n`, zero-padded.
pub open spec fn hex_fixed(n: nat, count: nat) -> Seq<char>
    decreases count,
{
    if count == 0 {
        seq![]
    } else {
        hex_fixed(n / 16, (count - 1) as nat).push(digit_char(n % 16))
    }
}

fn push_hex(out: &mut String, n: u64, count: u64)
    ensures
        final(out)@ == old(out)@ + hex_fixed(n as nat, count as nat),
    decreases count,
{
    if count > 0 {
        push_hex(out, n / 16, count - 1);
        let c = digit_of(n % 16);
        push_char(out, c);
    } else {
        assert(hex_fixed(n as nat, 0) =~= seq![]);
    }
}

/// `format!("{:016x}", n)`: sixteen lower-case hexadecimal digits.
pub fn hex16(n: u64) -> (r: String)
    ensures
        r@ == hex_fixed(n as nat, 16),
{
    let mut out = String::new();
    push_hex(&mut out, n, 16);
    out
}

// ── lexicographic order ──────────────────────────────────────────────────

/// Strict lexicographic order by code point (the order of `str`'s `Ord`:
/// UTF-8 bytes compare as their code points do).
pub open spec fn text_lt(a: Seq<char>, b: Seq<char>) -> bool
    decreases a.len(),
{
    if a.len() == 0 {
        b.len() > 0
    } else if b.len() == 0 {
        false
    } else if a[0] < b[0] {
        true
    } else if a[0] > b[0] {
        false
    } else {
        text_lt(a.drop_first(), b.drop_first())
    }
}

pub proof fn lemma_text_lt_irreflexive(a: Seq<char>)
    ensures
        !text_lt(a, a),
    decreases a.len(),
{
    if a.len() > 0 {
        lemma_text_lt_irreflexive(a.drop_first());
    }
}

pub proof fn lemma_text_lt_transitive(a: Seq<char>, b: Seq<char>, c: Seq<char>)
    requires
        text_lt(a, b),
        text_lt(b, c),
    ensures
        text_lt(a, c),
    decreases a.len(),
{
    if a.len() > 0 && b.len() > 0 && c.len() > 0 {
        if a[0] == b[0] && b[0] == c[0] {
            lemma_text_lt_transitive(a.drop_first(), b.drop_first(), c.drop_first());
        }
    }
}

pub proof fn lemma_text_lt_total(a: Seq<char>, b: Seq<char>)
    ensures
        a == b || text_lt(a, b) || text_lt(b, a),
    decreases a.len(),
{
    if a.len() > 0 && b.len() > 0 && a[0] == b[0] {
        lemma_text_lt_total(a.drop_first(), b.drop_first());
        if a.drop_first() == b.drop_first() {
            assert(a =~= seq![a[0]] + a.drop_first());
            assert(b =~= seq![b[0]] + b.drop_first());
        }
    } else if a.len() == 0 && b.len() == 0 {
        assert(a =~= b);
    }
}

pub proof fn lemma_text_lt_asymmetric(a: Seq<char>, b: Seq<char>)
    requires
        text_lt(a, b),
    ensures
        !text_lt(b, a),
    decreases a.len(),
{
    if a.len() > 0 && b.len() > 0 && a[0] == b[0] {
        lemma_text_lt_asymmetric(a.drop_first(), b.drop_first());
    }
}

/// Three-way result of comparing two strings.
#[derive(PartialEq, Eq, Structural, Clone, Copy, Debug)]
pub enum TextOrder {
    Less,
    Equal,
    Greater,
}

fn compare_chars(a: &Vec<char>, b: &Vec<char>) -> (r: TextOrder)
    ensures
        r == TextOrder::Less <==> text_lt(a@, b@),
        r == TextOrder::Equal <==> a@ == b@,
        r == TextOrder::Greater <==> text_lt(b@, a@),
{
    let mut i: usize = 0;
    while i < a.len() && i < b.len() && a[i] == b[i]
        invariant
            i <= a@.len(),
            i <= b@.len(),
            a@.take(i as int) == b@.take(i as int),
        decreases a.len() - i,
    {
        assert(a@.take(i + 1) =~= a@.take(i as int).push(a@[i as int]));
        assert(b@.take(i + 1) =~= b@.take(i as int).push(b@[i as int]));
        i = i + 1;
    }
    proof {
        lemma_text_lt_prefix(a@, b@, i as int);
        lemma_text_lt_prefix(b@, a@, i as int);
    }
    let r = if i == a.len() && i == b.len() {
        proof {
            assert(a@ =~= a@.take(i as int));
            assert(b@ =~= b@.take(i as int));
            lemma_text_lt_irreflexive(a@);
        }
        TextOrder::Equal
    } else if i == a.len() {
        TextOrder::Less
    } else if i == b.len() {
        TextOrder::Greater
    } else if a[i] < b[i] {
        TextOrder::Less
    } else {
        TextOrder::Greater
    };
    proof {
        if r != TextOrder::Equal {
            if a@ == b@ {
                lemma_text_lt_irreflexive(a@);
            }
            if text_lt(a@, b@) {
                lemma_text_lt_asymmetric(a@, b@);
            }
        }
    }
    r
}

/// Skipping a common prefix of length `i` keeps the order.
proof fn lemma_text_lt_prefix(a: Seq<char>, b: Seq<char>, i: int)
    requires
        0 <= i <= a.len(),
        i <= b.len(),
        a.take(i) == b.take(i),
    ensures
        text_lt(a, b) == text_lt(a.skip(i), b.skip(i)),
    decreases i,
{
    if i > 0 {
        assert(a[0] == a.take(i)[0]);
        assert(b[0] == b.take(i)[0]);
        assert(a.drop_first().take(i - 1) =~= a.take(i).drop_first());
        assert(b.drop_first().take(i - 1) =~= b.take(i).drop_first());
        lemma_text_lt_prefix(a.drop_first(), b.drop_first(), i - 1);
        assert(a.drop_first().skip(i - 1) =~= a.skip(i));
        assert(b.drop_first().skip(i - 1) =~= b.skip(i));
    } else {
        assert(a.skip(0) =~= a);
        assert(b.skip(0) =~= b);
    }
}

/// Compares two strings in the order of `str`'s `Ord`.
pub fn compare_text(a: &str, b: &str) -> (r: TextOrder)
    ensures
        r == TextOrder::Less <==> text_lt(a@, b@),
        r == TextOrder::Equal <==> a@ == b@,
        r == TextOrder::Greater <==> text_lt(b@, a@),
{
    let ca = chars_of(a);
    let cb = chars_of(b);
    compare_chars(&ca, &cb)
}


/// `a == b` on string slices.
pub fn same_text(a: &str, b: &str) -> (r: bool)
    ensures
        r == (a@ == b@),
{
    compare_text(a, b) == TextOrder::Equal
}


/// Every character of a decimal rendering is a digit or `-`.
pub proof fn lemma_decimal_chars(i: int)
    ensures
        forall|j: int|
            0 <= j < int_decimal(i).len() ==> ('0' <= #[trigger] int_decimal(i)[j] <= '9'
                || int_decimal(i)[j] == '-'),
        int_decimal(i).len() >= 1,
{
    if i < 0 {
        lemma_nat_decimal_chars((-i) as nat);
        let d = nat_decimal((-i) as nat);
        assert forall|j: int| 0 <= j < int_decimal(i).len() implies ('0' <= #[trigger] int_decimal(
            i,
        )[j] <= '9' || int_decimal(i)[j] == '-') by {
            if j > 0 {
                assert(int_decimal(i)[j] == d[j - 1]);
            }
        }
    } else {
        lemma_nat_decimal_chars(i as nat);
    }
}

pub proof fn lemma_nat_decimal_chars(n: nat)
    ensures
        forall|j: int| 0 <= j < nat_decimal(n).len() ==> '0' <= #[trigger] nat_decimal(n)[j] <= '9',
        nat_decimal(n).len() >= 1,
    decreases n,
{
    if n >= 10 {
        lemma_nat_decimal_chars(n / 10);
        let p = nat_decimal(n / 10);
        assert forall|j: int| 0 <= j < nat_decimal(n).len() implies '0' <= #[trigger] nat_decimal(
            n,
        )[j] <= '9' by {
            if j < p.len() {
                assert(nat_decimal(n)[j] == p[j]);
            }
        }
    }
}


/// `s.ends_with(suffix)`.
pub fn ends_with_text(s: &str, suffix: &str) -> (r: bool)
    ensures
        r == (suffix@.len() <= s@.len() && s@.skip(s@.len() - suffix@.len()) == suffix@),
{
    let a = chars_of(s);
    let b = chars_of(suffix);
    if b.len() > a.len() {
        return false;
    }
    let off = a.len() - b.len();
    let alen = a.len();
    let mut i: usize = 0;
    while i < b.len()
        invariant
            a@ == s@,
            b@ == suffix@,
            b@.len() <= a@.len(),
            off == a@.len() - b@.len(),
            alen == a@.len(),
            i <= b@.len(),
            forall|j: int| 0 <= j < i ==> a@[off + j] == b@[j],
        decreases b@.len() - i,
    {
        if a[off + i] != b[i] {
            assert(s@.skip(off as int)[i as int] != suffix@[i as int]);
            return false;
        }
        i = i + 1;
    }
    assert(s@.skip(off as int) =~= suffix@);
    true
}

/// `s.starts_with(prefix)`.
pub fn starts_with_text(s: &str, prefix: &str) -> (r: bool)
    ensures
        r == (prefix@.len() <= s@.len() && s@.take(prefix@.len() as int) == prefix@),
{
    let a = chars_of(s);
    let b = chars_of(prefix);
    if b.len() > a.len() {
        return false;
    }
    let mut i: usize = 0;
    while i < b.len()
        invariant
            a@ == s@,
            b@ == prefix@,
            b@.len() <= a@.len(),
            i <= b@.len(),
            forall|j: int| 0 <= j < i ==> a@[j] == b@[j],
        decreases b@.len() - i,
    {
        if a[i] != b[i] {
            assert(s@.take(b@.len() as int)[i as int] != prefix@[i as int]);
            return false;
        }
        i = i + 1;
    }
    assert(s@.take(b@.len() as int) =~= prefix@);
    true
}

/// `s.contains(c)`.
pub fn contains_char(s: &str, c: char) -> (r: bool)
    ensures
        r == s@.contains(c),
{
    let a = chars_of(s);
    let n = a.len();
    for i in 0..n
        invariant
            n == a@.len(),
            a@ == s@,
            forall|j: int| 0 <= j < i ==> a@[j] != c,
    {
        if a[i] == c {
            assert(s@[i as int] == c);
            return true;
        }
    }
    false
}

/// The characters `cs[from..to]` as a string.
pub fn slice_text(cs: &Vec<char>, from: usize, to: usize) -> (r: String)
    requires
        from <= to <= cs@.len(),
    ensures
        r@ == cs@.subrange(from as int, to as int),
{
    let mut out = String::new();
    let mut i = from;
    while i < to
        invariant
            from <= i <= to <= cs@.len(),
            out@ == cs@.subrange(from as int, i as int),
        decreases to - i,
    {
        push_char(&mut out, cs[i]);
        assert(cs@.subrange(from as int, i + 1) =~= cs@.subrange(from as int, i as int).push(
            cs@[i as int],
        ));
        i = i + 1;
    }
    out
}


/// `s` holds two consecutive dots.
pub open spec fn has_dotdot(s: Seq<char>) -> bool {
    exists|i: int| 0 <= i && i + 1 < s.len() && #[trigger] s[i] == '.' && s[i + 1] == '.'
}

/// `s.contains("..")`.
pub fn contains_dotdot(s: &str) -> (r: bool)
    ensures
        r == has_dotdot(s@),
{
    let a = chars_of(s);
    let n = a.len();
    let mut i: usize = 0;
    while i < n
        invariant
            n == a@.len(),
            a@ == s@,
            i <= n,
            forall|j: int| 0 <= j < i && j + 1 < n ==> !(#[trigger] a@[j] == '.' && a@[j + 1] == '.'),
        decreases n - i,
    {
        if i + 1 < n && a[i] == '.' && a[i + 1] == '.' {
            return true;
        }
        i = i + 1;
    }
    false
}

/// `s.trim_end_matches(suffix)` for a non-empty suffix: the suffix removed
/// as many times as it ends the string.
pub open spec fn trim_end_all(s: Seq<char>, suffix: Seq<char>) -> Seq<char>
    decreases s.len(),
{
    if suffix.len() > 0 && suffix.len() <= s.len() && s.skip(s.len() - suffix.len()) == suffix {
        trim_end_all(s.take(s.len() - suffix.len()), suffix)
    } else {
        s
    }
}

pub fn trim_end_matches_text(s: &str, suffix: &str) -> (r: String)
    requires
        suffix@.len() > 0,
    ensures
        r@ == trim_end_all(s@, suffix@),
{
    let a = chars_of(s);
    let b = chars_of(suffix);
    let mut end = a.len();
    assert(a@.take(end as int) =~= a@);
    while end >= b.len() && ends_at(&a, end, &b)
        invariant
            a@ == s@,
            b@ == suffix@,
            b@.len() > 0,
            end <= a@.len(),
            trim_end_all(a@.take(end as int), b@) == trim_end_all(s@, suffix@),
        decreases end,
    {
        let ghost t = a@.take(end as int);
        end = end - b.len();
        proof {
            assert(t.take(t.len() - b@.len()) =~= a@.take(end as int));
        }
    }
    proof {
        let t = a@.take(end as int);
        if end >= b@.len() {
            assert(t.skip(t.len() - b@.len()) != b@);
        }
    }
    let r = slice_text(&a, 0, end);
    assert(a@.subrange(0, end as int) =~= a@.take(end as int));
    r
}

/// `cs[..end]` ends with `b`.
fn ends_at(a: &Vec<char>, end: usize, b: &Vec<char>) -> (r: bool)
    requires
        b@.len() <= end <= a@.len(),
    ensures
        r == (a@.take(end as int).skip(end - b@.len()) == b@),
{
    let off = end - b.len();
    let mut i: usize = 0;
    while i < b.len()
        invariant
            off == end - b@.len(),
            b@.len() <= end <= a@.len(),
            i <= b@.len(),
            forall|j: int| 0 <= j < i ==> a@[off + j] == b@[j],
        decreases b@.len() - i,
    {
        if a[off + i] != b[i] {
            assert(a@.take(end as int).skip(off as int)[i as int] != b@[i as int]);
            return false;
        }
        i = i + 1;
    }
    assert(a@.take(end as int).skip(off as int) =~= b@);
    true
}


// ── ASCII case ───────────────────────────────────────────────────────────

/// `char::to_ascii_lowercase`: `A`..`Z` to `a`..`z`, every other character
/// unchanged.
pub open spec fn ascii_lower(c: char) -> char {
    if 'A' <= c <= 'Z' {
        ((c as u32) + 32) as char
    } else {
        c
    }
}

/// `char::to_ascii_uppercase`: `a`..`z` to `A`..`Z`, every other character
/// unchanged.
pub open spec fn ascii_upper(c: char) -> char {
    if 'a' <= c <= 'z' {
        ((c as u32) - 32) as char
    } else {
        c
    }
}

/// `str::to_ascii_lowercase` (`upper` false) or `str::to_ascii_uppercase`
/// (`upper` true).
pub open spec fn ascii_case(s: Seq<char>, upper: bool) -> Seq<char> {
    s.map_values(|c: char| if upper { ascii_upper(c) } else { ascii_lower(c) })
}

fn case_char(c: char, upper: bool) -> (r: char)
    ensures
        r == (if upper { ascii_upper(c) } else { ascii_lower(c) }),
{
    if upper {
        if 'a' <= c && c <= 'z' {
            let v = ((c as u32) - 32) as u8;
            v as char
        } else {
            c
        }
    } else {
        if 'A' <= c && c <= 'Z' {
            let v = ((c as u32) + 32) as u8;
            v as char
        } else {
            c
        }
    }
}

/// The text with its ASCII letters in one case.
pub fn to_ascii_case(s: &str, upper: bool) -> (r: String)
    ensures
        r@ == ascii_case(s@, upper),
{
    let cs = chars_of(s);
    let n = cs.len();
    let mut out = String::new();
    for i in 0..n
        invariant
            n == cs@.len(),
            cs@ == s@,
            out@ == ascii_case(s@, upper).take(i as int),
    {
        let d = case_char(cs[i], upper);
        push_char(&mut out, d);
        assert(ascii_case(s@, upper).take(i + 1) =~= ascii_case(s@, upper).take(i as int).push(d));
    }
    assert(ascii_case(s@, upper).take(n as int) =~= ascii_case(s@, upper));
    out
}


// ── parsing integers ─────────────────────────────────────────────────────

pub open spec fn all_digits(s: Seq<char>) -> bool {
    forall|i: int| 0 <= i < s.len() ==> '0' <= #[trigger] s[i] <= '9'
}

/// The value of a run of decimal digits.
pub open spec fn digits_value(s: Seq<char>) -> int
    decreases s.len(),
{
    if s.len() == 0 {
        0
    } else {
        10 * digits_value(s.drop_last()) + (s.last() as int - '0' as int)
    }
}

/// `str::parse::<i32>`: an optional `+` or `-`, then one or more decimal
/// digits, whose value must fit in `i32`.
pub open spec fn spec_parse_i32(s: Seq<char>) -> Option<i32> {
    if s.len() == 0 {
        None
    } else {
        let neg = s[0] == '-';
        let body = if s[0] == '-' || s[0] == '+' { s.drop_first() } else { s };
        let v = if neg { -digits_value(body) } else { digits_value(body) };
        if body.len() == 0 || !all_digits(body) || v < i32::MIN || v > i32::MAX {
            None
        } else {
            Some(v as i32)
        }
    }
}

proof fn lemma_digits_value_grows(s: Seq<char>, k: int)
    requires
        all_digits(s),
        0 <= k <= s.len(),
    ensures
        0 <= digits_value(s.take(k)) <= digits_value(s),
    decreases s.len() - k,
{
    if k < s.len() {
        lemma_digits_value_grows(s, k + 1);
        assert(s.take(k + 1).drop_last() =~= s.take(k));
        lemma_digits_value_nonneg(s.take(k));
    } else {
        assert(s.take(k) =~= s);
        lemma_digits_value_nonneg(s);
    }
}

proof fn lemma_digits_value_nonneg(s: Seq<char>)
    requires
        all_digits(s),
    ensures
        digits_value(s) >= 0,
    decreases s.len(),
{
    if s.len() > 0 {
        lemma_digits_value_nonneg(s.drop_last());
        assert('0' <= s[s.len() - 1] <= '9');
    }
}

/// `s.parse::<i32>().ok()`.
pub fn parse_i32(s: &str) -> (r: Option<i32>)
    ensures
        r == spec_parse_i32(s@),
{
    let cs = chars_of(s);
    let n = cs.len();
    if n == 0 {
        return None;
    }
    let neg = cs[0] == '-';
    let start: usize = if cs[0] == '-' || cs[0] == '+' { 1 } else { 0 };
    let ghost body = if s@[0] == '-' || s@[0] == '+' { s@.drop_first() } else { s@ };
    assert(body =~= s@.skip(start as int));
    if start == n {
        return None;
    }
    let mut acc: i64 = 0;
    let mut i: usize = start;
    while i < n
        invariant
            n == cs@.len(),
            cs@ == s@,
            body == s@.skip(start as int),
            body == (if s@[0] == '-' || s@[0] == '+' { s@.drop_first() } else { s@ }),
            neg == (s@[0] == '-'),
            n > 0,
            start < n,
            start <= i <= n,
            all_digits(body.take(i - start)),
            acc == digits_value(body.take(i - start)),
            0 <= acc <= 2147483648,
        decreases n - i,
    {
        let c = cs[i];
        assert(body.take(i - start + 1).drop_last() =~= body.take(i - start));
        assert(body.take(i - start + 1).last() == c);
        if c < '0' || c > '9' {
            assert(body[i - start] == c);
            assert(!all_digits(body));
            return None;
        }
        let d = (c as u32 - '0' as u32) as i64;
        let next = acc * 10 + d;
        assert(next == digits_value(body.take(i - start + 1)));
        if next > 2147483648 {
            proof {
                assert(all_digits(body.take(i - start + 1)));
                if all_digits(body) {
                    lemma_digits_value_grows(body, i - start + 1);
                    assert(body.take(i - start + 1).take(i - start + 1) =~= body.take(i - start + 1));
                }
            }
            return None;
        }
        acc = next;
        i = i + 1;
    }
    assert(body.take(n - start) =~= body);
    if neg {
        Some((0 - acc) as i32)
    } else {
        if acc > 2147483647 {
            return None;
        }
        Some(acc as i32)
    }
}


proof fn lemma_nat_decimal_value(n: nat)
    ensures
        all_digits(nat_decimal(n)),
        digits_value(nat_decimal(n)) == n,
        nat_decimal(n).len() >= 1,
    decreases n,
{
    lemma_nat_decimal_chars(n);
    if n >= 10 {
        lemma_nat_decimal_value(n / 10);
        let s = nat_decimal(n);
        assert(s.drop_last() =~= nat_decimal(n / 10));
        assert(s.last() == digit_char(n % 10));
        assert(digit_char(n % 10) as int - '0' as int == n % 10);
        assert(digits_value(s) == 10 * digits_value(s.drop_last()) + (s.last() as int - '0' as int));
        assert(n == 10 * (n / 10) + n % 10);
    } else {
        let s = nat_decimal(n);
        assert(digit_char(n) as int - '0' as int == n);
        assert(s.drop_last() =~= Seq::<char>::empty());
        assert(digits_value(s.drop_last()) == 0);
        assert(s.last() == digit_char(n));
        assert(digits_value(s) == 10 * digits_value(s.drop_last()) + (s.last() as int - '0' as int));
    }
}

/// Parsing the decimal rendering of an `i32` gives the number back.
pub proof fn lemma_parse_decimal(i: i32)
    ensures
        spec_parse_i32(int_decimal(i as int)) == Some(i),
{
    let s = int_decimal(i as int);
    if i < 0 {
        let n = (-(i as int)) as nat;
        lemma_nat_decimal_value(n);
        assert(s[0] == '-');
        assert(s.drop_first() =~= nat_decimal(n));
    } else {
        lemma_nat_decimal_value(i as nat);
        assert('0' <= s[0] <= '9');
    }
}

} // verus!
