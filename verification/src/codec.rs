//! Standard Base64 (RFC 4648, with `=` padding), used to hand file bytes to
//! the front end.
use vstd::prelude::*;

use crate::text::push_char;

verus! {

/// The Base64 alphabet: `A`-`Z`, `a`-`z`, `0`-`9`, `+`, `/`.
pub open spec fn b64_char(i: int) -> char {
    if i < 26 {
        (65 + i) as char
    } else if i < 52 {
        (97 + i - 26) as char
    } else if i < 62 {
        (48 + i - 52) as char
    } else if i == 62 {
        '+'
    } else {
        '/'
    }
}

/// The characters for one group of one to three bytes.
pub open spec fn b64_group(c: Seq<u8>) -> Seq<char> {
    let b0 = c[0] as int;
    let b1 = if c.len() > 1 { c[1] as int } else { 0 };
    let b2 = if c.len() > 2 { c[2] as int } else { 0 };
    let i0 = b0 / 4;
    let i1 = (b0 % 4) * 16 + b1 / 16;
    let i2 = (b1 % 16) * 4 + b2 / 64;
    let i3 = b2 % 64;
    if c.len() == 1 {
        seq![b64_char(i0), b64_char(i1), '=', '=']
    } else if c.len() == 2 {
        seq![b64_char(i0), b64_char(i1), b64_char(i2), '=']
    } else {
        seq![b64_char(i0), b64_char(i1), b64_char(i2), b64_char(i3)]
    }
}

/// Base64 text of a byte sequence: its groups of three bytes, the last one
/// possibly shorter and padded.
pub open spec fn spec_base64(b: Seq<u8>) -> Seq<char>
    decreases b.len(),
{
    if b.len() == 0 {
        seq![]
    } else {
        let k = ((b.len() - 1) / 3) * 3;
        spec_base64(b.take(k)) + b64_group(b.skip(k))
    }
}

fn b64_at(i: u32) -> (c: char)
    requires
        i < 64,
    ensures
        c == b64_char(i as int),
{
    if i < 26 {
        ((65 + i) as u8) as char
    } else if i < 52 {
        ((97 + i - 26) as u8) as char
    } else if i < 62 {
        ((48 + i - 52) as u8) as char
    } else if i == 62 {
        '+'
    } else {
        '/'
    }
}

/// Appends the Base64 characters of `bytes[start..end]` (one to three bytes).
fn push_group(out: &mut String, bytes: &[u8], start: usize, end: usize)
    requires
        start < end <= bytes@.len(),
        end - start <= 3,
    ensures
        final(out)@ == old(out)@ + b64_group(bytes@.subrange(start as int, end as int)),
{
    let len = end - start;
    let b0 = bytes[start];
    let b1 = if len > 1 { bytes[start + 1] } else { 0u8 };
    let b2 = if len > 2 { bytes[start + 2] } else { 0u8 };
    let triple: u32 = ((b0 as u32) << 16) | ((b1 as u32) << 8) | (b2 as u32);
    let i0 = (triple >> 18) & 0x3f;
    let i1 = (triple >> 12) & 0x3f;
    let i2 = (triple >> 6) & 0x3f;
    let i3 = triple & 0x3f;
    assert(i0 == b0 / 4 && i1 == (b0 % 4) * 16 + b1 / 16 && i2 == (b1 % 16) * 4 + b2 / 64 && i3
        == b2 % 64) by (bit_vector)
        requires
            triple == ((b0 as u32) << 16) | ((b1 as u32) << 8) | (b2 as u32),
            i0 == (triple >> 18) & 0x3f,
            i1 == (triple >> 12) & 0x3f,
            i2 == (triple >> 6) & 0x3f,
            i3 == triple & 0x3f,
    ;
    let ghost c = bytes@.subrange(start as int, end as int);
    assert(c[0] == b0);
    assert(len > 1 ==> c[1] == b1);
    assert(len > 2 ==> c[2] == b2);
    push_char(out, b64_at(i0));
    push_char(out, b64_at(i1));
    if len == 3 {
        push_char(out, b64_at(i2));
        push_char(out, b64_at(i3));
    } else if len == 2 {
        push_char(out, b64_at(i2));
        push_char(out, '=');
    } else {
        push_char(out, '=');
        push_char(out, '=');
    }
    assert(final(out)@ =~= old(out)@ + b64_group(c));
}

/// Standard Base64 with padding, as the application hands cached files and
/// exports to the front end.
pub fn base64_encode(bytes: &[u8]) -> (r: String)
    ensures
        r@ == spec_base64(bytes@),
{
    let n = bytes.len();
    let mut out = String::new();
    let mut i: usize = 0;
    assert(bytes@.take(0) =~= Seq::<u8>::empty());
    while i < n
        invariant
            n == bytes@.len(),
            i <= n,
            i % 3 == 0 || i == n,
            out@ == spec_base64(bytes@.take(i as int)),
        decreases n - i,
    {
        let end = if n - i >= 3 { i + 3 } else { n };
        push_group(&mut out, bytes, i, end);
        proof {
            let t = bytes@.take(end as int);
            assert(((end - 1) / 3) * 3 == i) by (nonlinear_arith)
                requires
                    i % 3 == 0,
                    i < end <= i + 3,
            ;
            assert(t.take(i as int) =~= bytes@.take(i as int));
            assert(t.skip(i as int) =~= bytes@.subrange(i as int, end as int));
        }
        i = end;
    }
    assert(bytes@.take(n as int) =~= bytes@);
    out
}

/// Base64 text is four characters for every started group of three bytes.
pub proof fn law_base64_length(b: Seq<u8>)
    ensures
        spec_base64(b).len() == 4 * ((b.len() + 2) / 3),
    decreases b.len(),
{
    if b.len() > 0 {
        let k = ((b.len() - 1) / 3) * 3;
        assert(0 <= k < b.len() && b.len() - k <= 3) by (nonlinear_arith)
            requires
                k == ((b.len() - 1) / 3) * 3,
                b.len() > 0,
        ;
        law_base64_length(b.take(k));
        assert((k + 2) / 3 + 1 == (b.len() + 2) / 3) by (nonlinear_arith)
            requires
                k == ((b.len() - 1) / 3) * 3,
                b.len() > 0,
        ;
    }
}


// ── decoding ─────────────────────────────────────────────────────────────

/// The position of a character in the Base64 alphabet (0 for any other).
pub open spec fn b64_index(c: char) -> int {
    let u = c as int;
    if 65 <= u <= 90 {
        u - 65
    } else if 97 <= u <= 122 {
        u - 97 + 26
    } else if 48 <= u <= 57 {
        u - 48 + 52
    } else if c == '+' {
        62
    } else if c == '/' {
        63
    } else {
        0
    }
}

/// The bytes of one group of four characters: one byte when the group ends
/// in `==`, two when it ends in one `=`, else three.
pub open spec fn b64_ungroup(q: Seq<char>) -> Seq<u8> {
    let i0 = b64_index(q[0]);
    let i1 = b64_index(q[1]);
    let i2 = b64_index(q[2]);
    let i3 = b64_index(q[3]);
    let x0 = (i0 * 4 + i1 / 16) as u8;
    let x1 = ((i1 % 16) * 16 + i2 / 4) as u8;
    let x2 = ((i2 % 4) * 64 + i3) as u8;
    if q[2] == '=' {
        seq![x0]
    } else if q[3] == '=' {
        seq![x0, x1]
    } else {
        seq![x0, x1, x2]
    }
}

/// Standard Base64 decoding of a text made of whole groups of four
/// characters.
pub open spec fn spec_base64_decode(t: Seq<char>) -> Seq<u8>
    decreases t.len(),
{
    if t.len() < 4 {
        seq![]
    } else {
        spec_base64_decode(t.take(t.len() - 4)) + b64_ungroup(t.skip(t.len() - 4))
    }
}

proof fn lemma_b64_index(i: int)
    requires
        0 <= i < 64,
    ensures
        b64_index(b64_char(i)) == i,
        b64_char(i) != '=',
{
}

proof fn lemma_ungroup(c: Seq<u8>)
    requires
        1 <= c.len() <= 3,
    ensures
        b64_ungroup(b64_group(c)) == c,
        b64_group(c).len() == 4,
{
    let b0 = c[0] as int;
    let b1 = if c.len() > 1 { c[1] as int } else { 0 };
    let b2 = if c.len() > 2 { c[2] as int } else { 0 };
    let i0 = b0 / 4;
    let i1 = (b0 % 4) * 16 + b1 / 16;
    let i2 = (b1 % 16) * 4 + b2 / 64;
    let i3 = b2 % 64;
    assert(0 <= i0 < 64 && 0 <= i1 < 64 && 0 <= i2 < 64 && 0 <= i3 < 64);
    lemma_b64_index(i0);
    lemma_b64_index(i1);
    lemma_b64_index(i2);
    lemma_b64_index(i3);
    assert(i0 * 4 + i1 / 16 == b0);
    assert((i1 % 16) * 16 + i2 / 4 == b1);
    assert((i2 % 4) * 64 + i3 == b2);
    let q = b64_group(c);
    if c.len() == 1 {
        assert(b64_ungroup(q) =~= seq![c[0]]);
        assert(c =~= seq![c[0]]);
    } else if c.len() == 2 {
        assert(b64_ungroup(q) =~= seq![c[0], c[1]]);
        assert(c =~= seq![c[0], c[1]]);
    } else {
        assert(b64_ungroup(q) =~= seq![c[0], c[1], c[2]]);
        assert(c =~= seq![c[0], c[1], c[2]]);
    }
}

/// Decoding Base64 text gives back the bytes it was made of.
pub proof fn law_base64_round_trip(b: Seq<u8>)
    ensures
        spec_base64_decode(spec_base64(b)) == b,
    decreases b.len(),
{
    if b.len() > 0 {
        let k = ((b.len() - 1) / 3) * 3;
        assert(0 <= k < b.len() && b.len() - k <= 3) by (nonlinear_arith)
            requires
                k == ((b.len() - 1) / 3) * 3,
                b.len() > 0,
        ;
        law_base64_round_trip(b.take(k));
        lemma_ungroup(b.skip(k));
        let e = spec_base64(b.take(k));
        let g = b64_group(b.skip(k));
        let t = spec_base64(b);
        assert(t == e + g);
        assert(t.take(t.len() - 4) =~= e);
        assert(t.skip(t.len() - 4) =~= g);
        assert(b =~= b.take(k) + b.skip(k));
    }
}

} // verus!
