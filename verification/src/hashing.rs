//! The keys under which cached files are stored: the default hash of a text,
//! written as sixteen hexadecimal digits.
use vstd::prelude::*;

use crate::text::{hex16, hex_fixed};

verus! {

/// What `std::collections::hash_map::DefaultHasher::new()` yields for a
/// string hashed with `Hash::hash` and read with `Hasher::finish`. It depends
/// on the text alone: `DefaultHasher::new` is not seeded per process, and std
/// documents that all hashers made by `new` hash alike (though not that the
/// algorithm stays the same from one Rust release to the next).
pub uninterp spec fn default_hash(s: Seq<char>) -> u64;

/// Hashes `s` with a fresh `DefaultHasher` (`DefaultHasher::new`,
/// `Hash::hash` on the `str`, `Hasher::finish`). Its contract: the result is
/// the named value `default_hash` of the text.
#[verifier::external_body]
pub(crate) fn hash_text(s: &str) -> (r: u64)
    ensures
        r == default_hash(s@),
{
    let mut hasher = std::collections::hash_map::DefaultHasher::new();
    std::hash::Hash::hash(s, &mut hasher);
    std::hash::Hasher::finish(&hasher)
}

/// The cache key of a text: its default hash as sixteen hex digits.
pub open spec fn spec_text_key(s: Seq<char>) -> Seq<char> {
    hex_fixed(default_hash(s) as nat, 16)
}

/// `format!("{:016x}", hash(s))`.
pub fn text_key(s: &str) -> (r: String)
    ensures
        r@ == spec_text_key(s@),
{
    hex16(hash_text(s))
}

/// Sixteen hex digits hold no path separator, so a key names one entry of
/// its directory.
pub proof fn lemma_hex_fixed_plain(n: nat, count: nat)
    ensures
        hex_fixed(n, count).len() == count,
        forall|i: int| 0 <= i < count ==> {
            let c = #[trigger] hex_fixed(n, count)[i];
            ('0' <= c <= '9') || ('a' <= c <= 'f')
        },
    decreases count,
{
    if count > 0 {
        lemma_hex_fixed_plain(n / 16, (count - 1) as nat);
        let d = n % 16;
        assert(hex_fixed(n, count) == hex_fixed(n / 16, (count - 1) as nat).push(crate::text::digit_char(d)));
    }
}

} // verus!
