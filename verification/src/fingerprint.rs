//! Fingerprint table: a fast, non-cryptographic content hash (64-bit FNV-1a
//! over a text's characters) used only to detect change between two snapshots
//! of the same file, never for security. The hash is a pure function of the
//! content's characters, so identical contents hash identically on every run.

use vstd::prelude::*;
use vstd::string::StrSliceExecFns;

verus! {

/// FNV-1a 64-bit offset basis.
pub const FNV_OFFSET: u64 = 0xcbf29ce484222325;

/// FNV-1a 64-bit prime.
pub const FNV_PRIME: u64 = 0x100000001b3;

/// One FNV-1a step: fold one character into the running hash.
pub open spec fn spec_fnv_step(h: u64, c: char) -> u64 {
    vstd::wrapping::u64_specs::wrapping_mul(h ^ (c as u64), FNV_PRIME)
}

/// FNV-1a hash of a whole character sequence.
pub open spec fn spec_fingerprint(s: Seq<char>) -> u64
    decreases s.len(),
{
    if s.len() == 0 {
        FNV_OFFSET
    } else {
        spec_fnv_step(spec_fingerprint(s.drop_last()), s.last())
    }
}

/// A path paired with the content hash computed for it at one instant.
#[derive(Clone)]
pub struct Fingerprint {
    pub path: String,
    pub hash: u64,
}

/// The hash recorded for `k` in a fingerprint list: the first match, if any.
pub open spec fn spec_lookup(m: Seq<Fingerprint>, k: Seq<char>) -> Option<u64>
    decreases m.len(),
{
    if m.len() == 0 {
        None
    } else if m[0].path@ == k {
        Some(m[0].hash)
    } else {
        spec_lookup(m.skip(1), k)
    }
}

/// Content hash of a text, computed character by character.
pub fn fingerprint_content(s: &str) -> (h: u64)
    ensures
        h == spec_fingerprint(s@),
{
    let n = s.unicode_len();
    let mut h: u64 = FNV_OFFSET;
    assert(s@.subrange(0, 0) =~= Seq::<char>::empty());
    let mut i: usize = 0;
    while i < n
        invariant
            0 <= i <= n,
            n == s@.len(),
            h == spec_fingerprint(s@.subrange(0, i as int)),
        decreases n - i,
    {
        let c = s.get_char(i);
        h = (h ^ (c as u64)).wrapping_mul(FNV_PRIME);
        proof {
            assert(s@.subrange(0, i + 1).drop_last() =~= s@.subrange(0, i as int));
            assert(s@.subrange(0, i + 1).last() == s@[i as int]);
        }
        i += 1;
    }
    assert(s@.subrange(0, n as int) =~= s@);
    h
}

/// The hash recorded for path `k`, if the table holds one.
pub fn lookup_hash(m: &Vec<Fingerprint>, k: &String) -> (r: Option<u64>)
    ensures
        r == spec_lookup(m@, k@),
{
    let n = m.len();
    assert(m@.skip(0) =~= m@);
    let mut i: usize = 0;
    while i < n
        invariant
            0 <= i <= n,
            n == m@.len(),
            spec_lookup(m@, k@) == spec_lookup(m@.skip(i as int), k@),
        decreases n - i,
    {
        if m[i].path == *k {
            assert(m@.skip(i as int)[0] == m@[i as int]);
            return Some(m[i].hash);
        }
        proof {
            assert(m@.skip(i as int)[0] == m@[i as int]);
            assert(m@.skip(i as int).skip(1) =~= m@.skip(i + 1));
        }
        i += 1;
    }
    assert(m@.skip(n as int) =~= Seq::<Fingerprint>::empty());
    None
}

} // verus!
