//! Distribution identity: a stable fingerprint of either the bytes of
//! an embedded runtime archive or the declared source locator, used as
//! the cache key and as part of the installation directory, so that a
//! changed runtime automatically invalidates old installations.
//!
//! The fingerprint is a 64-bit Fowler–Noll–Vo hash (variant 1a),
//! computed entirely in verified code.

use vstd::prelude::*;

use crate::strutil::{dec_digits, u64_to_dec};

verus! {

/// The initial state of the fingerprint computation.
pub open spec fn fnv_offset() -> u64 {
    0xcbf29ce484222325u64
}

/// One step of the fingerprint computation.
pub open spec fn fnv_step(h: u64, b: u8) -> u64 {
    vstd::wrapping::u64_specs::wrapping_mul(h ^ (b as u64), 0x100000001b3u64)
}

/// The fingerprint of a byte sequence: the fold of `fnv_step` over the
/// bytes, left to right, starting from `fnv_offset`.
pub open spec fn fnv1a(bytes: Seq<u8>) -> u64
    decreases bytes.len(),
{
    if bytes.len() == 0 {
        fnv_offset()
    } else {
        fnv_step(fnv1a(bytes.drop_last()), bytes.last())
    }
}

/// Hashes a byte slice.
pub fn hash_bytes(data: &[u8]) -> (r: u64)
    ensures
        r == fnv1a(data@),
{
    let mut h: u64 = 0xcbf29ce484222325;
    let n = data.len();
    proof {
        assert(data@.take(0) =~= Seq::<u8>::empty());
    }
    let mut i: usize = 0;
    while i < n
        invariant
            i <= n,
            n == data@.len(),
            h == fnv1a(data@.take(i as int)),
        decreases n - i,
    {
        let b = data[i];
        h = (h ^ (b as u64)).wrapping_mul(0x100000001b3);
        proof {
            assert(data@.take(i + 1).drop_last() =~= data@.take(i as int));
            assert(data@.take(i + 1).last() == data@[i as int]);
        }
        i += 1;
    }
    proof {
        assert(data@.take(n as int) =~= data@);
    }
    h
}

/// What the identity is computed from: either the byte content of an
/// embedded runtime archive, or the declared source locator when no
/// archive is embedded.
pub enum IdentitySource {
    /// The bytes of an embedded runtime archive.
    Archive(Vec<u8>),
    /// The declared source locator string.
    Locator(String),
}

/// The identity of a source.  A locator is hashed through its byte
/// encoding followed by a terminator, so an archive and a locator
/// with the same leading bytes are still told apart.
pub open spec fn spec_identity(src: IdentitySource) -> u64 {
    match src {
        IdentitySource::Archive(b) => fnv1a(b@),
        IdentitySource::Locator(s) => fnv_step(fnv1a(vstd::utf8::encode_utf8(s@)), 0xffu8),
    }
}

/// Computes the identity of a distribution source.  Pure and
/// deterministic; never fails.
pub fn compute_identity(src: &IdentitySource) -> (r: u64)
    ensures
        r == spec_identity(*src),
{
    match src {
        IdentitySource::Archive(b) => hash_bytes(b.as_slice()),
        IdentitySource::Locator(s) => {
            let h = hash_bytes(s.as_str().as_bytes());
            (h ^ 0xff).wrapping_mul(0x100000001b3)
        },
    }
}

/// Renders an identity as the decimal text used in cache paths.
pub fn identity_label(id: u64) -> (r: String)
    ensures
        r@ == dec_digits(id as nat),
{
    u64_to_dec(id)
}

/// Law: the identity function is deterministic — byte-identical inputs
/// always yield identical fingerprints, however the computation is
/// invoked.  (Distinctness of fingerprints for distinct inputs is a
/// statistical property of the hash width and is exercised by tests
/// over the supported distribution locators.)
pub proof fn lemma_identity_deterministic(a: IdentitySource, b: IdentitySource)
    requires
        a == b,
    ensures
        spec_identity(a) == spec_identity(b),
{
}

} // verus!
