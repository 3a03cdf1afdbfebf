//! The digest that a nonce is judged by: BLAKE2b over the nonce's eight
//! big-endian bytes followed by the fingerprint.

use vstd::prelude::*;
use crate::difficulty::{lemma_lower_target_still_met, meets_target};

verus! {

/// The eight bytes of `n`, most significant first.
pub open spec fn be_bytes(n: u64) -> Seq<u8> {
    seq![
        (n >> 56u64) as u8,
        (n >> 48u64) as u8,
        (n >> 40u64) as u8,
        (n >> 32u64) as u8,
        (n >> 24u64) as u8,
        (n >> 16u64) as u8,
        (n >> 8u64) as u8,
        n as u8,
    ]
}

/// What is hashed for `nonce` against `fingerprint`.
pub open spec fn preimage(nonce: u64, fingerprint: Seq<u8>) -> Seq<u8> {
    be_bytes(nonce) + fingerprint
}

/// The BLAKE2b digest (default parameters, 64 bytes) of `input`.
pub uninterp spec fn blake2b_of(input: Seq<u8>) -> Seq<u8>;

/// Whether `nonce` meets difficulty `target` against `fingerprint`.
pub open spec fn nonce_meets(fingerprint: Seq<u8>, nonce: u64, target: nat) -> bool {
    meets_target(blake2b_of(preimage(nonce, fingerprint)), target)
}

/// Judging a nonce reads nothing but the fingerprint, the nonce and the
/// target: two judgements of the same three agree.
pub proof fn lemma_check_deterministic(
    fingerprint: Seq<u8>,
    nonce: u64,
    target: nat,
    first: bool,
    second: bool,
)
    requires
        first == nonce_meets(fingerprint, nonce, target),
        second == nonce_meets(fingerprint, nonce, target),
    ensures
        first == second,
{
}

/// A nonce that meets a target against a fingerprint meets every lower
/// target against it too.
pub proof fn lemma_nonce_meets_lower(fingerprint: Seq<u8>, nonce: u64, target: nat, lower: nat)
    requires
        nonce_meets(fingerprint, nonce, target),
        lower < target,
    ensures
        nonce_meets(fingerprint, nonce, lower),
{
    lemma_lower_target_still_met(blake2b_of(preimage(nonce, fingerprint)), target, lower);
}

/// Relies on blake2b_simd::blake2b: the BLAKE2b digest of `input` with
/// default parameters, which depends on the input bytes alone and is
/// `OUTBYTES` (64) bytes long, as `Hash::as_bytes` hands it out.
#[verifier::external_body]
fn blake2b_digest(input: &[u8]) -> (r: Vec<u8>)
    ensures
        r@ == blake2b_of(input@),
        r@.len() == 64,
{
    blake2b_simd::blake2b(input).as_bytes().to_vec()
}

/// The bytes hashed for `nonce` against `fingerprint`.
pub fn build_preimage(nonce: u64, fingerprint: &[u8]) -> (r: Vec<u8>)
    ensures
        r@ == preimage(nonce, fingerprint@),
{
    let mut r: Vec<u8> = Vec::new();
    r.push((nonce >> 56u64) as u8);
    r.push((nonce >> 48u64) as u8);
    r.push((nonce >> 40u64) as u8);
    r.push((nonce >> 32u64) as u8);
    r.push((nonce >> 24u64) as u8);
    r.push((nonce >> 16u64) as u8);
    r.push((nonce >> 8u64) as u8);
    r.push(nonce as u8);
    assert(r@ =~= be_bytes(nonce));
    let mut i: usize = 0;
    while i < fingerprint.len()
        invariant
            i <= fingerprint@.len(),
            r@ =~= be_bytes(nonce) + fingerprint@.subrange(0, i as int),
        decreases fingerprint@.len() - i,
    {
        r.push(fingerprint[i]);
        i = i + 1;
    }
    assert(fingerprint@.subrange(0, i as int) =~= fingerprint@);
    r
}

/// The digest that `nonce` is judged by against `fingerprint`.
pub fn nonce_digest(nonce: u64, fingerprint: &[u8]) -> (r: Vec<u8>)
    ensures
        r@ == blake2b_of(preimage(nonce, fingerprint@)),
        r@.len() == 64,
{
    let bytes = build_preimage(nonce, fingerprint);
    blake2b_digest(bytes.as_slice())
}

} // verus!
