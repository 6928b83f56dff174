//! The commitment test and the combination of the five entropy components
//! into the random output.

use vstd::prelude::*;
use vstd::string::is_ascii_spec_bytes;
use vstd::utf8::encode_utf8;
use vstd::utf8::is_ascii_chars;
use crate::candidate::CandidateRNG;
use crate::candidate::CandidateView;
use crate::digest::sha256;
use crate::digest::sha256_digest;
use crate::hexcode::encode;
use crate::hexcode::hex_text;
use crate::hexcode::is_hex_string;
use crate::hexcode::lemma_hex_text_shape;

verus! {

/// Whether the revealed value, padded with zero characters to 32
/// characters, takes exactly 32 bytes: it is ASCII and at most 32 long.
pub open spec fn fits_slot(value: Seq<char>) -> bool {
    is_ascii_chars(value) && value.len() <= 32
}

/// The revealed value as a 32-byte slot: its text, left-padded with the
/// character `0` to 32 characters, taken as bytes.
pub open spec fn normalized(value: Seq<char>) -> Seq<u8> {
    Seq::new(
        32,
        |i: int|
            if i < 32 - value.len() {
                48u8
            } else {
                value[i - (32 - value.len())] as u8
            },
    )
}

/// The bytes that are hashed into the output: both seeds, R, S and the
/// normalized value, in this order.
pub open spec fn preimage(c: CandidateView, slot: Seq<u8>) -> Seq<u8> {
    c.random_seed_1 + c.random_seed_2 + c.r_bytes + c.s_bytes + slot
}

/// The random output for a candidate and a revealed value.
pub open spec fn random_output(c: CandidateView, value: Seq<char>) -> Seq<char> {
    hex_text(sha256_digest(preimage(c, normalized(value))))
}

/// Whether a value is the secret behind a commitment: the hexadecimal text
/// of its SHA-256 digest is the commitment.
pub open spec fn commitment_holds(commit_hash: Seq<char>, value: Seq<char>) -> bool {
    hex_text(sha256_digest(encode_utf8(value))) == commit_hash
}

/// Pads the value into its 32-byte slot, or tells that it does not fit.
pub fn normalize(value: &str) -> (r: Option<[u8; 32]>)
    ensures
        r.is_some() == fits_slot(value@),
        r matches Some(slot) ==> slot@ == normalized(value@),
{
    if !value.is_ascii() {
        return None;
    }
    let bytes = value.as_bytes();
    proof {
        is_ascii_spec_bytes(value);
    }
    let n: usize = bytes.len();
    if n > 32 {
        return None;
    }
    let pad: usize = 32 - n;
    let mut slot: [u8; 32] = [48u8; 32];
    let mut i: usize = 0;
    while i < n
        invariant
            i <= n,
            n == bytes@.len(),
            n == value@.len(),
            pad == 32 - n,
            bytes@ == Seq::new(value@.len(), |k: int| value@[k] as u8),
            forall|j: int| 0 <= j < pad ==> slot@[j] == 48u8,
            forall|j: int| pad <= j < pad + i ==> slot@[j] == value@[j - pad] as u8,
        decreases n - i,
    {
        slot[pad + i] = bytes[i];
        i += 1;
    }
    assert(slot@ =~= normalized(value@));
    Some(slot)
}

fn append(buffer: &mut Vec<u8>, part: &[u8; 32])
    ensures
        final(buffer)@ == old(buffer)@ + part@,
{
    let ghost before = buffer@;
    let mut i: usize = 0;
    while i < 32
        invariant
            i <= 32,
            buffer@ == before + part@.subrange(0, i as int),
        decreases 32 - i,
    {
        buffer.push(part[i]);
        assert(buffer@ =~= before + part@.subrange(0, i + 1));
        i += 1;
    }
    assert(part@.subrange(0, 32) =~= part@);
}

/// Lays out the five components in the order in which they are hashed.
pub fn build_preimage(candidate: &CandidateRNG, slot: &[u8; 32]) -> (bytes: Vec<u8>)
    ensures
        bytes@ == preimage(candidate@, slot@),
{
    let mut bytes: Vec<u8> = Vec::new();
    assert(bytes@ =~= Seq::<u8>::empty());
    append(&mut bytes, &candidate.random_seed_1);
    assert(bytes@ =~= candidate@.random_seed_1);
    append(&mut bytes, &candidate.random_seed_2);
    append(&mut bytes, &candidate.r_bytes);
    append(&mut bytes, &candidate.s_bytes);
    append(&mut bytes, slot);
    bytes
}

/// Hashes the five components and writes the digest as hexadecimal text.
pub fn combine(candidate: &CandidateRNG, slot: &[u8; 32]) -> (output: String)
    ensures
        output@ == hex_text(sha256_digest(preimage(candidate@, slot@))),
        is_hex_string(output@, 64),
{
    let bytes = build_preimage(candidate, slot);
    let digest = sha256(bytes.as_slice());
    proof {
        lemma_hex_text_shape(digest@);
    }
    encode(digest.as_slice())
}

/// Whether a digest, written as hexadecimal text, is the commitment.
pub fn digest_matches(digest: &[u8], commit_hash: &String) -> (r: bool)
    ensures
        r == (hex_text(digest@) == commit_hash@),
{
    let text = encode(digest);
    text == *commit_hash
}

/// Whether `value` is the secret that `commit_hash` commits to.
pub fn check_commitment(commit_hash: &String, value: &str) -> (r: bool)
    ensures
        r == commitment_holds(commit_hash@, value@),
{
    let digest = sha256(value.as_bytes());
    digest_matches(digest.as_slice(), commit_hash)
}

} // verus!
