//! The per-requester record and the values exchanged with the signing
//! service.

use vstd::prelude::*;

verus! {

/// Thirty-two zero bytes: the value of a slot that has not been filled.
pub open spec fn sentinel() -> Seq<u8> {
    Seq::new(32, |i: int| 0u8)
}

/// Tells whether a 32-byte slot still holds the all-zero sentinel.
pub fn is_sentinel(slot: &[u8; 32]) -> (r: bool)
    ensures
        r == (slot@ == sentinel()),
{
    let mut i: usize = 0;
    while i < 32
        invariant
            i <= 32,
            forall|j: int| 0 <= j < i ==> slot@[j] == 0u8,
        decreases 32 - i,
    {
        if slot[i] != 0 {
            assert(sentinel()[i as int] == 0u8);
            return false;
        }
        i += 1;
    }
    assert(slot@ =~= sentinel());
    true
}

/// What a candidate is, as plain values.
pub struct CandidateView {
    pub commit_hash: Seq<char>,
    pub random_seed_1: Seq<u8>,
    pub random_seed_2: Seq<u8>,
    pub r_bytes: Seq<u8>,
    pub s_bytes: Seq<u8>,
}

impl CandidateView {
    /// A candidate is ready once its second seed is no longer the sentinel.
    pub open spec fn is_ready(self) -> bool {
        self.random_seed_2 != sentinel()
    }

    /// The candidate that a commit opens.
    pub open spec fn pending(commit_hash: Seq<char>, seed: Seq<u8>) -> CandidateView {
        CandidateView {
            commit_hash,
            random_seed_1: seed,
            random_seed_2: sentinel(),
            r_bytes: sentinel(),
            s_bytes: sentinel(),
        }
    }

    /// The candidate after the signing service has answered.
    pub open spec fn completed(self, seed: Seq<u8>, r: Seq<u8>, s: Seq<u8>) -> CandidateView {
        CandidateView {
            commit_hash: self.commit_hash,
            random_seed_1: self.random_seed_1,
            random_seed_2: seed,
            r_bytes: r,
            s_bytes: s,
        }
    }
}

/// One requester's in-flight request.
#[derive(Clone, Debug)]
pub struct CandidateRNG {
    pub commit_hash: String,
    pub random_seed_1: [u8; 32],
    pub random_seed_2: [u8; 32],
    pub r_bytes: [u8; 32],
    pub s_bytes: [u8; 32],
}

impl View for CandidateRNG {
    type V = CandidateView;

    open spec fn view(&self) -> CandidateView {
        CandidateView {
            commit_hash: self.commit_hash@,
            random_seed_1: self.random_seed_1@,
            random_seed_2: self.random_seed_2@,
            r_bytes: self.r_bytes@,
            s_bytes: self.s_bytes@,
        }
    }
}

impl CandidateRNG {
    /// A pending candidate: only the commitment and the first seed are set.
    pub fn pending(commit_hash: String, seed: [u8; 32]) -> (c: CandidateRNG)
        ensures
            c@ == CandidateView::pending(commit_hash@, seed@),
            !c@.is_ready(),
    {
        let zero: [u8; 32] = [0u8; 32];
        assert(zero@ =~= sentinel());
        CandidateRNG {
            commit_hash,
            random_seed_1: seed,
            random_seed_2: zero,
            r_bytes: zero,
            s_bytes: zero,
        }
    }

    /// Whether the signing service's answer has been recorded.
    pub fn is_ready(&self) -> (r: bool)
        ensures
            r == self@.is_ready(),
    {
        !is_sentinel(&self.random_seed_2)
    }

    /// A copy of this candidate.
    pub fn duplicate(&self) -> (c: CandidateRNG)
        ensures
            c@ == self@,
    {
        CandidateRNG {
            commit_hash: self.commit_hash.clone(),
            random_seed_1: self.random_seed_1,
            random_seed_2: self.random_seed_2,
            r_bytes: self.r_bytes,
            s_bytes: self.s_bytes,
        }
    }
}

/// The request handed to the signing service.
#[derive(Debug)]
pub struct SignRequest {
    pub payload: [u8; 32],
    pub path: String,
    pub key_version: u32,
}

/// The signing service's answer: the point R and the scalar S, both as
/// hexadecimal text.
#[derive(Clone, Debug)]
pub struct SignatureResponse {
    pub big_r: String,
    pub s: String,
    pub recovery_id: u8,
}

} // verus!
