//! The protocol's state and its three handlers: commit, the signing
//! service's callback, and reveal.

use vstd::prelude::*;
use vstd::utf8::encode_utf8;
use crate::candidate::CandidateRNG;
use crate::candidate::CandidateView;
use crate::candidate::SignRequest;
use crate::candidate::SignatureResponse;
use crate::combine::check_commitment;
use crate::combine::combine;
use crate::combine::commitment_holds;
use crate::combine::fits_slot;
use crate::combine::normalize;
use crate::combine::random_output;
use crate::digest::entropy;
use crate::hexcode::decode;
use crate::hexcode::hex_bytes;
use crate::hexcode::is_hex_string;
use crate::hexcode::is_hex_text;
use crate::store::as_map;
use crate::store::holds;
use crate::store::keys_distinct;
use crate::store::lemma_entry;
use crate::store::lemma_push;
use crate::store::lemma_remove;
use crate::store::lemma_replace;
use crate::store::Entry;

verus! {

/// `near_sdk::PromiseError`, carried through as an opaque value: the
/// handlers only tell a failure from an answer.
#[verifier::external_type_specification]
#[verifier::external_body]
pub struct ExPromiseError(near_sdk::PromiseError);

/// Why a reveal was rejected.
#[derive(Clone, Copy, Debug, PartialEq, Eq)]
pub enum RevealError {
    /// The requester has no candidate.
    NotFound,
    /// The signing service has not answered yet.
    NotReady,
    /// The value is not the secret behind the commitment.
    CommitmentMismatch,
    /// The value, padded to 32 characters, does not take 32 bytes.
    ValueTooLong,
}

/// Why a callback had to be abandoned.
#[derive(Clone, Copy, Debug, PartialEq, Eq)]
pub enum CallbackError {
    /// The point R is not hexadecimal text.
    PointNotHex,
    /// The point R has fewer than 33 bytes.
    PointTooShort,
    /// The scalar S is not hexadecimal text.
    ScalarNotHex,
    /// The scalar S does not have 32 bytes.
    ScalarWrongLength,
    /// No candidate is waiting for this answer.
    CandidateMissing,
}

/// The 32 bytes of R: those after the leading format byte of the point.
pub open spec fn signature_r(big_r: Seq<char>) -> Seq<u8> {
    hex_bytes(encode_utf8(big_r)).subrange(1, 33)
}

/// The 32 bytes of S.
pub open spec fn signature_s(s: Seq<char>) -> Seq<u8> {
    hex_bytes(encode_utf8(s))
}

/// What is wrong with a signature's encoding, if anything: the point is
/// looked at first, then the scalar.
pub open spec fn signature_fault(big_r: Seq<char>, s: Seq<char>) -> Option<CallbackError> {
    if !is_hex_text(encode_utf8(big_r)) {
        Some(CallbackError::PointNotHex)
    } else if hex_bytes(encode_utf8(big_r)).len() < 33 {
        Some(CallbackError::PointTooShort)
    } else if !is_hex_text(encode_utf8(s)) {
        Some(CallbackError::ScalarNotHex)
    } else if hex_bytes(encode_utf8(s)).len() != 32 {
        Some(CallbackError::ScalarWrongLength)
    } else {
        None
    }
}

/// The store after a commit: the requester's candidate is a fresh pending
/// one, whatever stood there before.
pub open spec fn commit_state(
    candidates: Map<Seq<char>, CandidateView>,
    account_id: Seq<char>,
    commit_hash: Seq<char>,
    seed: Seq<u8>,
) -> Map<Seq<char>, CandidateView> {
    candidates.insert(account_id, CandidateView::pending(commit_hash, seed))
}

/// What a callback returns.
pub open spec fn callback_result(
    candidates: Map<Seq<char>, CandidateView>,
    call_result: Result<SignatureResponse, near_sdk::PromiseError>,
    account_id: Seq<char>,
) -> Result<bool, CallbackError> {
    match call_result {
        Err(_) => Ok(false),
        Ok(signature) => match signature_fault(signature.big_r@, signature.s@) {
            Some(fault) => Err(fault),
            None => if candidates.contains_key(account_id) {
                Ok(true)
            } else {
                Err(CallbackError::CandidateMissing)
            },
        },
    }
}

/// The store after a callback: only an answer that is recorded changes it.
pub open spec fn callback_state(
    candidates: Map<Seq<char>, CandidateView>,
    call_result: Result<SignatureResponse, near_sdk::PromiseError>,
    account_id: Seq<char>,
    seed: Seq<u8>,
) -> Map<Seq<char>, CandidateView> {
    match call_result {
        Ok(signature) => if callback_result(candidates, call_result, account_id) == Ok::<
            bool,
            CallbackError,
        >(true) {
            candidates.insert(
                account_id,
                candidates[account_id].completed(
                    seed,
                    signature_r(signature.big_r@),
                    signature_s(signature.s@),
                ),
            )
        } else {
            candidates
        },
        Err(_) => candidates,
    }
}

/// What a reveal returns: the checks are made in this order.
pub open spec fn reveal_result(
    candidates: Map<Seq<char>, CandidateView>,
    account_id: Seq<char>,
    value: Seq<char>,
) -> Result<Seq<char>, RevealError> {
    if !candidates.contains_key(account_id) {
        Err(RevealError::NotFound)
    } else if !candidates[account_id].is_ready() {
        Err(RevealError::NotReady)
    } else if !commitment_holds(candidates[account_id].commit_hash, value) {
        Err(RevealError::CommitmentMismatch)
    } else if !fits_slot(value) {
        Err(RevealError::ValueTooLong)
    } else {
        Ok(random_output(candidates[account_id], value))
    }
}

/// The store after a reveal: a reveal that succeeds consumes the candidate.
pub open spec fn reveal_state(
    candidates: Map<Seq<char>, CandidateView>,
    account_id: Seq<char>,
    value: Seq<char>,
) -> Map<Seq<char>, CandidateView> {
    if reveal_result(candidates, account_id, value).is_ok() {
        candidates.remove(account_id)
    } else {
        candidates
    }
}

/// Copies 32 bytes, starting at `from`, into an array.
pub fn to_fixed(bytes: &Vec<u8>, from: usize) -> (out: [u8; 32])
    requires
        from + 32 <= bytes@.len(),
    ensures
        out@ == bytes@.subrange(from as int, from + 32),
{
    let n: usize = bytes.len();
    let mut out: [u8; 32] = [0u8; 32];
    let mut i: usize = 0;
    while i < 32
        invariant
            i <= 32,
            n == bytes@.len(),
            from + 32 <= n,
            forall|j: int| 0 <= j < i ==> out@[j] == bytes@[from + j],
        decreases 32 - i,
    {
        out[i] = bytes[from + i];
        i += 1;
    }
    assert(out@ =~= bytes@.subrange(from as int, from + 32));
    out
}

/// Reads R and S out of the signing service's answer.
pub fn parse_signature(signature: &SignatureResponse) -> (r: Result<
    ([u8; 32], [u8; 32]),
    CallbackError,
>)
    ensures
        match r {
            Ok((r_bytes, s_bytes)) => signature_fault(signature.big_r@, signature.s@).is_none()
                && r_bytes@ == signature_r(signature.big_r@) && s_bytes@ == signature_s(
                signature.s@,
            ),
            Err(fault) => signature_fault(signature.big_r@, signature.s@) == Some(fault),
        },
{
    let point = match decode(signature.big_r.as_str().as_bytes()) {
        Ok(bytes) => bytes,
        Err(_) => {
            return Err(CallbackError::PointNotHex);
        },
    };
    if point.len() < 33 {
        return Err(CallbackError::PointTooShort);
    }
    let r_bytes = to_fixed(&point, 1);
    let scalar = match decode(signature.s.as_str().as_bytes()) {
        Ok(bytes) => bytes,
        Err(_) => {
            return Err(CallbackError::ScalarNotHex);
        },
    };
    if scalar.len() != 32 {
        return Err(CallbackError::ScalarWrongLength);
    }
    let s_bytes = to_fixed(&scalar, 0);
    assert(scalar@.subrange(0, 32) =~= scalar@);
    Ok((r_bytes, s_bytes))
}

/// The protocol's whole state: the owner and the candidates in flight.
pub struct Contract {
    pub owner_id: String,
    pub candidate_by_account_id: Vec<Entry>,
}

impl Contract {
    /// No requester has two candidates.
    pub open spec fn wf(&self) -> bool {
        keys_distinct(self.candidate_by_account_id@)
    }

    /// The candidates in flight, by requester.
    pub open spec fn candidates(&self) -> Map<Seq<char>, CandidateView> {
        as_map(self.candidate_by_account_id@)
    }

    /// A state with no candidate.
    pub fn init(owner_id: String) -> (contract: Contract)
        ensures
            contract.wf(),
            contract.owner_id == owner_id,
            contract.candidates() == Map::<Seq<char>, CandidateView>::empty(),
    {
        let contract = Contract { owner_id, candidate_by_account_id: Vec::new() };
        assert(contract.candidates() =~= Map::<Seq<char>, CandidateView>::empty());
        contract
    }

    fn position(&self, account_id: &String) -> (r: Option<usize>)
        requires
            self.wf(),
        ensures
            match r {
                Some(i) => i < self.candidate_by_account_id@.len()
                    && self.candidate_by_account_id@[i as int].account_id@ == account_id@
                    && self.candidates().contains_key(account_id@)
                    && self.candidates()[account_id@]
                    == self.candidate_by_account_id@[i as int].candidate@,
                None => !holds(self.candidate_by_account_id@, account_id@)
                    && !self.candidates().contains_key(account_id@),
            },
    {
        let mut i: usize = 0;
        while i < self.candidate_by_account_id.len()
            invariant
                self.wf(),
                i <= self.candidate_by_account_id@.len(),
                forall|j: int|
                    0 <= j < i ==> (#[trigger] self.candidate_by_account_id@[j]).account_id@
                        != account_id@,
            decreases self.candidate_by_account_id@.len() - i,
        {
            if self.candidate_by_account_id[i].account_id == *account_id {
                proof {
                    lemma_entry(self.candidate_by_account_id@, i as int);
                }
                return Some(i);
            }
            i += 1;
        }
        None
    }

    /// Stores a candidate for a requester, in place of any it has.
    pub fn put(&mut self, account_id: String, candidate: CandidateRNG)
        requires
            old(self).wf(),
        ensures
            final(self).wf(),
            final(self).owner_id == old(self).owner_id,
            final(self).candidates() == old(self).candidates().insert(account_id@, candidate@),
    {
        let found = self.position(&account_id);
        let entry = Entry { account_id, candidate };
        match found {
            Some(i) => {
                proof {
                    lemma_replace(self.candidate_by_account_id@, i as int, entry);
                }
                self.candidate_by_account_id[i] = entry;
            },
            None => {
                proof {
                    lemma_push(self.candidate_by_account_id@, entry);
                }
                self.candidate_by_account_id.push(entry);
            },
        }
    }

    /// A copy of a requester's candidate, if it has one.
    pub fn candidate(&self, account_id: &String) -> (r: Option<CandidateRNG>)
        requires
            self.wf(),
        ensures
            match r {
                Some(c) => self.candidates().contains_key(account_id@) && c@
                    == self.candidates()[account_id@],
                None => !self.candidates().contains_key(account_id@),
            },
    {
        match self.position(account_id) {
            Some(i) => Some(self.candidate_by_account_id[i].candidate.duplicate()),
            None => None,
        }
    }

    /// The commit handler, given the seed: opens a pending candidate for
    /// the requester and states the request for the signing service.
    ///
    /// A candidate that the requester already has is overwritten, pending
    /// or not. The answer to an earlier request that arrives afterwards is
    /// then recorded in the newer candidate: nothing ties an answer to the
    /// commit that asked for it.
    pub fn open_request(
        &mut self,
        account_id: String,
        commit_hash: String,
        seed: [u8; 32],
    ) -> (request: SignRequest)
        requires
            old(self).wf(),
        ensures
            final(self).wf(),
            final(self).owner_id == old(self).owner_id,
            final(self).candidates() == commit_state(
                old(self).candidates(),
                account_id@,
                commit_hash@,
                seed@,
            ),
            request.payload@ == seed@,
            request.path@ == account_id@,
            request.key_version == 0,
    {
        let path = account_id.clone();
        self.put(account_id, CandidateRNG::pending(commit_hash, seed));
        SignRequest { payload: seed, path, key_version: 0 }
    }

    /// The commit handler: samples the first seed from the host and opens
    /// the request with it. The seed is the request's payload.
    pub fn random(&mut self, account_id: String, commit_hash: String) -> (request: SignRequest)
        requires
            old(self).wf(),
        ensures
            final(self).wf(),
            final(self).owner_id == old(self).owner_id,
            final(self).candidates() == commit_state(
                old(self).candidates(),
                account_id@,
                commit_hash@,
                request.payload@,
            ),
            request.path@ == account_id@,
            request.key_version == 0,
    {
        let seed = entropy();
        self.open_request(account_id, commit_hash, seed)
    }

    /// The callback's checks, in their order, before anything is sampled
    /// or stored: on an answer that can be recorded, the candidate with R
    /// and S filled in.
    fn examine(
        &self,
        call_result: &Result<SignatureResponse, near_sdk::PromiseError>,
        account_id: &String,
    ) -> (r: Result<Option<CandidateRNG>, CallbackError>)
        requires
            self.wf(),
        ensures
            match r {
                Ok(Some(c)) => call_result matches Ok(signature) && callback_result(
                    self.candidates(),
                    *call_result,
                    account_id@,
                ) == Ok::<bool, CallbackError>(true) && c@ == self.candidates()[account_id@].completed(
                    self.candidates()[account_id@].random_seed_2,
                    signature_r(signature.big_r@),
                    signature_s(signature.s@),
                ),
                Ok(None) => callback_result(self.candidates(), *call_result, account_id@) == Ok::<
                    bool,
                    CallbackError,
                >(false),
                Err(fault) => callback_result(self.candidates(), *call_result, account_id@)
                    == Err::<bool, CallbackError>(fault),
            },
    {
        let signature = match call_result {
            Ok(signature) => signature,
            Err(_) => {
                return Ok(None);
            },
        };
        let (r_bytes, s_bytes) = match parse_signature(signature) {
            Ok(parts) => parts,
            Err(fault) => {
                return Err(fault);
            },
        };
        let waiting = match self.candidate(account_id) {
            Some(c) => c,
            None => {
                return Err(CallbackError::CandidateMissing);
            },
        };
        Ok(
            Some(
                CandidateRNG {
                    commit_hash: waiting.commit_hash,
                    random_seed_1: waiting.random_seed_1,
                    random_seed_2: waiting.random_seed_2,
                    r_bytes,
                    s_bytes,
                },
            ),
        )
    }

    /// The callback handler, given the seed: records the signing service's
    /// answer in the requester's candidate. A failure of the service is no
    /// error: the candidate stays pending and the result is `false`. An
    /// answer that cannot be read, or that finds no candidate, is an error
    /// and changes nothing.
    pub fn record_signature(
        &mut self,
        call_result: Result<SignatureResponse, near_sdk::PromiseError>,
        account_id: &String,
        seed: [u8; 32],
    ) -> (r: Result<bool, CallbackError>)
        requires
            old(self).wf(),
        ensures
            final(self).wf(),
            final(self).owner_id == old(self).owner_id,
            r == callback_result(old(self).candidates(), call_result, account_id@),
            final(self).candidates() == callback_state(
                old(self).candidates(),
                call_result,
                account_id@,
                seed@,
            ),
    {
        match self.examine(&call_result, account_id) {
            Ok(Some(mut completed)) => {
                completed.random_seed_2 = seed;
                self.put(account_id.clone(), completed);
                Ok(true)
            },
            Ok(None) => Ok(false),
            Err(fault) => Err(fault),
        }
    }

    /// The callback handler: once the answer has passed every check,
    /// samples the second seed from the host and records the answer with
    /// it.
    pub fn sign_callback(
        &mut self,
        call_result: Result<SignatureResponse, near_sdk::PromiseError>,
        account_id: &String,
    ) -> (r: Result<bool, CallbackError>)
        requires
            old(self).wf(),
        ensures
            final(self).wf(),
            final(self).owner_id == old(self).owner_id,
            r == callback_result(old(self).candidates(), call_result, account_id@),
            r == Ok::<bool, CallbackError>(true) ==> final(self).candidates() == callback_state(
                old(self).candidates(),
                call_result,
                account_id@,
                final(self).candidates()[account_id@].random_seed_2,
            ),
            r != Ok::<bool, CallbackError>(true) ==> final(self).candidates() == old(
                self,
            ).candidates(),
    {
        match self.examine(&call_result, account_id) {
            Ok(Some(mut completed)) => {
                completed.random_seed_2 = entropy();
                self.put(account_id.clone(), completed);
                Ok(true)
            },
            Ok(None) => Ok(false),
            Err(fault) => Err(fault),
        }
    }

    /// The reveal handler: checks the value against the commitment, hands
    /// out the random output and consumes the candidate. A reveal that is
    /// turned down changes nothing.
    pub fn reveal_secret(&mut self, account_id: &String, commit_value: &str) -> (r: Result<
        String,
        RevealError,
    >)
        requires
            old(self).wf(),
        ensures
            final(self).wf(),
            final(self).owner_id == old(self).owner_id,
            match r {
                Ok(output) => reveal_result(old(self).candidates(), account_id@, commit_value@)
                    == Ok::<Seq<char>, RevealError>(output@) && is_hex_string(output@, 64),
                Err(e) => reveal_result(old(self).candidates(), account_id@, commit_value@)
                    == Err::<Seq<char>, RevealError>(e),
            },
            final(self).candidates() == reveal_state(
                old(self).candidates(),
                account_id@,
                commit_value@,
            ),
    {
        let i = match self.position(account_id) {
            Some(i) => i,
            None => {
                return Err(RevealError::NotFound);
            },
        };
        if !self.candidate_by_account_id[i].candidate.is_ready() {
            return Err(RevealError::NotReady);
        }
        if !check_commitment(&self.candidate_by_account_id[i].candidate.commit_hash, commit_value) {
            return Err(RevealError::CommitmentMismatch);
        }
        let slot = match normalize(commit_value) {
            Some(slot) => slot,
            None => {
                return Err(RevealError::ValueTooLong);
            },
        };
        let output = combine(&self.candidate_by_account_id[i].candidate, &slot);
        proof {
            lemma_remove(self.candidate_by_account_id@, i as int);
        }
        self.candidate_by_account_id.remove(i);
        Ok(output)
    }
}

} // verus!
