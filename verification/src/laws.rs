//! What holds of the protocol as a whole, over the same spec functions in
//! which the handlers' contracts are stated.

use vstd::prelude::*;
use crate::candidate::sentinel;
use crate::candidate::CandidateView;
use crate::candidate::SignatureResponse;
use crate::combine::commitment_holds;
use crate::combine::fits_slot;
use crate::combine::normalized;
use crate::combine::random_output;
use crate::contract::callback_result;
use crate::contract::callback_state;
use crate::contract::commit_state;
use crate::contract::reveal_result;
use crate::contract::reveal_state;
use crate::contract::signature_fault;
use crate::contract::signature_r;
use crate::contract::signature_s;
use crate::contract::CallbackError;
use crate::contract::RevealError;
use crate::digest::sha256_digest;
use crate::hexcode::hex_text;

verus! {

/// A commit, an answer of the signing service that is recorded with a
/// second seed other than the sentinel, and a reveal of the committed
/// value, which fits its slot: the reveal hands out the hexadecimal text of
/// the digest of both seeds, R, S and the normalized value, and nothing of
/// the requester is left in the store.
pub proof fn law_full_round(
    candidates: Map<Seq<char>, CandidateView>,
    account_id: Seq<char>,
    commit_hash: Seq<char>,
    value: Seq<char>,
    seed_1: Seq<u8>,
    seed_2: Seq<u8>,
    signature: SignatureResponse,
)
    requires
        commitment_holds(commit_hash, value),
        fits_slot(value),
        signature_fault(signature.big_r@, signature.s@).is_none(),
        seed_2 != sentinel(),
    ensures
        ({
            let answer = Ok::<SignatureResponse, near_sdk::PromiseError>(signature);
            let committed = commit_state(candidates, account_id, commit_hash, seed_1);
            let answered = callback_state(committed, answer, account_id, seed_2);
            &&& callback_result(committed, answer, account_id) == Ok::<bool, CallbackError>(true)
            &&& reveal_result(answered, account_id, value) == Ok::<Seq<char>, RevealError>(
                hex_text(
                    sha256_digest(
                        seed_1 + seed_2 + signature_r(signature.big_r@) + signature_s(signature.s@)
                            + normalized(value),
                    ),
                ),
            )
            &&& !reveal_state(answered, account_id, value).contains_key(account_id)
        }),
{
}

/// While a requester's candidate is pending, a reveal is turned down as
/// not ready, whatever the value, and the store stays as it is.
pub proof fn law_pending_not_ready(
    candidates: Map<Seq<char>, CandidateView>,
    account_id: Seq<char>,
    value: Seq<char>,
)
    requires
        candidates.contains_key(account_id),
        !candidates[account_id].is_ready(),
    ensures
        reveal_result(candidates, account_id, value) == Err::<Seq<char>, RevealError>(
            RevealError::NotReady,
        ),
        reveal_state(candidates, account_id, value) == candidates,
{
}

/// A candidate is pending right after its commit, and still pending after
/// a callback that brings a failure or is abandoned.
pub proof fn law_commit_opens_pending(
    candidates: Map<Seq<char>, CandidateView>,
    account_id: Seq<char>,
    commit_hash: Seq<char>,
    seed_1: Seq<u8>,
    seed_2: Seq<u8>,
    call_result: Result<SignatureResponse, near_sdk::PromiseError>,
)
    requires
        callback_result(
            commit_state(candidates, account_id, commit_hash, seed_1),
            call_result,
            account_id,
        ) != Ok::<bool, CallbackError>(true),
    ensures
        ({
            let committed = commit_state(candidates, account_id, commit_hash, seed_1);
            &&& committed.contains_key(account_id)
            &&& !committed[account_id].is_ready()
            &&& callback_state(committed, call_result, account_id, seed_2) == committed
        }),
{
}

/// A reveal of a value that is not the secret behind the commitment of a
/// ready candidate is turned down as a mismatch, and the store stays as it
/// is.
pub proof fn law_wrong_value_rejected(
    candidates: Map<Seq<char>, CandidateView>,
    account_id: Seq<char>,
    value: Seq<char>,
)
    requires
        candidates.contains_key(account_id),
        candidates[account_id].is_ready(),
        !commitment_holds(candidates[account_id].commit_hash, value),
    ensures
        reveal_result(candidates, account_id, value) == Err::<Seq<char>, RevealError>(
            RevealError::CommitmentMismatch,
        ),
        reveal_state(candidates, account_id, value) == candidates,
{
}

/// A reveal that succeeds consumes the candidate: the next reveal of the
/// same requester, with any value, finds none.
pub proof fn law_reveal_once(
    candidates: Map<Seq<char>, CandidateView>,
    account_id: Seq<char>,
    value: Seq<char>,
    next_value: Seq<char>,
)
    requires
        reveal_result(candidates, account_id, value).is_ok(),
    ensures
        reveal_result(reveal_state(candidates, account_id, value), account_id, next_value)
            == Err::<Seq<char>, RevealError>(RevealError::NotFound),
{
}

/// A callback never touches what the commit fixed: the commitment and the
/// first seed of the requester's candidate stay as they were.
pub proof fn law_commitment_is_kept(
    candidates: Map<Seq<char>, CandidateView>,
    call_result: Result<SignatureResponse, near_sdk::PromiseError>,
    account_id: Seq<char>,
    seed: Seq<u8>,
)
    requires
        candidates.contains_key(account_id),
    ensures
        ({
            let after = callback_state(candidates, call_result, account_id, seed);
            &&& after.contains_key(account_id)
            &&& after[account_id].commit_hash == candidates[account_id].commit_hash
            &&& after[account_id].random_seed_1 == candidates[account_id].random_seed_1
        }),
{
}

/// No handler, called for one requester, changes what the store holds for
/// another.
pub proof fn law_requesters_do_not_interfere(
    candidates: Map<Seq<char>, CandidateView>,
    account_id: Seq<char>,
    other: Seq<char>,
    commit_hash: Seq<char>,
    seed: Seq<u8>,
    call_result: Result<SignatureResponse, near_sdk::PromiseError>,
    value: Seq<char>,
)
    requires
        other != account_id,
    ensures
        ({
            let committed = commit_state(candidates, account_id, commit_hash, seed);
            let answered = callback_state(candidates, call_result, account_id, seed);
            let revealed = reveal_state(candidates, account_id, value);
            &&& committed.contains_key(other) == candidates.contains_key(other)
            &&& answered.contains_key(other) == candidates.contains_key(other)
            &&& revealed.contains_key(other) == candidates.contains_key(other)
            &&& candidates.contains_key(other) ==> committed[other] == candidates[other]
                && answered[other] == candidates[other] && revealed[other] == candidates[other]
        }),
{
}

/// The output depends on the five components alone: candidates that agree
/// on both seeds, R and S give the same output for the same value.
pub proof fn law_same_components_same_output(a: CandidateView, b: CandidateView, value: Seq<char>)
    requires
        a.random_seed_1 == b.random_seed_1,
        a.random_seed_2 == b.random_seed_2,
        a.r_bytes == b.r_bytes,
        a.s_bytes == b.s_bytes,
    ensures
        random_output(a, value) == random_output(b, value),
{
}

} // verus!
