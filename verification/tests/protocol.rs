use near_sdk::PromiseError;
use verifiable_rng::candidate::is_sentinel;
use verifiable_rng::candidate::CandidateRNG;
use verifiable_rng::candidate::SignatureResponse;
use verifiable_rng::combine::build_preimage;
use verifiable_rng::combine::check_commitment;
use verifiable_rng::combine::combine;
use verifiable_rng::combine::digest_matches;
use verifiable_rng::combine::normalize;
use verifiable_rng::contract::parse_signature;
use verifiable_rng::contract::to_fixed;
use verifiable_rng::contract::CallbackError;
use verifiable_rng::contract::Contract;
use verifiable_rng::contract::RevealError;

const HASH_ABC: &str = "ba7816bf8f01cfea414140de5dae2223b00361a396177a9cb410ff61f20015ad";
const HASH_ABCD: &str = "88d4266fd4e6338d13b845fcf289579d209c897823b9217da3e161936f031589";
const OUT_ABC: &str = "0eb5c8f72827d3b32ea8fa29159c7e7b59b140be2444ba9e106f9c54bd0bb318";

fn alice() -> String {
    "alice.near".to_string()
}

fn bob() -> String {
    "bob.near".to_string()
}

fn point_aa() -> String {
    format!("02{}", "aa".repeat(32))
}

fn scalar_bb() -> String {
    "bb".repeat(32)
}

fn signature(big_r: &str, s: &str) -> SignatureResponse {
    SignatureResponse { big_r: big_r.to_string(), s: s.to_string(), recovery_id: 0 }
}

fn answer(big_r: &str, s: &str) -> Result<SignatureResponse, PromiseError> {
    Ok(signature(big_r, s))
}

fn ready_contract(who: &String, commit_hash: &str) -> Contract {
    let mut contract = Contract::init("owner.near".to_string());
    contract.open_request(who.clone(), commit_hash.to_string(), [1u8; 32]);
    let r = contract.record_signature(answer(&point_aa(), &scalar_bb()), who, [2u8; 32]);
    assert_eq!(r, Ok(true));
    contract
}

fn ready_candidate() -> CandidateRNG {
    CandidateRNG {
        commit_hash: HASH_ABC.to_string(),
        random_seed_1: [1u8; 32],
        random_seed_2: [2u8; 32],
        r_bytes: [0xaa; 32],
        s_bytes: [0xbb; 32],
    }
}

fn slot_abc() -> [u8; 32] {
    let mut slot = [b'0'; 32];
    slot[29] = b'a';
    slot[30] = b'b';
    slot[31] = b'c';
    slot
}

#[test]
fn commit_callback_reveal_scenario() {
    let mut contract = Contract::init("owner.near".to_string());
    let request = contract.open_request(alice(), HASH_ABC.to_string(), [1u8; 32]);
    assert_eq!(request.payload, [1u8; 32]);
    assert_eq!(request.path, "alice.near");
    assert_eq!(request.key_version, 0);
    let recorded = contract.record_signature(answer(&point_aa(), &scalar_bb()), &alice(), [2u8; 32]);
    assert_eq!(recorded, Ok(true));
    assert_eq!(contract.reveal_secret(&alice(), "abcd"), Err(RevealError::CommitmentMismatch));
    assert_eq!(contract.reveal_secret(&alice(), "abc"), Ok(OUT_ABC.to_string()));
    assert_eq!(contract.reveal_secret(&alice(), "abc"), Err(RevealError::NotFound));
    assert_eq!(contract.reveal_secret(&alice(), "abcd"), Err(RevealError::NotFound));
}

#[test]
fn init_starts_empty() {
    let contract = Contract::init("owner.near".to_string());
    assert_eq!(contract.owner_id, "owner.near");
    assert!(contract.candidate(&alice()).is_none());
    assert!(contract.candidate_by_account_id.is_empty());
}

#[test]
fn commit_opens_a_pending_candidate() {
    let mut contract = Contract::init("owner.near".to_string());
    contract.open_request(alice(), HASH_ABC.to_string(), [7u8; 32]);
    let c = contract.candidate(&alice()).unwrap();
    assert_eq!(c.commit_hash, HASH_ABC);
    assert_eq!(c.random_seed_1, [7u8; 32]);
    assert_eq!(c.random_seed_2, [0u8; 32]);
    assert_eq!(c.r_bytes, [0u8; 32]);
    assert_eq!(c.s_bytes, [0u8; 32]);
    assert!(!c.is_ready());
}

#[test]
fn reveal_before_callback_is_not_ready() {
    let mut contract = Contract::init("owner.near".to_string());
    contract.open_request(alice(), HASH_ABC.to_string(), [1u8; 32]);
    assert_eq!(contract.reveal_secret(&alice(), "abc"), Err(RevealError::NotReady));
    assert_eq!(contract.reveal_secret(&alice(), "abcd"), Err(RevealError::NotReady));
    assert!(contract.candidate(&alice()).is_some());
}

#[test]
fn reveal_without_commit_is_not_found() {
    let mut contract = Contract::init("owner.near".to_string());
    assert_eq!(contract.reveal_secret(&alice(), "abc"), Err(RevealError::NotFound));
    contract.open_request(bob(), HASH_ABC.to_string(), [1u8; 32]);
    assert_eq!(contract.reveal_secret(&alice(), "abc"), Err(RevealError::NotFound));
}

#[test]
fn mismatch_leaves_the_candidate() {
    let mut contract = ready_contract(&alice(), HASH_ABC);
    assert_eq!(contract.reveal_secret(&alice(), "abcd"), Err(RevealError::CommitmentMismatch));
    assert_eq!(contract.reveal_secret(&alice(), ""), Err(RevealError::CommitmentMismatch));
    let c = contract.candidate(&alice()).unwrap();
    assert!(c.is_ready());
    assert_eq!(contract.reveal_secret(&alice(), "abc"), Ok(OUT_ABC.to_string()));
}

#[test]
fn upper_case_commitment_does_not_match() {
    let mut contract = ready_contract(&alice(), &HASH_ABC.to_uppercase());
    assert_eq!(contract.reveal_secret(&alice(), "abc"), Err(RevealError::CommitmentMismatch));
}

#[test]
fn malformed_commitment_surfaces_at_reveal() {
    let mut contract = ready_contract(&alice(), "not a digest");
    assert_eq!(contract.reveal_secret(&alice(), "abc"), Err(RevealError::CommitmentMismatch));
}

#[test]
fn output_is_sixty_four_hex_digits() {
    let mut contract = ready_contract(&alice(), HASH_ABCD);
    let out = contract.reveal_secret(&alice(), "abcd").unwrap();
    assert_eq!(out.len(), 64);
    assert!(out.chars().all(|c| c.is_ascii_digit() || ('a'..='f').contains(&c)));
}

#[test]
fn value_of_full_width_is_taken_as_it_is() {
    let value = "0123456789abcdef0123456789abcdef";
    let hash = "3eb1bd439947eb762998e566ccc2e099c791118b2f40579cc4f7da2b5061b7f9";
    let mut contract = ready_contract(&alice(), hash);
    assert_eq!(
        contract.reveal_secret(&alice(), value),
        Ok("89ca0a213d574c0d1da3ece8dab7ae7bad5bdf3d0ec3afc53a7c42ee21ba6b6d".to_string())
    );
}

#[test]
fn empty_value_is_all_padding() {
    let hash = "e3b0c44298fc1c149afbf4c8996fb92427ae41e4649b934ca495991b7852b855";
    let mut contract = ready_contract(&alice(), hash);
    assert_eq!(
        contract.reveal_secret(&alice(), ""),
        Ok("3fabf47b6af9c9e13bc855a87f548e344d00f58cd38c461a6231728825d130a2".to_string())
    );
}

#[test]
fn value_that_does_not_fit_is_rejected() {
    let value = "a".repeat(33);
    let hash = "852785c805c77e71a22340a54e9d95933ed49121e7d2bf3c2d358854bc1359ea";
    let mut contract = ready_contract(&alice(), hash);
    assert_eq!(contract.reveal_secret(&alice(), &value), Err(RevealError::ValueTooLong));
    assert!(contract.candidate(&alice()).is_some());
    let accented = "4a99557e4033c3539de2eb65472017cad5f9557f7a0625a09f1c3f6e2ba69c4c";
    let mut other = ready_contract(&bob(), accented);
    assert_eq!(other.reveal_secret(&bob(), "\u{e9}"), Err(RevealError::ValueTooLong));
    assert!(other.candidate(&bob()).is_some());
}

#[test]
fn failed_signing_leaves_the_candidate_pending() {
    let mut contract = Contract::init("owner.near".to_string());
    contract.open_request(alice(), HASH_ABC.to_string(), [1u8; 32]);
    assert_eq!(contract.record_signature(Err(PromiseError::Failed), &alice(), [2u8; 32]), Ok(false));
    assert_eq!(contract.sign_callback(Err(PromiseError::Failed), &alice()), Ok(false));
    let c = contract.candidate(&alice()).unwrap();
    assert_eq!(c.random_seed_2, [0u8; 32]);
    assert_eq!(contract.reveal_secret(&alice(), "abc"), Err(RevealError::NotReady));
}

#[test]
fn failed_signing_without_candidate_is_no_error() {
    let mut contract = Contract::init("owner.near".to_string());
    assert_eq!(contract.record_signature(Err(PromiseError::Failed), &alice(), [2u8; 32]), Ok(false));
}

#[test]
fn callback_without_candidate_is_fatal() {
    let mut contract = Contract::init("owner.near".to_string());
    contract.open_request(bob(), HASH_ABC.to_string(), [1u8; 32]);
    assert_eq!(
        contract.record_signature(answer(&point_aa(), &scalar_bb()), &alice(), [2u8; 32]),
        Err(CallbackError::CandidateMissing)
    );
    assert!(contract.candidate(&alice()).is_none());
    assert!(!contract.candidate(&bob()).unwrap().is_ready());
}

#[test]
fn callback_records_the_signature() {
    let mut contract = Contract::init("owner.near".to_string());
    contract.open_request(alice(), HASH_ABC.to_string(), [1u8; 32]);
    let big_r = "030102030405060708090a0b0c0d0e0f101112131415161718191a1b1c1d1e1f20ffee";
    assert_eq!(contract.record_signature(answer(big_r, &scalar_bb()), &alice(), [2u8; 32]), Ok(true));
    let c = contract.candidate(&alice()).unwrap();
    let mut expected_r = [0u8; 32];
    for (i, b) in expected_r.iter_mut().enumerate() {
        *b = (i + 1) as u8;
    }
    assert_eq!(c.commit_hash, HASH_ABC);
    assert_eq!(c.random_seed_1, [1u8; 32]);
    assert_eq!(c.random_seed_2, [2u8; 32]);
    assert_eq!(c.r_bytes, expected_r);
    assert_eq!(c.s_bytes, [0xbb; 32]);
    assert!(c.is_ready());
    assert_eq!(
        contract.reveal_secret(&alice(), "abc"),
        Ok("ba7e5189c1a951b54e26a586c46d5ac659abfd1ff22680b63febfb93d29457fb".to_string())
    );
}

#[test]
fn malformed_signature_aborts_without_change() {
    let mut contract = Contract::init("owner.near".to_string());
    contract.open_request(alice(), HASH_ABC.to_string(), [1u8; 32]);
    let cases: Vec<(String, String, CallbackError)> = vec![
        ("zz".to_string(), scalar_bb(), CallbackError::PointNotHex),
        ("02a".to_string(), scalar_bb(), CallbackError::PointNotHex),
        ("02\u{e9}".to_string(), scalar_bb(), CallbackError::PointNotHex),
        ("aa".repeat(32), scalar_bb(), CallbackError::PointTooShort),
        ("".to_string(), scalar_bb(), CallbackError::PointTooShort),
        (point_aa(), "0g".repeat(32), CallbackError::ScalarNotHex),
        (point_aa(), "bb".repeat(31), CallbackError::ScalarWrongLength),
        (point_aa(), "bb".repeat(33), CallbackError::ScalarWrongLength),
        ("zz".to_string(), "zz".to_string(), CallbackError::PointNotHex),
    ];
    for (big_r, s, fault) in cases {
        assert_eq!(parse_signature(&signature(&big_r, &s)).unwrap_err(), fault);
        assert_eq!(contract.record_signature(answer(&big_r, &s), &alice(), [2u8; 32]), Err(fault));
        let c = contract.candidate(&alice()).unwrap();
        assert_eq!(c.random_seed_2, [0u8; 32]);
        assert_eq!(c.r_bytes, [0u8; 32]);
    }
}

#[test]
fn encoding_faults_come_before_the_lookup() {
    let mut contract = Contract::init("owner.near".to_string());
    assert_eq!(
        contract.record_signature(answer("zz", &scalar_bb()), &alice(), [2u8; 32]),
        Err(CallbackError::PointNotHex)
    );
}

#[test]
fn signature_digits_of_either_case_are_read() {
    let big_r = format!("02{}", "Ab".repeat(32));
    let s = "C0".repeat(32);
    let (r_bytes, s_bytes) = parse_signature(&signature(&big_r, &s)).unwrap();
    assert_eq!(r_bytes, [0xab; 32]);
    assert_eq!(s_bytes, [0xc0; 32]);
}

#[test]
fn zero_second_seed_stays_pending() {
    let mut contract = Contract::init("owner.near".to_string());
    contract.open_request(alice(), HASH_ABC.to_string(), [1u8; 32]);
    assert_eq!(
        contract.record_signature(answer(&point_aa(), &scalar_bb()), &alice(), [0u8; 32]),
        Ok(true)
    );
    assert_eq!(contract.reveal_secret(&alice(), "abc"), Err(RevealError::NotReady));
}

#[test]
fn second_commit_overwrites_the_first() {
    let mut contract = ready_contract(&alice(), HASH_ABC);
    contract.open_request(alice(), HASH_ABCD.to_string(), [9u8; 32]);
    assert_eq!(contract.candidate_by_account_id.len(), 1);
    let c = contract.candidate(&alice()).unwrap();
    assert_eq!(c.commit_hash, HASH_ABCD);
    assert_eq!(c.random_seed_1, [9u8; 32]);
    assert!(!c.is_ready());
    assert_eq!(contract.reveal_secret(&alice(), "abcd"), Err(RevealError::NotReady));
}

#[test]
fn requesters_do_not_interfere() {
    let mut contract = ready_contract(&alice(), HASH_ABC);
    contract.open_request(bob(), HASH_ABCD.to_string(), [5u8; 32]);
    assert_eq!(contract.reveal_secret(&bob(), "abcd"), Err(RevealError::NotReady));
    assert_eq!(contract.reveal_secret(&alice(), "abc"), Ok(OUT_ABC.to_string()));
    assert!(contract.candidate(&alice()).is_none());
    let c = contract.candidate(&bob()).unwrap();
    assert_eq!(c.commit_hash, HASH_ABCD);
    assert_eq!(c.random_seed_1, [5u8; 32]);
}

#[test]
fn put_stores_and_replaces() {
    let mut contract = Contract::init("owner.near".to_string());
    contract.put(alice(), ready_candidate());
    contract.put(bob(), CandidateRNG::pending(HASH_ABCD.to_string(), [3u8; 32]));
    contract.put(alice(), CandidateRNG::pending(HASH_ABCD.to_string(), [4u8; 32]));
    assert_eq!(contract.candidate_by_account_id.len(), 2);
    assert_eq!(contract.candidate(&alice()).unwrap().random_seed_1, [4u8; 32]);
    assert_eq!(contract.candidate(&bob()).unwrap().random_seed_1, [3u8; 32]);
}

#[test]
fn normalize_pads_on_the_left() {
    assert_eq!(normalize("abc"), Some(slot_abc()));
    assert_eq!(normalize(""), Some([b'0'; 32]));
    assert_eq!(normalize("7"), {
        let mut slot = [b'0'; 32];
        slot[31] = b'7';
        Some(slot)
    });
    let full = "0123456789abcdef0123456789abcdef";
    assert_eq!(normalize(full).unwrap().to_vec(), full.as_bytes().to_vec());
    assert_eq!(normalize(&"a".repeat(33)), None);
    assert_eq!(normalize("\u{e9}"), None);
}

#[test]
fn preimage_is_the_five_components_in_order() {
    let bytes = build_preimage(&ready_candidate(), &slot_abc());
    assert_eq!(bytes.len(), 160);
    assert_eq!(&bytes[0..32], &[1u8; 32]);
    assert_eq!(&bytes[32..64], &[2u8; 32]);
    assert_eq!(&bytes[64..96], &[0xaa; 32]);
    assert_eq!(&bytes[96..128], &[0xbb; 32]);
    assert_eq!(&bytes[128..160], &slot_abc());
}

#[test]
fn combine_gives_the_known_digest() {
    assert_eq!(combine(&ready_candidate(), &slot_abc()), OUT_ABC);
    let mut other = ready_candidate();
    other.random_seed_2 = [3u8; 32];
    assert_eq!(
        combine(&other, &slot_abc()),
        "6eec871ee1cc1658248e4b0857a444db160f3260623b27603d6fdaff0a2d4f3a"
    );
}

#[test]
fn combine_is_deterministic() {
    let a = combine(&ready_candidate(), &slot_abc());
    let b = combine(&ready_candidate().clone(), &slot_abc());
    assert_eq!(a, b);
    let mut renamed = ready_candidate();
    renamed.commit_hash = HASH_ABCD.to_string();
    assert_eq!(combine(&renamed, &slot_abc()), a);
}

#[test]
fn single_bit_flips_change_the_output() {
    let base = combine(&ready_candidate(), &slot_abc());
    let mut seen = vec![base];
    for component in 0..5usize {
        for byte in [0usize, 13, 31] {
            for bit in [0u8, 3, 7] {
                let mut c = ready_candidate();
                let mut slot = slot_abc();
                match component {
                    0 => c.random_seed_1[byte] ^= 1 << bit,
                    1 => c.random_seed_2[byte] ^= 1 << bit,
                    2 => c.r_bytes[byte] ^= 1 << bit,
                    3 => c.s_bytes[byte] ^= 1 << bit,
                    _ => slot[byte] ^= 1 << bit,
                }
                let out = combine(&c, &slot);
                assert_eq!(out.len(), 64);
                assert!(!seen.contains(&out));
                seen.push(out);
            }
        }
    }
    assert_eq!(seen.len(), 46);
}

#[test]
fn commitment_is_the_hex_digest_of_the_value() {
    assert!(check_commitment(&HASH_ABC.to_string(), "abc"));
    assert!(!check_commitment(&HASH_ABC.to_string(), "abcd"));
    assert!(check_commitment(&HASH_ABCD.to_string(), "abcd"));
    assert!(!check_commitment(&"abc".to_string(), "abc"));
}

#[test]
fn digest_matches_compares_lower_case_text() {
    assert!(digest_matches(&[0x00, 0x0f, 0xa5, 0xff], &"000fa5ff".to_string()));
    assert!(!digest_matches(&[0x00, 0x0f, 0xa5, 0xff], &"000FA5FF".to_string()));
    assert!(!digest_matches(&[0x00, 0x0f, 0xa5, 0xff], &"000fa5".to_string()));
    assert!(digest_matches(&[], &String::new()));
}

#[test]
fn to_fixed_copies_a_window() {
    let bytes: Vec<u8> = (0u8..40).collect();
    let head = to_fixed(&bytes, 0);
    let tail = to_fixed(&bytes, 8);
    assert_eq!(head.to_vec(), (0u8..32).collect::<Vec<u8>>());
    assert_eq!(tail.to_vec(), (8u8..40).collect::<Vec<u8>>());
}

#[test]
fn sentinel_is_all_zero() {
    assert!(is_sentinel(&[0u8; 32]));
    let mut slot = [0u8; 32];
    slot[31] = 1;
    assert!(!is_sentinel(&slot));
    slot = [0u8; 32];
    slot[0] = 0x80;
    assert!(!is_sentinel(&slot));
}
