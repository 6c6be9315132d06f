use ledger_guards::error::LedgerError;
use ledger_guards::guards::address;
use ledger_guards::guards::address::{
    check_claim, claim, claim_for_id, claim_for_id_without_tag, claim_for_key,
    derive_without_tag, MAX_SEEDS, MAX_SEED_LEN,
};
use ledger_guards::guards::arithmetic::{
    checked_add, checked_mul, checked_sub, unchecked_add, unchecked_mul, unchecked_sub,
};
use ledger_guards::guards::authorization::{authorize, require_signature};
use ledger_guards::guards::conservation::{
    before_invoke, check_callee_name, contains_key, validate_callee, validate_callee_name,
};
use ledger_guards::guards::freshness::{
    accept, check_ordering, check_recency, Observation, OracleState,
};
use ledger_guards::guards::lifecycle::{create, create_claimed, initialize_once, LedgerEntry};
use ledger_guards::guards::record::{
    expect_length, read_key, read_u64_le, split_operation, u64_le_bytes,
};
use ledger_guards::guards::replay::{consume_nonce, NonceState};
use ledger_guards::pubkey::{bytes_equal, Caller, Pubkey};

fn key(byte: u8) -> Pubkey {
    Pubkey::new_from_array([byte; 32])
}

fn signer(byte: u8) -> Caller {
    Caller { identity: key(byte), is_live_signer: true }
}

fn bystander(byte: u8) -> Caller {
    Caller { identity: key(byte), is_live_signer: false }
}

#[test]
fn checked_add_gives_the_exact_sum() {
    assert_eq!(checked_add(0, 0), Ok(0));
    assert_eq!(checked_add(10, 32), Ok(42));
    assert_eq!(checked_add(u64::MAX - 1, 1), Ok(u64::MAX));
    assert_eq!(checked_add(u64::MAX, 0), Ok(u64::MAX));
}

#[test]
fn checked_add_overflows_exactly_above_the_maximum() {
    assert_eq!(checked_add(u64::MAX, 1), Err(LedgerError::Overflow));
    assert_eq!(checked_add(1, u64::MAX), Err(LedgerError::Overflow));
    assert_eq!(checked_add(u64::MAX, u64::MAX), Err(LedgerError::Overflow));
    assert_eq!(checked_add(1 << 63, 1 << 63), Err(LedgerError::Overflow));
    assert_eq!(checked_add((1 << 63) - 1, 1 << 63), Ok(u64::MAX));
}

#[test]
fn checked_sub_gives_the_exact_difference_or_underflow() {
    assert_eq!(checked_sub(42, 10), Ok(32));
    assert_eq!(checked_sub(7, 7), Ok(0));
    assert_eq!(checked_sub(u64::MAX, 0), Ok(u64::MAX));
    assert_eq!(checked_sub(0, 1), Err(LedgerError::Underflow));
    assert_eq!(checked_sub(9, 10), Err(LedgerError::Underflow));
}

#[test]
fn checked_mul_gives_the_exact_product_or_overflow() {
    assert_eq!(checked_mul(5, 30), Ok(150));
    assert_eq!(checked_mul(0, u64::MAX), Ok(0));
    assert_eq!(checked_mul(1 << 32, 1 << 31), Ok(1 << 63));
    assert_eq!(checked_mul(1 << 32, 1 << 32), Err(LedgerError::Overflow));
    assert_eq!(checked_mul(u64::MAX, 2), Err(LedgerError::Overflow));
}

#[test]
fn unchecked_arithmetic_wraps_round() {
    assert_eq!(unchecked_add(u64::MAX, 1), 0);
    assert_eq!(unchecked_add(u64::MAX, 11), 10);
    assert_eq!(unchecked_add(3, 4), 7);
    assert_eq!(unchecked_sub(0, 1), u64::MAX);
    assert_eq!(unchecked_sub(10, 3), 7);
    assert_eq!(unchecked_mul(1 << 63, 2), 0);
    assert_eq!(unchecked_mul(6, 7), 42);
}

#[test]
fn initialize_once_fails_the_second_time() {
    let mut entry: LedgerEntry<u64> = LedgerEntry::vacant(key(1));
    assert!(!entry.is_initialized());
    assert_eq!(initialize_once(&mut entry, 5), Ok(()));
    assert!(entry.is_initialized());
    assert_eq!(entry.record, Some(5));

    entry.record = Some(500);
    assert_eq!(initialize_once(&mut entry, 0), Err(LedgerError::AlreadyInitialized));
    assert_eq!(entry.record, Some(500));
    assert_eq!(entry.address, key(1));

    entry.record = Some(0);
    assert_eq!(initialize_once(&mut entry, 9), Err(LedgerError::AlreadyInitialized));
    assert_eq!(entry.record, Some(0));
}

#[test]
fn create_asks_for_a_vacant_slot_then_for_a_signature() {
    let mut entry: LedgerEntry<u64> = LedgerEntry::vacant(key(1));
    assert_eq!(create(&mut entry, &bystander(2), 5), Err(LedgerError::MissingSignature));
    assert_eq!(entry, LedgerEntry::vacant(key(1)));
    assert_eq!(create(&mut entry, &signer(2), 5), Ok(()));
    assert_eq!(entry.record, Some(5));
    assert_eq!(create(&mut entry, &signer(2), 6), Err(LedgerError::AlreadyInitialized));
    assert_eq!(create(&mut entry, &bystander(2), 6), Err(LedgerError::AlreadyInitialized));
    assert_eq!(entry.record, Some(5));
}

#[test]
fn create_claimed_passes_a_failed_claim_on() {
    let mut entry: LedgerEntry<u64> = LedgerEntry::vacant(key(1));
    assert_eq!(
        create_claimed(&mut entry, Err(LedgerError::AddressCollision), &signer(2), 5),
        Err(LedgerError::AddressCollision)
    );
    assert_eq!(entry.record, None);
    assert_eq!(create_claimed(&mut entry, Ok(254), &signer(2), 5), Ok(()));
    assert_eq!(entry.record, Some(5));
    assert_eq!(
        create_claimed(&mut entry, Err(LedgerError::AddressCollision), &bystander(3), 6),
        Err(LedgerError::AlreadyInitialized)
    );
    assert_eq!(
        create_claimed(&mut entry, Ok(254), &signer(2), 6),
        Err(LedgerError::AlreadyInitialized)
    );
    assert_eq!(entry.record, Some(5));
}

#[test]
fn authorize_tells_a_stranger_from_an_owner_who_did_not_sign() {
    let owner = key(1);
    assert_eq!(authorize(&owner, &signer(1), true), Ok(()));
    assert_eq!(authorize(&owner, &signer(2), true), Err(LedgerError::Unauthorized));
    assert_eq!(authorize(&owner, &bystander(2), true), Err(LedgerError::Unauthorized));
    assert_eq!(authorize(&owner, &bystander(1), true), Err(LedgerError::MissingSignature));
}

#[test]
fn authorize_without_signature_duty_compares_keys_only() {
    let owner = key(1);
    assert_eq!(authorize(&owner, &bystander(1), false), Ok(()));
    assert_eq!(authorize(&owner, &signer(1), false), Ok(()));
    assert_eq!(authorize(&owner, &bystander(2), false), Err(LedgerError::Unauthorized));
}

#[test]
fn authorize_sees_a_difference_in_the_last_byte() {
    let mut bytes = [1u8; 32];
    bytes[31] = 2;
    let caller = Caller { identity: Pubkey::new_from_array(bytes), is_live_signer: true };
    assert_eq!(authorize(&key(1), &caller, true), Err(LedgerError::Unauthorized));
}

#[test]
fn require_signature_asks_for_nothing_else() {
    assert_eq!(require_signature(&signer(3)), Ok(()));
    assert_eq!(require_signature(&bystander(3)), Err(LedgerError::MissingSignature));
}

#[test]
fn consume_nonce_refuses_the_same_nonce_again() {
    let mut state = NonceState { last_nonce: 0 };
    assert_eq!(consume_nonce(&mut state, 7), Ok(()));
    assert_eq!(state.last_nonce, 7);
    assert_eq!(consume_nonce(&mut state, 7), Err(LedgerError::NonceAlreadyUsed));
    assert_eq!(state.last_nonce, 7);
    assert_eq!(consume_nonce(&mut state, 6), Err(LedgerError::NonceAlreadyUsed));
    assert_eq!(state.last_nonce, 7);
}

#[test]
fn consume_nonce_takes_rising_nonces() {
    let mut state = NonceState { last_nonce: 0 };
    for nonce in [1u64, 2, 3, 10, 1000, u64::MAX] {
        assert_eq!(consume_nonce(&mut state, nonce), Ok(()));
        assert_eq!(state.last_nonce, nonce);
    }
    assert_eq!(consume_nonce(&mut state, u64::MAX), Err(LedgerError::NonceAlreadyUsed));
}

#[test]
fn consume_nonce_refuses_nonce_zero_on_a_fresh_state() {
    let mut state = NonceState { last_nonce: 0 };
    assert_eq!(consume_nonce(&mut state, 0), Err(LedgerError::NonceAlreadyUsed));
    assert_eq!(NonceState::SIZE, 8);
}

#[test]
fn accept_refuses_an_older_observation_inside_the_window() {
    let mut state = OracleState { last_publish_time: 900 };
    let same = Observation { value: 11, publish_time: 900 };
    let older = Observation { value: 12, publish_time: 899 };
    assert_eq!(accept(&same, 1000, 200, &mut state), Err(LedgerError::OutOfOrderPrice));
    assert_eq!(accept(&older, 1000, 200, &mut state), Err(LedgerError::OutOfOrderPrice));
    assert_eq!(state.last_publish_time, 900);
}

#[test]
fn accept_takes_a_later_observation_inside_the_window() {
    let mut state = OracleState { last_publish_time: 900 };
    let later = Observation { value: 13, publish_time: 901 };
    assert_eq!(accept(&later, 1000, 200, &mut state), Ok(13));
    assert_eq!(state.last_publish_time, 901);
    assert_eq!(accept(&later, 1000, 200, &mut state), Err(LedgerError::OutOfOrderPrice));
    assert_eq!(OracleState::SIZE, 8);
}

#[test]
fn accept_refuses_a_stale_observation_first() {
    let mut state = OracleState { last_publish_time: 900 };
    let stale_and_old = Observation { value: 1, publish_time: 700 };
    let stale_but_later = Observation { value: 1, publish_time: 901 };
    assert_eq!(accept(&stale_and_old, 1000, 200, &mut state), Err(LedgerError::StalePrice));
    assert_eq!(accept(&stale_but_later, 1102, 200, &mut state), Err(LedgerError::StalePrice));
    assert_eq!(accept(&stale_but_later, 1101, 200, &mut state), Ok(1));
}

#[test]
fn recency_is_measured_without_overflow() {
    assert_eq!(check_recency(900, 1000, 100), Ok(()));
    assert_eq!(check_recency(900, 1000, 99), Err(LedgerError::StalePrice));
    assert_eq!(check_recency(1000, 900, 0), Ok(()));
    assert_eq!(check_recency(i64::MIN, i64::MAX, u64::MAX), Ok(()));
    assert_eq!(check_recency(i64::MIN, i64::MAX, u64::MAX - 1), Err(LedgerError::StalePrice));
    assert_eq!(check_recency(i64::MAX, i64::MIN, 0), Ok(()));
    assert_eq!(check_recency(0, 1, 0), Err(LedgerError::StalePrice));
}

#[test]
fn ordering_is_strict() {
    let state = OracleState { last_publish_time: -5 };
    assert_eq!(check_ordering(-4, &state), Ok(()));
    assert_eq!(check_ordering(-5, &state), Err(LedgerError::OutOfOrderPrice));
    assert_eq!(check_ordering(i64::MIN, &state), Err(LedgerError::OutOfOrderPrice));
}

#[test]
fn validate_callee_goes_by_the_allow_list() {
    let allow_list = vec![key(1), key(2)];
    assert_eq!(validate_callee(&key(2), &allow_list), Ok(()));
    assert_eq!(validate_callee(&key(3), &allow_list), Err(LedgerError::UntrustedCallee));
    assert_eq!(validate_callee(&key(1), &vec![]), Err(LedgerError::UntrustedCallee));
    assert!(contains_key(&allow_list, &key(1)));
    assert!(!contains_key(&allow_list, &key(9)));
}

#[test]
fn validate_callee_name_goes_by_the_base58_form() {
    let zero = key(0);
    assert_eq!(validate_callee_name(&zero, "11111111111111111111111111111111"), Ok(()));
    assert_eq!(
        validate_callee_name(&key(1), "4vJ9JU1bJJE96FWSJKvHsmmFADCg4gpZQff4P3bkLKi"),
        Ok(())
    );
    assert_eq!(
        validate_callee_name(&key(7), "4vJ9JU1bJJE96FWSJKvHsmmFADCg4gpZQff4P3bkLKi"),
        Err(LedgerError::UntrustedCallee)
    );
    assert_eq!(validate_callee_name(&zero, ""), Err(LedgerError::UntrustedCallee));
}

#[test]
fn check_callee_name_compares_text() {
    assert_eq!(check_callee_name(&"abc".to_string(), "abc"), Ok(()));
    assert_eq!(check_callee_name(&"abc".to_string(), "abd"), Err(LedgerError::UntrustedCallee));
    assert_eq!(check_callee_name(&"abc".to_string(), "ab"), Err(LedgerError::UntrustedCallee));
}

#[test]
fn before_invoke_asks_for_every_mutated_entry() {
    let mutated = vec![key(1), key(2)];
    let cleared = before_invoke(key(9), &mutated, vec![key(3), key(2), key(1)]).unwrap();
    assert_eq!(cleared.target, key(9));
    assert_eq!(cleared.resource_set, vec![key(3), key(2), key(1)]);

    assert_eq!(
        before_invoke(key(9), &mutated, vec![key(3), key(2)]),
        Err(LedgerError::UnbalancedDelegatedCall)
    );
    assert_eq!(
        before_invoke(key(9), &mutated, vec![]),
        Err(LedgerError::UnbalancedDelegatedCall)
    );
    assert!(before_invoke(key(9), &vec![], vec![]).is_ok());
}

#[test]
fn derive_agrees_with_the_host() {
    let program = key(42);
    let user = key(7);
    let host = solana_program::pubkey::Pubkey::find_program_address(
        &[b"vault", &user.to_bytes()],
        &solana_program::pubkey::Pubkey::new_from_array(program.to_bytes()),
    );
    let derived = address::derive(b"vault", &vec![user.to_bytes().to_vec()], &program).unwrap();
    assert_eq!(derived.0.to_bytes(), host.0.to_bytes());
    assert_eq!(derived.1, host.1);
    assert_ne!(derived.0, user);
    assert_ne!(derived.0, program);
}

#[test]
fn derive_is_deterministic() {
    let program = key(42);
    let seeds = vec![vec![1u8, 2, 3]];
    assert_eq!(address::derive(b"order", &seeds, &program), address::derive(b"order", &seeds, &program));
}

#[test]
fn derive_separates_tags_over_the_same_seeds() {
    let program = key(42);
    let seeds = vec![5u64.to_le_bytes().to_vec()];
    let as_order = address::derive(b"order", &seeds, &program).unwrap();
    let as_vault = address::derive(b"vault", &seeds, &program).unwrap();
    let as_empty = address::derive(b"", &seeds, &program).unwrap();
    assert_ne!(as_order.0, as_vault.0);
    assert_ne!(as_order.0, as_empty.0);
    assert_ne!(as_vault.0, as_empty.0);
}

#[test]
fn derive_separates_programs() {
    let seeds = vec![vec![9u8]];
    assert_ne!(
        address::derive(b"vault", &seeds, &key(1)).unwrap().0,
        address::derive(b"vault", &seeds, &key(2)).unwrap().0
    );
}

#[test]
fn derive_takes_no_long_seed_and_no_long_list() {
    let program = key(42);
    assert_eq!(MAX_SEED_LEN, 32);
    assert_eq!(MAX_SEEDS, 16);
    assert!(address::derive(&[0u8; 32], &vec![], &program).is_some());
    assert_eq!(address::derive(&[0u8; 33], &vec![], &program), None);
    assert_eq!(address::derive(b"tag", &vec![vec![0u8; 33]], &program), None);
    assert!(address::derive(b"tag", &vec![vec![1u8]; 14], &program).is_some());
    assert_eq!(address::derive(b"tag", &vec![vec![1u8]; 15], &program), None);
}

#[test]
fn derive_without_tag_agrees_with_the_host() {
    let program = key(42);
    let id = 77u64.to_le_bytes();
    let host = solana_program::pubkey::Pubkey::find_program_address(
        &[&id],
        &solana_program::pubkey::Pubkey::new_from_array(program.to_bytes()),
    );
    let derived = derive_without_tag(&vec![id.to_vec()], &program).unwrap();
    assert_eq!(derived.0.to_bytes(), host.0.to_bytes());
    assert_eq!(derived.1, host.1);
    assert_eq!(derive_without_tag(&vec![vec![1u8]; 16], &program), None);
}

#[test]
fn claim_gives_the_bump_or_a_collision() {
    let program = key(42);
    let seeds = vec![key(7).to_bytes().to_vec()];
    let (address, bump) = address::derive(b"vault", &seeds, &program).unwrap();
    assert_eq!(claim(&address, b"vault", &seeds, &program), Ok(bump));
    assert_eq!(claim_for_key(&address, b"vault", &key(7), &program), Ok(bump));
    assert_eq!(claim(&address, b"order", &seeds, &program), Err(LedgerError::AddressCollision));
    assert_eq!(claim(&key(7), b"vault", &seeds, &program), Err(LedgerError::AddressCollision));
    assert_eq!(
        claim(&address, &[0u8; 33], &seeds, &program),
        Err(LedgerError::AddressCollision)
    );
}

#[test]
fn claim_for_id_reads_the_number_little_endian() {
    let program = key(42);
    let seeds = vec![vec![0x01u8, 0x02, 0, 0, 0, 0, 0, 0]];
    let (tagged, tagged_bump) = address::derive(b"user_state", &seeds, &program).unwrap();
    let (bare, bare_bump) = derive_without_tag(&seeds, &program).unwrap();
    assert_eq!(claim_for_id(&tagged, b"user_state", 0x0201, &program), Ok(tagged_bump));
    assert_eq!(claim_for_id_without_tag(&bare, 0x0201, &program), Ok(bare_bump));
    assert_eq!(
        claim_for_id(&tagged, b"user_state", 0x0102, &program),
        Err(LedgerError::AddressCollision)
    );
    assert_eq!(
        claim_for_id_without_tag(&tagged, 0x0201, &program),
        Err(LedgerError::AddressCollision)
    );
}

#[test]
fn check_claim_compares_addresses() {
    assert_eq!(check_claim(Some((key(1), 250)), &key(1)), Ok(250));
    assert_eq!(check_claim(Some((key(1), 250)), &key(2)), Err(LedgerError::AddressCollision));
    assert_eq!(check_claim(None, &key(1)), Err(LedgerError::AddressCollision));
}

#[test]
fn read_u64_le_reads_least_significant_byte_first() {
    let data = [0xffu8, 0x01, 0x02, 0x03, 0x04, 0x05, 0x06, 0x07, 0x08, 0xee];
    assert_eq!(read_u64_le(&data, 1), Ok(0x0807_0605_0403_0201));
    assert_eq!(read_u64_le(&data, 0), Ok(0x0706_0504_0302_01ff));
    assert_eq!(read_u64_le(&data, 2), Ok(0xee08_0706_0504_0302));
    assert_eq!(read_u64_le(&[0xff; 8], 0), Ok(u64::MAX));
    assert_eq!(read_u64_le(&999u64.to_le_bytes(), 0), Ok(999));
}

#[test]
fn read_u64_le_checks_its_bounds() {
    let data = [0u8; 10];
    assert_eq!(read_u64_le(&data, 3), Err(LedgerError::MalformedRecord));
    assert_eq!(read_u64_le(&data, usize::MAX), Err(LedgerError::MalformedRecord));
    assert_eq!(read_u64_le(&data[..7], 0), Err(LedgerError::MalformedRecord));
    assert_eq!(read_u64_le(&[], 0), Err(LedgerError::MalformedRecord));
}

#[test]
fn u64_le_bytes_writes_least_significant_byte_first() {
    assert_eq!(u64_le_bytes(0x0807_0605_0403_0201), [1, 2, 3, 4, 5, 6, 7, 8]);
    assert_eq!(u64_le_bytes(0), [0; 8]);
    assert_eq!(u64_le_bytes(u64::MAX), [0xff; 8]);
    assert_eq!(u64_le_bytes(555), 555u64.to_le_bytes());
    assert_eq!(read_u64_le(&u64_le_bytes(123_456_789_012), 0), Ok(123_456_789_012));
}

#[test]
fn read_key_takes_thirty_two_bytes() {
    let mut data = vec![0u8; 40];
    for (i, byte) in data.iter_mut().enumerate() {
        *byte = i as u8;
    }
    let found = read_key(&data, 8).unwrap();
    assert_eq!(found.to_bytes()[0], 8);
    assert_eq!(found.to_bytes()[31], 39);
    assert_eq!(read_key(&data, 9), Err(LedgerError::MalformedRecord));
    assert_eq!(read_key(&data[..31], 0), Err(LedgerError::MalformedRecord));
}

#[test]
fn split_operation_parts_tag_and_payload() {
    assert_eq!(split_operation(&[1, 2, 3]), Ok((1u8, &[2u8, 3][..])));
    assert_eq!(split_operation(&[9]), Ok((9u8, &[][..])));
    assert_eq!(split_operation(&[]), Err(LedgerError::InvalidOperation));
}

#[test]
fn expect_length_is_exact() {
    assert_eq!(expect_length(&[0; 8], 8), Ok(()));
    assert_eq!(expect_length(&[0; 7], 8), Err(LedgerError::MalformedRecord));
    assert_eq!(expect_length(&[0; 9], 8), Err(LedgerError::MalformedRecord));
}

#[test]
fn bytes_equal_compares_length_and_content() {
    assert!(bytes_equal(&[], &[]));
    assert!(bytes_equal(&[1, 2, 3], &[1, 2, 3]));
    assert!(!bytes_equal(&[1, 2, 3], &[1, 2, 4]));
    assert!(!bytes_equal(&[1, 2, 3], &[1, 2]));
    assert!(key(1) == key(1));
    assert!(key(1) != key(2));
}

const SAMPLES: [u64; 9] =
    [0, 1, 2, 10, 1 << 31, 1 << 32, (1 << 63) - 1, 1 << 63, u64::MAX];

#[test]
fn checked_arithmetic_agrees_with_exact_arithmetic() {
    for a in SAMPLES {
        for b in SAMPLES {
            let sum = a as u128 + b as u128;
            let product = a as u128 * b as u128;
            let expected_sum =
                if sum > u64::MAX as u128 { Err(LedgerError::Overflow) } else { Ok(sum as u64) };
            let expected_difference =
                if a < b { Err(LedgerError::Underflow) } else { Ok(a - b) };
            let expected_product = if product > u64::MAX as u128 {
                Err(LedgerError::Overflow)
            } else {
                Ok(product as u64)
            };
            assert_eq!(checked_add(a, b), expected_sum);
            assert_eq!(checked_sub(a, b), expected_difference);
            assert_eq!(checked_mul(a, b), expected_product);
            assert_eq!(unchecked_add(a, b), sum as u64);
            assert_eq!(unchecked_sub(a, b), a.wrapping_sub(b));
            assert_eq!(unchecked_mul(a, b), product as u64);
        }
    }
}

#[test]
fn authorize_answers_every_combination() {
    for same_key in [false, true] {
        for signs in [false, true] {
            for must_sign in [false, true] {
                let caller = Caller {
                    identity: if same_key { key(1) } else { key(2) },
                    is_live_signer: signs,
                };
                let expected = if !same_key {
                    Err(LedgerError::Unauthorized)
                } else if must_sign && !signs {
                    Err(LedgerError::MissingSignature)
                } else {
                    Ok(())
                };
                assert_eq!(authorize(&key(1), &caller, must_sign), expected);
            }
        }
    }
}

#[test]
fn consume_nonce_accepts_exactly_the_nonces_above_the_last() {
    for last in SAMPLES {
        for presented in SAMPLES {
            let mut state = NonceState { last_nonce: last };
            let first = consume_nonce(&mut state, presented);
            if presented > last {
                assert_eq!(first, Ok(()));
                assert_eq!(state.last_nonce, presented);
            } else {
                assert_eq!(first, Err(LedgerError::NonceAlreadyUsed));
                assert_eq!(state.last_nonce, last);
            }
            let after_first = state;
            assert_eq!(consume_nonce(&mut state, presented), Err(LedgerError::NonceAlreadyUsed));
            assert_eq!(state, after_first);
        }
    }
}

#[test]
fn accept_answers_by_window_and_order() {
    let times: [i64; 7] = [i64::MIN, -100, -1, 0, 1, 100, i64::MAX];
    let ages: [u64; 5] = [0, 1, 100, 1 << 63, u64::MAX];
    for publish_time in times {
        for now in times {
            for max_age in ages {
                for last in times {
                    let mut state = OracleState { last_publish_time: last };
                    let observation = Observation { value: 5, publish_time };
                    let recent = now as i128 - publish_time as i128 <= max_age as i128;
                    let expected = if !recent {
                        Err(LedgerError::StalePrice)
                    } else if publish_time <= last {
                        Err(LedgerError::OutOfOrderPrice)
                    } else {
                        Ok(5)
                    };
                    assert_eq!(accept(&observation, now, max_age, &mut state), expected);
                    let kept = if expected.is_ok() { publish_time } else { last };
                    assert_eq!(state.last_publish_time, kept);
                }
            }
        }
    }
}
