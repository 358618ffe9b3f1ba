//! Tests of the preparation phase: input validation and capacity planning.

use wallet_bridge::errors::CallError;
use wallet_bridge::ops::{
    prepare_check_address, prepare_check_addresses, prepare_decrypt_with_password,
    prepare_derive_private, prepare_derive_public, prepare_encrypt_with_password,
    prepare_from_daedalus_mnemonic, prepare_from_enhanced_entropy, prepare_from_master_key,
    prepare_from_seed, prepare_generate_addresses, prepare_move, prepare_new_account,
    prepare_new_checker, prepare_new_checker_from_mnemonics, prepare_sign, prepare_spend,
    prepare_to_public,
};
use wallet_bridge::table::{Operation, OutputEncoding, ResultConvention};

#[test]
fn from_seed_plans_fixed_sizes() {
    let plan = prepare_from_seed(32).unwrap();
    assert_eq!(plan.op, Operation::FromSeed);
    assert_eq!(plan.capacity, 96);
    assert_eq!(plan.convention, ResultConvention::WritesExact);
    assert_eq!(plan.encoding, OutputEncoding::Binary);
}

#[test]
fn from_seed_rejects_every_other_length() {
    for bad in [0usize, 1, 31, 33, 64, 96] {
        assert_eq!(
            prepare_from_seed(bad),
            Err(CallError::WrongInputSize { actual: bad, expected: 32 })
        );
    }
}

#[test]
fn from_enhanced_entropy_accepts_any_lengths() {
    let plan = prepare_from_enhanced_entropy(0, 0).unwrap();
    assert_eq!(plan.capacity, 96);
    assert_eq!(plan.convention, ResultConvention::StatusZero);
    let plan = prepare_from_enhanced_entropy(20, 1000).unwrap();
    assert_eq!(plan.capacity, 96);
}

#[test]
fn to_public_checks_private_key_size() {
    let plan = prepare_to_public(96).unwrap();
    assert_eq!(plan.capacity, 64);
    assert_eq!(
        prepare_to_public(64),
        Err(CallError::WrongInputSize { actual: 64, expected: 96 })
    );
}

#[test]
fn derive_private_accepts_any_index() {
    let plan = prepare_derive_private(96, 0x8000_0000).unwrap();
    assert_eq!(plan.capacity, 96);
    let plan = prepare_derive_private(96, u32::MAX).unwrap();
    assert_eq!(plan.capacity, 96);
    assert_eq!(
        prepare_derive_private(95, 7),
        Err(CallError::WrongInputSize { actual: 95, expected: 96 })
    );
}

#[test]
fn derive_public_rejects_hardened_indices() {
    let plan = prepare_derive_public(64, 0x7FFF_FFFF).unwrap();
    assert_eq!(plan.capacity, 64);
    assert_eq!(plan.convention, ResultConvention::BoolFlag);
    assert_eq!(
        prepare_derive_public(64, 0x8000_0000),
        Err(CallError::HardenedIndex { index: 0x8000_0000 })
    );
    assert_eq!(
        prepare_derive_public(64, u32::MAX),
        Err(CallError::HardenedIndex { index: u32::MAX })
    );
}

#[test]
fn derive_public_checks_size_before_index() {
    assert_eq!(
        prepare_derive_public(96, u32::MAX),
        Err(CallError::WrongInputSize { actual: 96, expected: 64 })
    );
}

#[test]
fn sign_checks_key_size_only() {
    let plan = prepare_sign(96, 0).unwrap();
    assert_eq!(plan.capacity, 64);
    let plan = prepare_sign(96, 123456).unwrap();
    assert_eq!(plan.capacity, 64);
    assert_eq!(
        prepare_sign(32, 10),
        Err(CallError::WrongInputSize { actual: 32, expected: 96 })
    );
}

#[test]
fn encrypt_checks_salt_then_nonce() {
    assert_eq!(
        prepare_encrypt_with_password(5, 31, 12, 100),
        Err(CallError::WrongInputSize { actual: 31, expected: 32 })
    );
    assert_eq!(
        prepare_encrypt_with_password(5, 32, 13, 100),
        Err(CallError::WrongInputSize { actual: 13, expected: 12 })
    );
    // A bad salt is reported even when the nonce is bad too.
    assert_eq!(
        prepare_encrypt_with_password(5, 0, 0, 100),
        Err(CallError::WrongInputSize { actual: 0, expected: 32 })
    );
}

#[test]
fn encrypt_capacity_is_payload_plus_overhead() {
    let plan = prepare_encrypt_with_password(5, 32, 12, 100).unwrap();
    assert_eq!(plan.capacity, 160);
    assert_eq!(plan.convention, ResultConvention::ExactLen);
    assert_eq!(plan.encoding, OutputEncoding::Binary);
    let plan = prepare_encrypt_with_password(5, 32, 12, 0).unwrap();
    assert_eq!(plan.capacity, 60);
}

#[test]
fn encrypt_capacity_overflow_is_rejected() {
    assert_eq!(
        prepare_encrypt_with_password(5, 32, 12, usize::MAX - 59),
        Err(CallError::CapacityOverflow)
    );
    let plan = prepare_encrypt_with_password(5, 32, 12, usize::MAX - 60).unwrap();
    assert_eq!(plan.capacity, usize::MAX);
}

#[test]
fn decrypt_boundary_at_header_size() {
    // Exactly the header and tag: a zero-length payload is rejected.
    assert_eq!(
        prepare_decrypt_with_password(5, 60),
        Err(CallError::InputTooShort { actual: 60, minimum: 61 })
    );
    // One byte more must be accepted and plan a one-byte plaintext.
    let plan = prepare_decrypt_with_password(5, 61).unwrap();
    assert_eq!(plan.capacity, 1);
    assert_eq!(plan.convention, ResultConvention::ExactLen);
}

#[test]
fn decrypt_rejects_every_short_input() {
    for bad in [0usize, 1, 16, 28, 59, 60] {
        assert_eq!(
            prepare_decrypt_with_password(9, bad),
            Err(CallError::InputTooShort { actual: bad, minimum: 61 })
        );
    }
}

#[test]
fn decrypt_capacity_is_payload_minus_overhead() {
    let plan = prepare_decrypt_with_password(5, 160).unwrap();
    assert_eq!(plan.capacity, 100);
}

#[test]
fn text_operations_plan_one_page() {
    for plan in [
        prepare_new_checker(10).unwrap(),
        prepare_new_checker_from_mnemonics(80).unwrap(),
        prepare_from_master_key(96).unwrap(),
        prepare_from_daedalus_mnemonic(120).unwrap(),
        prepare_new_account(45).unwrap(),
        prepare_check_address(40).unwrap(),
    ] {
        assert_eq!(plan.capacity, 4096);
        assert_eq!(plan.convention, ResultConvention::BoundedLen);
        assert_eq!(plan.encoding, OutputEncoding::Text);
    }
}

#[test]
fn batch_capacities_follow_their_formulas() {
    assert_eq!(prepare_check_addresses(50, 3).unwrap().capacity, 3 * 4096);
    assert_eq!(prepare_generate_addresses(50, 3).unwrap().capacity, 3 * 131 + 2);
    assert_eq!(prepare_generate_addresses(50, 0).unwrap().capacity, 2);
    // The transaction formulas reserve one extra entry share.
    assert_eq!(prepare_spend(50, 2, 3).unwrap().capacity, (2 + 3 + 1) * 65536 + 1024);
    assert_eq!(prepare_move(50, 2).unwrap().capacity, (2 + 1) * 65536 + 1024);
}

#[test]
fn batch_capacity_overflow_is_rejected() {
    assert_eq!(
        prepare_check_addresses(50, usize::MAX),
        Err(CallError::CapacityOverflow)
    );
    assert_eq!(
        prepare_generate_addresses(50, usize::MAX / 131 + 1),
        Err(CallError::CapacityOverflow)
    );
    assert_eq!(
        prepare_spend(50, usize::MAX, 1),
        Err(CallError::CapacityOverflow)
    );
    assert_eq!(prepare_move(50, usize::MAX), Err(CallError::CapacityOverflow));
}
