//! Per-operation entry points of the preparation phase.
//!
//! Each exported operation of the host module has one function here, taking
//! the lengths, index and count hints its host signature supplies. Each is a
//! thin, fully specified instance of the uniform [`crate::bridge::prepare`]
//! step: its contract states exactly which requests are rejected, with which
//! error, and the exact capacity of the plan it yields.

use vstd::prelude::*;

use crate::bridge::{prepare, prepare_model, CallPlan};
use crate::errors::CallError;
use crate::sizes::{
    ADDRESS_ITEM_SIZE, ADDRESS_LIST_OVERHEAD, CHECK_ITEM_SIZE, CIPHER_OVERHEAD,
    FIRST_HARDENED_INDEX, MAX_OUTPUT_SIZE, MIN_CIPHERTEXT_SIZE, NONCE_SIZE, SALT_SIZE, SEED_SIZE,
    SIGNATURE_SIZE, TX_ITEM_SIZE, TX_OVERHEAD, XPRV_SIZE, XPUB_SIZE,
};
use crate::table::{validate_model, Operation, OutputEncoding, ResultConvention};

verus! {

/// Plans entropy-based key derivation. Entropy and password may have any
/// length: the engine itself judges the entropy and signals a bad one
/// through its status word.
pub fn prepare_from_enhanced_entropy(entropy_len: usize, password_len: usize) -> (r: Result<
    CallPlan,
    CallError,
>)
    ensures
        r == prepare_model(
            Operation::FromEnhancedEntropy,
            seq![entropy_len, password_len],
            0,
            0,
            0,
        ),
        r == Ok::<CallPlan, CallError>(
            CallPlan {
                op: Operation::FromEnhancedEntropy,
                capacity: XPRV_SIZE,
                convention: ResultConvention::StatusZero,
                encoding: OutputEncoding::Binary,
            },
        ),
{
    let mut lens: Vec<usize> = Vec::new();
    lens.push(entropy_len);
    lens.push(password_len);
    proof {
        assert(lens@ =~= seq![entropy_len, password_len]);
        reveal_with_fuel(validate_model, 4);
    }
    prepare(Operation::FromEnhancedEntropy, &lens, 0, 0, 0)
}

/// Plans seed-based key derivation: the seed must have exactly the declared
/// seed size; the output is one extended private key.
pub fn prepare_from_seed(seed_len: usize) -> (r: Result<CallPlan, CallError>)
    ensures
        r == prepare_model(Operation::FromSeed, seq![seed_len], 0, 0, 0),
        seed_len == SEED_SIZE ==> r == Ok::<CallPlan, CallError>(
            CallPlan {
                op: Operation::FromSeed,
                capacity: XPRV_SIZE,
                convention: ResultConvention::WritesExact,
                encoding: OutputEncoding::Binary,
            },
        ),
        seed_len != SEED_SIZE ==> r == Err::<CallPlan, CallError>(
            CallError::WrongInputSize { actual: seed_len, expected: SEED_SIZE },
        ),
{
    let mut lens: Vec<usize> = Vec::new();
    lens.push(seed_len);
    proof {
        assert(lens@ =~= seq![seed_len]);
        reveal_with_fuel(validate_model, 3);
    }
    prepare(Operation::FromSeed, &lens, 0, 0, 0)
}

/// Plans public-key extraction: the input must be exactly one extended
/// private key; the output is one extended public key.
pub fn prepare_to_public(xprv_len: usize) -> (r: Result<CallPlan, CallError>)
    ensures
        r == prepare_model(Operation::ToPublic, seq![xprv_len], 0, 0, 0),
        xprv_len == XPRV_SIZE ==> r == Ok::<CallPlan, CallError>(
            CallPlan {
                op: Operation::ToPublic,
                capacity: XPUB_SIZE,
                convention: ResultConvention::WritesExact,
                encoding: OutputEncoding::Binary,
            },
        ),
        xprv_len != XPRV_SIZE ==> r == Err::<CallPlan, CallError>(
            CallError::WrongInputSize { actual: xprv_len, expected: XPRV_SIZE },
        ),
{
    let mut lens: Vec<usize> = Vec::new();
    lens.push(xprv_len);
    proof {
        assert(lens@ =~= seq![xprv_len]);
        reveal_with_fuel(validate_model, 3);
    }
    prepare(Operation::ToPublic, &lens, 0, 0, 0)
}

/// Plans private child derivation: the input must be exactly one extended
/// private key; any 32-bit index, hardened or not, is accepted.
pub fn prepare_derive_private(xprv_len: usize, index: u32) -> (r: Result<CallPlan, CallError>)
    ensures
        r == prepare_model(Operation::DerivePrivate, seq![xprv_len], index, 0, 0),
        xprv_len == XPRV_SIZE ==> r == Ok::<CallPlan, CallError>(
            CallPlan {
                op: Operation::DerivePrivate,
                capacity: XPRV_SIZE,
                convention: ResultConvention::WritesExact,
                encoding: OutputEncoding::Binary,
            },
        ),
        xprv_len != XPRV_SIZE ==> r == Err::<CallPlan, CallError>(
            CallError::WrongInputSize { actual: xprv_len, expected: XPRV_SIZE },
        ),
{
    let mut lens: Vec<usize> = Vec::new();
    lens.push(xprv_len);
    proof {
        assert(lens@ =~= seq![xprv_len]);
        reveal_with_fuel(validate_model, 3);
    }
    prepare(Operation::DerivePrivate, &lens, index, 0, 0)
}

/// Plans public child derivation: the input must be exactly one extended
/// public key, and the index must be non-hardened, since hardened derivation
/// needs the private key.
pub fn prepare_derive_public(xpub_len: usize, index: u32) -> (r: Result<CallPlan, CallError>)
    ensures
        r == prepare_model(Operation::DerivePublic, seq![xpub_len], index, 0, 0),
        xpub_len != XPUB_SIZE ==> r == Err::<CallPlan, CallError>(
            CallError::WrongInputSize { actual: xpub_len, expected: XPUB_SIZE },
        ),
        xpub_len == XPUB_SIZE && index >= FIRST_HARDENED_INDEX ==> r == Err::<CallPlan, CallError>(
            CallError::HardenedIndex { index },
        ),
        xpub_len == XPUB_SIZE && index < FIRST_HARDENED_INDEX ==> r == Ok::<CallPlan, CallError>(
            CallPlan {
                op: Operation::DerivePublic,
                capacity: XPUB_SIZE,
                convention: ResultConvention::BoolFlag,
                encoding: OutputEncoding::Binary,
            },
        ),
{
    let mut lens: Vec<usize> = Vec::new();
    lens.push(xpub_len);
    proof {
        assert(lens@ =~= seq![xpub_len]);
        reveal_with_fuel(validate_model, 3);
    }
    prepare(Operation::DerivePublic, &lens, index, 0, 0)
}

/// Plans signing: the key must be exactly one extended private key; the
/// message may have any length; the output is one signature.
pub fn prepare_sign(xprv_len: usize, message_len: usize) -> (r: Result<CallPlan, CallError>)
    ensures
        r == prepare_model(Operation::Sign, seq![xprv_len, message_len], 0, 0, 0),
        xprv_len == XPRV_SIZE ==> r == Ok::<CallPlan, CallError>(
            CallPlan {
                op: Operation::Sign,
                capacity: SIGNATURE_SIZE,
                convention: ResultConvention::WritesExact,
                encoding: OutputEncoding::Binary,
            },
        ),
        xprv_len != XPRV_SIZE ==> r == Err::<CallPlan, CallError>(
            CallError::WrongInputSize { actual: xprv_len, expected: XPRV_SIZE },
        ),
{
    let mut lens: Vec<usize> = Vec::new();
    lens.push(xprv_len);
    lens.push(message_len);
    proof {
        assert(lens@ =~= seq![xprv_len, message_len]);
        reveal_with_fuel(validate_model, 4);
    }
    prepare(Operation::Sign, &lens, 0, 0, 0)
}

/// Plans password-based encryption: the salt and nonce must have their
/// declared sizes; the ciphertext capacity is the payload plus the fixed
/// salt, nonce and tag overhead.
pub fn prepare_encrypt_with_password(
    password_len: usize,
    salt_len: usize,
    nonce_len: usize,
    data_len: usize,
) -> (r: Result<CallPlan, CallError>)
    ensures
        r == prepare_model(
            Operation::EncryptWithPassword,
            seq![password_len, salt_len, nonce_len, data_len],
            0,
            0,
            0,
        ),
        salt_len != SALT_SIZE ==> r == Err::<CallPlan, CallError>(
            CallError::WrongInputSize { actual: salt_len, expected: SALT_SIZE },
        ),
        salt_len == SALT_SIZE && nonce_len != NONCE_SIZE ==> r == Err::<CallPlan, CallError>(
            CallError::WrongInputSize { actual: nonce_len, expected: NONCE_SIZE },
        ),
        salt_len == SALT_SIZE && nonce_len == NONCE_SIZE && data_len + CIPHER_OVERHEAD
            > usize::MAX ==> r == Err::<CallPlan, CallError>(CallError::CapacityOverflow),
        salt_len == SALT_SIZE && nonce_len == NONCE_SIZE && data_len + CIPHER_OVERHEAD
            <= usize::MAX ==> r == Ok::<CallPlan, CallError>(
            CallPlan {
                op: Operation::EncryptWithPassword,
                capacity: (data_len + CIPHER_OVERHEAD) as usize,
                convention: ResultConvention::ExactLen,
                encoding: OutputEncoding::Binary,
            },
        ),
{
    let mut lens: Vec<usize> = Vec::new();
    lens.push(password_len);
    lens.push(salt_len);
    lens.push(nonce_len);
    lens.push(data_len);
    proof {
        assert(lens@ =~= seq![password_len, salt_len, nonce_len, data_len]);
        reveal_with_fuel(validate_model, 6);
    }
    prepare(Operation::EncryptWithPassword, &lens, 0, 0, 0)
}

/// Plans password-based decryption: the ciphertext must be strictly longer
/// than its fixed salt, nonce and tag overhead; the plaintext capacity is
/// the remainder.
pub fn prepare_decrypt_with_password(password_len: usize, data_len: usize) -> (r: Result<
    CallPlan,
    CallError,
>)
    ensures
        r == prepare_model(
            Operation::DecryptWithPassword,
            seq![password_len, data_len],
            0,
            0,
            0,
        ),
        data_len < MIN_CIPHERTEXT_SIZE ==> r == Err::<CallPlan, CallError>(
            CallError::InputTooShort { actual: data_len, minimum: MIN_CIPHERTEXT_SIZE },
        ),
        data_len >= MIN_CIPHERTEXT_SIZE ==> r == Ok::<CallPlan, CallError>(
            CallPlan {
                op: Operation::DecryptWithPassword,
                capacity: (data_len - CIPHER_OVERHEAD) as usize,
                convention: ResultConvention::ExactLen,
                encoding: OutputEncoding::Binary,
            },
        ),
{
    let mut lens: Vec<usize> = Vec::new();
    lens.push(password_len);
    lens.push(data_len);
    proof {
        assert(lens@ =~= seq![password_len, data_len]);
        reveal_with_fuel(validate_model, 4);
    }
    prepare(Operation::DecryptWithPassword, &lens, 0, 0, 0)
}

/// Plans checker construction from an extended private key in text form.
/// The engine bounds its own output at one page of text.
pub fn prepare_new_checker(xprv_text_len: usize) -> (r: Result<CallPlan, CallError>)
    ensures
        r == prepare_model(Operation::NewChecker, seq![xprv_text_len], 0, 0, 0),
        r == Ok::<CallPlan, CallError>(
            CallPlan {
                op: Operation::NewChecker,
                capacity: MAX_OUTPUT_SIZE,
                convention: ResultConvention::BoundedLen,
                encoding: OutputEncoding::Text,
            },
        ),
{
    let mut lens: Vec<usize> = Vec::new();
    lens.push(xprv_text_len);
    proof {
        assert(lens@ =~= seq![xprv_text_len]);
        reveal_with_fuel(validate_model, 3);
    }
    prepare(Operation::NewChecker, &lens, 0, 0, 0)
}

/// Plans checker construction from a mnemonic sentence.
pub fn prepare_new_checker_from_mnemonics(mnemonics_len: usize) -> (r: Result<
    CallPlan,
    CallError,
>)
    ensures
        r == prepare_model(Operation::NewCheckerFromMnemonics, seq![mnemonics_len], 0, 0, 0),
        r == Ok::<CallPlan, CallError>(
            CallPlan {
                op: Operation::NewCheckerFromMnemonics,
                capacity: MAX_OUTPUT_SIZE,
                convention: ResultConvention::BoundedLen,
                encoding: OutputEncoding::Text,
            },
        ),
{
    let mut lens: Vec<usize> = Vec::new();
    lens.push(mnemonics_len);
    proof {
        assert(lens@ =~= seq![mnemonics_len]);
        reveal_with_fuel(validate_model, 3);
    }
    prepare(Operation::NewCheckerFromMnemonics, &lens, 0, 0, 0)
}

/// Plans a batch address check: the caller hints how many addresses the
/// parameters hold, and each is given its full per-item share of capacity.
pub fn prepare_check_addresses(params_len: usize, address_count: usize) -> (r: Result<
    CallPlan,
    CallError,
>)
    ensures
        r == prepare_model(Operation::CheckAddresses, seq![params_len], 0, address_count, 0),
        address_count * CHECK_ITEM_SIZE <= usize::MAX ==> r == Ok::<CallPlan, CallError>(
            CallPlan {
                op: Operation::CheckAddresses,
                capacity: (address_count * CHECK_ITEM_SIZE) as usize,
                convention: ResultConvention::BoundedLen,
                encoding: OutputEncoding::Text,
            },
        ),
        address_count * CHECK_ITEM_SIZE > usize::MAX ==> r == Err::<CallPlan, CallError>(
            CallError::CapacityOverflow,
        ),
{
    let mut lens: Vec<usize> = Vec::new();
    lens.push(params_len);
    proof {
        assert(lens@ =~= seq![params_len]);
        reveal_with_fuel(validate_model, 3);
    }
    prepare(Operation::CheckAddresses, &lens, 0, address_count, 0)
}

/// Plans wallet restoration from a master key.
pub fn prepare_from_master_key(xprv_len: usize) -> (r: Result<CallPlan, CallError>)
    ensures
        r == prepare_model(Operation::FromMasterKey, seq![xprv_len], 0, 0, 0),
        r == Ok::<CallPlan, CallError>(
            CallPlan {
                op: Operation::FromMasterKey,
                capacity: MAX_OUTPUT_SIZE,
                convention: ResultConvention::BoundedLen,
                encoding: OutputEncoding::Text,
            },
        ),
{
    let mut lens: Vec<usize> = Vec::new();
    lens.push(xprv_len);
    proof {
        assert(lens@ =~= seq![xprv_len]);
        reveal_with_fuel(validate_model, 3);
    }
    prepare(Operation::FromMasterKey, &lens, 0, 0, 0)
}

/// Plans wallet restoration from a legacy mnemonic sentence.
pub fn prepare_from_daedalus_mnemonic(mnemonic_len: usize) -> (r: Result<CallPlan, CallError>)
    ensures
        r == prepare_model(Operation::FromDaedalusMnemonic, seq![mnemonic_len], 0, 0, 0),
        r == Ok::<CallPlan, CallError>(
            CallPlan {
                op: Operation::FromDaedalusMnemonic,
                capacity: MAX_OUTPUT_SIZE,
                convention: ResultConvention::BoundedLen,
                encoding: OutputEncoding::Text,
            },
        ),
{
    let mut lens: Vec<usize> = Vec::new();
    lens.push(mnemonic_len);
    proof {
        assert(lens@ =~= seq![mnemonic_len]);
        reveal_with_fuel(validate_model, 3);
    }
    prepare(Operation::FromDaedalusMnemonic, &lens, 0, 0, 0)
}

/// Plans account creation.
pub fn prepare_new_account(params_len: usize) -> (r: Result<CallPlan, CallError>)
    ensures
        r == prepare_model(Operation::NewAccount, seq![params_len], 0, 0, 0),
        r == Ok::<CallPlan, CallError>(
            CallPlan {
                op: Operation::NewAccount,
                capacity: MAX_OUTPUT_SIZE,
                convention: ResultConvention::BoundedLen,
                encoding: OutputEncoding::Text,
            },
        ),
{
    let mut lens: Vec<usize> = Vec::new();
    lens.push(params_len);
    proof {
        assert(lens@ =~= seq![params_len]);
        reveal_with_fuel(validate_model, 3);
    }
    prepare(Operation::NewAccount, &lens, 0, 0, 0)
}

/// Plans batch address generation: the caller hints how many addresses are
/// requested; each is given its encoded size with metadata, plus the fixed
/// framing overhead.
pub fn prepare_generate_addresses(params_len: usize, address_count: usize) -> (r: Result<
    CallPlan,
    CallError,
>)
    ensures
        r == prepare_model(Operation::GenerateAddresses, seq![params_len], 0, address_count, 0),
        address_count * ADDRESS_ITEM_SIZE + ADDRESS_LIST_OVERHEAD <= usize::MAX ==> r == Ok::<
            CallPlan,
            CallError,
        >(
            CallPlan {
                op: Operation::GenerateAddresses,
                capacity: (address_count * ADDRESS_ITEM_SIZE + ADDRESS_LIST_OVERHEAD) as usize,
                convention: ResultConvention::BoundedLen,
                encoding: OutputEncoding::Text,
            },
        ),
        address_count * ADDRESS_ITEM_SIZE + ADDRESS_LIST_OVERHEAD > usize::MAX ==> r == Err::<
            CallPlan,
            CallError,
        >(CallError::CapacityOverflow),
{
    let mut lens: Vec<usize> = Vec::new();
    lens.push(params_len);
    proof {
        assert(lens@ =~= seq![params_len]);
        reveal_with_fuel(validate_model, 3);
    }
    prepare(Operation::GenerateAddresses, &lens, 0, address_count, 0)
}

/// Plans a single address check. The host layer reshapes the address into
/// the engine's text form before the call; only its final length matters
/// here.
pub fn prepare_check_address(address_len: usize) -> (r: Result<CallPlan, CallError>)
    ensures
        r == prepare_model(Operation::CheckAddress, seq![address_len], 0, 0, 0),
        r == Ok::<CallPlan, CallError>(
            CallPlan {
                op: Operation::CheckAddress,
                capacity: MAX_OUTPUT_SIZE,
                convention: ResultConvention::BoundedLen,
                encoding: OutputEncoding::Text,
            },
        ),
{
    let mut lens: Vec<usize> = Vec::new();
    lens.push(address_len);
    proof {
        assert(lens@ =~= seq![address_len]);
        reveal_with_fuel(validate_model, 3);
    }
    prepare(Operation::CheckAddress, &lens, 0, 0, 0)
}

/// Plans a spending transaction: the caller hints the input and output
/// counts; each entry is given its full per-entry share plus the fixed
/// transaction overhead.
pub fn prepare_spend(params_len: usize, input_count: usize, output_count: usize) -> (r: Result<
    CallPlan,
    CallError,
>)
    ensures
        r == prepare_model(Operation::Spend, seq![params_len], 0, input_count, output_count),
        (input_count + output_count) * TX_ITEM_SIZE + TX_OVERHEAD <= usize::MAX ==> r == Ok::<
            CallPlan,
            CallError,
        >(
            CallPlan {
                op: Operation::Spend,
                capacity: ((input_count + output_count) * TX_ITEM_SIZE + TX_OVERHEAD) as usize,
                convention: ResultConvention::BoundedLen,
                encoding: OutputEncoding::Text,
            },
        ),
        (input_count + output_count) * TX_ITEM_SIZE + TX_OVERHEAD > usize::MAX ==> r == Err::<
            CallPlan,
            CallError,
        >(CallError::CapacityOverflow),
{
    let mut lens: Vec<usize> = Vec::new();
    lens.push(params_len);
    proof {
        assert(lens@ =~= seq![params_len]);
        reveal_with_fuel(validate_model, 3);
        assert((input_count + output_count) * TX_ITEM_SIZE >= input_count + output_count);
    }
    prepare(Operation::Spend, &lens, 0, input_count, output_count)
}

/// Plans a funds-moving transaction: the caller hints the input count; each
/// entry is given its full per-entry share plus the fixed transaction
/// overhead.
pub fn prepare_move(params_len: usize, input_count: usize) -> (r: Result<CallPlan, CallError>)
    ensures
        r == prepare_model(Operation::Move, seq![params_len], 0, input_count, 0),
        input_count * TX_ITEM_SIZE + TX_OVERHEAD <= usize::MAX ==> r == Ok::<CallPlan, CallError>(
            CallPlan {
                op: Operation::Move,
                capacity: (input_count * TX_ITEM_SIZE + TX_OVERHEAD) as usize,
                convention: ResultConvention::BoundedLen,
                encoding: OutputEncoding::Text,
            },
        ),
        input_count * TX_ITEM_SIZE + TX_OVERHEAD > usize::MAX ==> r == Err::<CallPlan, CallError>(
            CallError::CapacityOverflow,
        ),
{
    let mut lens: Vec<usize> = Vec::new();
    lens.push(params_len);
    proof {
        assert(lens@ =~= seq![params_len]);
        reveal_with_fuel(validate_model, 3);
    }
    prepare(Operation::Move, &lens, 0, input_count, 0)
}

} // verus!
