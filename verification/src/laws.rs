//! The bridge-wide guarantees, stated once over the protocol's models.
//!
//! Each law here quantifies over every operation, every request and every
//! possible engine behaviour; the scenario-sized counterparts live in the
//! test suite.

use vstd::prelude::*;

use crate::bridge::{finish_model, payload_len_of, prepare_model, NativeOutcome};
use crate::errors::CallError;
use crate::sizes::{
    CIPHER_OVERHEAD, FIRST_HARDENED_INDEX, MIN_CIPHERTEXT_SIZE, NONCE_SIZE, SALT_SIZE, XPUB_SIZE,
};
use crate::table::{
    index_admits, inputs_admitted, lemma_validate_model_characterized, op_index_rule,
    op_input_rules, rule_admits, validate_model, Operation, OutputEncoding, ResultConvention,
    SizeRule,
};

verus! {

/// An invalid input buffer is rejected before the native engine can be
/// invoked: for every operation, a request in which some buffer violates its
/// size rule yields an input-size error from the preparation phase, so no
/// plan — and hence no native call — ever exists for it.
pub proof fn lemma_invalid_input_never_reaches_engine(
    op: Operation,
    lens: Seq<usize>,
    index: u32,
    hint_a: usize,
    hint_b: usize,
)
    requires
        lens.len() == op_input_rules(op).len(),
        !inputs_admitted(op_input_rules(op), lens),
    ensures
        prepare_model(op, lens, index, hint_a, hint_b) matches Err(e) && e.is_input_error(),
{
    lemma_validate_model_characterized(op_input_rules(op), lens);
}

/// A fixed-size operation rejects every other length: whenever some input
/// buffer of an operation misses its declared fixed length, the request is
/// turned away as an input-size error before the native engine can run.
pub proof fn lemma_fixed_size_mismatch_rejected(
    op: Operation,
    lens: Seq<usize>,
    index: u32,
    hint_a: usize,
    hint_b: usize,
    position: int,
)
    requires
        lens.len() == op_input_rules(op).len(),
        0 <= position < lens.len(),
        op_input_rules(op)[position] matches SizeRule::Exactly(expected) && lens[position]
            != expected,
    ensures
        prepare_model(op, lens, index, hint_a, hint_b) matches Err(e) && e.is_input_error(),
{
    assert(!rule_admits(op_input_rules(op)[position], lens[position]));
    lemma_invalid_input_never_reaches_engine(op, lens, index, hint_a, hint_b);
}

/// A hardened index is rejected before the native engine can be invoked:
/// public child derivation on a well-sized key with an index in the hardened
/// range fails as `HardenedIndex`, so no native call ever sees it.
pub proof fn lemma_hardened_index_never_reaches_engine(
    lens: Seq<usize>,
    index: u32,
    hint_a: usize,
    hint_b: usize,
)
    requires
        lens =~= seq![XPUB_SIZE],
        index >= FIRST_HARDENED_INDEX,
    ensures
        prepare_model(Operation::DerivePublic, lens, index, hint_a, hint_b) == Err::<
            crate::bridge::CallPlan,
            CallError,
        >(CallError::HardenedIndex { index }),
{
    reveal_with_fuel(validate_model, 3);
    assert(!index_admits(op_index_rule(Operation::DerivePublic), index));
}

/// A claim of having written more than the allocated capacity is rejected:
/// for every operation whose engine reports a written length, a length above
/// the buffer fails as `CapacityExceeded`.
pub proof fn lemma_overlong_write_rejected(
    convention: ResultConvention,
    encoding: OutputEncoding,
    w: i64,
    buf: Seq<u8>,
)
    requires
        convention == ResultConvention::ExactLen || convention == ResultConvention::BoundedLen,
        w > buf.len(),
    ensures
        finish_model(convention, encoding, NativeOutcome::Written(w), buf) == Err::<
            crate::bridge::OutputModel,
            CallError,
        >(CallError::CapacityExceeded { written: w as u64, capacity: buf.len() as u64 }),
{
}

/// The over-length region is never exposed: whatever the engine reported, a
/// successful call returns exactly a prefix of the allocated buffer — the
/// engine's own bytes, unaltered, and nothing beyond them.
pub proof fn lemma_output_within_allocation(
    convention: ResultConvention,
    encoding: OutputEncoding,
    outcome: NativeOutcome,
    buf: Seq<u8>,
)
    ensures
        finish_model(convention, encoding, outcome, buf) matches Ok(m) ==> m.bytes().len()
            <= buf.len() && m.bytes() == buf.subrange(0, m.bytes().len() as int),
{
    if finish_model(convention, encoding, outcome, buf) matches Ok(m) {
        assert(buf.subrange(0, buf.len() as int) =~= buf);
    }
}

/// A native fault is contained: for every operation it surfaces as the
/// ordinary `NativeFailure` error, never as output.
pub proof fn lemma_fault_contained(
    convention: ResultConvention,
    encoding: OutputEncoding,
    buf: Seq<u8>,
)
    ensures
        finish_model(convention, encoding, NativeOutcome::Fault, buf) == Err::<
            crate::bridge::OutputModel,
            CallError,
        >(CallError::NativeFailure),
{
}

/// An engine report that does not follow the operation's result convention
/// — a status where a length is owed, a flag where a status is owed, and so
/// on — is itself treated as a native failure, never as output.
pub proof fn lemma_misreported_outcome_rejected(
    convention: ResultConvention,
    encoding: OutputEncoding,
    outcome: NativeOutcome,
    buf: Seq<u8>,
)
    requires
        match convention {
            ResultConvention::StatusZero => outcome !is Status,
            ResultConvention::WritesExact => outcome !is Completed,
            ResultConvention::BoolFlag => outcome !is Flag,
            ResultConvention::ExactLen => outcome !is Written,
            ResultConvention::BoundedLen => outcome !is Written,
        },
    ensures
        finish_model(convention, encoding, outcome, buf) == Err::<
            crate::bridge::OutputModel,
            CallError,
        >(CallError::NativeFailure),
{
}

/// Encryption and decryption capacities compose: for a payload of at least
/// one byte, the ciphertext capacity planned by encryption is accepted by
/// decryption, which plans exactly the original payload length back. (A
/// zero-length payload is the one exclusion: its ciphertext is all header
/// and tag, which decryption's minimum-size rule rejects.)
pub proof fn lemma_cipher_capacity_round_trip(
    password_len: usize,
    salt_len: usize,
    nonce_len: usize,
    data_len: usize,
    second_password_len: usize,
)
    requires
        salt_len == SALT_SIZE,
        nonce_len == NONCE_SIZE,
        1 <= data_len,
        data_len + CIPHER_OVERHEAD <= usize::MAX,
    ensures
        ({
            &&& prepare_model(
                Operation::EncryptWithPassword,
                seq![password_len, salt_len, nonce_len, data_len],
                0,
                0,
                0,
            ) matches Ok(encrypt_plan)
            &&& encrypt_plan.capacity == data_len + CIPHER_OVERHEAD
            &&& prepare_model(
                Operation::DecryptWithPassword,
                seq![second_password_len, encrypt_plan.capacity],
                0,
                0,
                0,
            ) matches Ok(decrypt_plan)
            &&& decrypt_plan.capacity == data_len
        }),
{
    reveal_with_fuel(validate_model, 6);
    let ciphertext_len = (data_len + CIPHER_OVERHEAD) as usize;
    assert(ciphertext_len >= MIN_CIPHERTEXT_SIZE);
}

/// An under-hinted batch request is never silently truncated: when the
/// engine reports more bytes than the hinted capacity could hold, the call
/// fails as `CapacityExceeded` — the same judgement for the same report,
/// every time.
pub proof fn lemma_under_hinted_batch_fails(
    params_len: usize,
    address_count: usize,
    w: i64,
    buf: Seq<u8>,
)
    requires
        prepare_model(
            Operation::GenerateAddresses,
            seq![params_len],
            0,
            address_count,
            0,
        ) matches Ok(plan) && buf.len() == plan.capacity,
        w > buf.len(),
    ensures
        prepare_model(
            Operation::GenerateAddresses,
            seq![params_len],
            0,
            address_count,
            0,
        ) matches Ok(plan) && finish_model(
            plan.convention,
            plan.encoding,
            NativeOutcome::Written(w),
            buf,
        ) == Err::<crate::bridge::OutputModel, CallError>(
            CallError::CapacityExceeded { written: w as u64, capacity: buf.len() as u64 },
        ),
{
    reveal_with_fuel(validate_model, 3);
}

} // verus!
