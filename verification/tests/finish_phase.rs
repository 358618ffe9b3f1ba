//! Tests of the completion phase: outcome judgement and output exposure.

use wallet_bridge::bridge::{allocate_output, finish, CallPlan, CallOutput, NativeOutcome};
use wallet_bridge::errors::CallError;
use wallet_bridge::table::{Operation, OutputEncoding, ResultConvention};

fn text_plan(capacity: usize) -> CallPlan {
    CallPlan {
        op: Operation::NewAccount,
        capacity,
        convention: ResultConvention::BoundedLen,
        encoding: OutputEncoding::Text,
    }
}

fn binary_exact_plan(capacity: usize) -> CallPlan {
    CallPlan {
        op: Operation::EncryptWithPassword,
        capacity,
        convention: ResultConvention::ExactLen,
        encoding: OutputEncoding::Binary,
    }
}

#[test]
fn allocate_output_is_zeroed_and_sized() {
    let buf = allocate_output(5);
    assert_eq!(buf, vec![0u8; 5]);
    assert!(allocate_output(0).is_empty());
}

#[test]
fn fault_is_contained_for_every_convention() {
    for convention in [
        ResultConvention::StatusZero,
        ResultConvention::WritesExact,
        ResultConvention::BoolFlag,
        ResultConvention::ExactLen,
        ResultConvention::BoundedLen,
    ] {
        let plan = CallPlan {
            op: Operation::NewAccount,
            capacity: 4,
            convention,
            encoding: OutputEncoding::Binary,
        };
        let r = finish(&plan, NativeOutcome::Fault, allocate_output(4));
        assert_eq!(r, Err(CallError::NativeFailure));
    }
}

#[test]
fn status_zero_returns_the_whole_buffer() {
    let plan = CallPlan {
        op: Operation::FromEnhancedEntropy,
        capacity: 3,
        convention: ResultConvention::StatusZero,
        encoding: OutputEncoding::Binary,
    };
    let buffer = vec![7u8, 8, 9];
    let r = finish(&plan, NativeOutcome::Status(0), buffer.clone());
    assert_eq!(r, Ok(CallOutput::Binary(buffer)));
    let r = finish(&plan, NativeOutcome::Status(-1), vec![7u8, 8, 9]);
    assert_eq!(r, Err(CallError::NativeFailure));
    let r = finish(&plan, NativeOutcome::Status(2), vec![7u8, 8, 9]);
    assert_eq!(r, Err(CallError::NativeFailure));
}

#[test]
fn bool_flag_distinguishes_impossible_derivation() {
    let plan = CallPlan {
        op: Operation::DerivePublic,
        capacity: 2,
        convention: ResultConvention::BoolFlag,
        encoding: OutputEncoding::Binary,
    };
    let r = finish(&plan, NativeOutcome::Flag(true), vec![1u8, 2]);
    assert_eq!(r, Ok(CallOutput::Binary(vec![1u8, 2])));
    let r = finish(&plan, NativeOutcome::Flag(false), vec![1u8, 2]);
    assert_eq!(r, Err(CallError::DerivationImpossible));
}

#[test]
fn exact_len_accepts_only_the_full_capacity() {
    let plan = binary_exact_plan(4);
    let buffer = vec![1u8, 2, 3, 4];
    let r = finish(&plan, NativeOutcome::Written(4), buffer.clone());
    assert_eq!(r, Ok(CallOutput::Binary(buffer)));
    let r = finish(&plan, NativeOutcome::Written(3), vec![1u8, 2, 3, 4]);
    assert_eq!(r, Err(CallError::NativeFailure));
    let r = finish(&plan, NativeOutcome::Written(0), vec![1u8, 2, 3, 4]);
    assert_eq!(r, Err(CallError::NativeFailure));
    let r = finish(&plan, NativeOutcome::Written(-1), vec![1u8, 2, 3, 4]);
    assert_eq!(r, Err(CallError::NativeFailure));
    let r = finish(&plan, NativeOutcome::Written(5), vec![1u8, 2, 3, 4]);
    assert_eq!(r, Err(CallError::CapacityExceeded { written: 5, capacity: 4 }));
}

#[test]
fn bounded_len_exposes_only_the_written_prefix() {
    let plan = text_plan(6);
    let buffer = vec![b'h', b'e', b'l', b'l', b'o', 0];
    let r = finish(&plan, NativeOutcome::Written(5), buffer);
    assert_eq!(r, Ok(CallOutput::Text(b"hello".to_vec())));
    // The whole buffer is also a legitimate prefix.
    let plan = text_plan(2);
    let r = finish(&plan, NativeOutcome::Written(2), vec![b'o', b'k']);
    assert_eq!(r, Ok(CallOutput::Text(b"ok".to_vec())));
}

#[test]
fn bounded_len_rejects_overlong_claims() {
    let plan = text_plan(4);
    let r = finish(&plan, NativeOutcome::Written(5), allocate_output(4));
    assert_eq!(r, Err(CallError::CapacityExceeded { written: 5, capacity: 4 }));
    let r = finish(&plan, NativeOutcome::Written(i64::MAX), allocate_output(4));
    assert_eq!(
        r,
        Err(CallError::CapacityExceeded { written: i64::MAX as u64, capacity: 4 })
    );
}

#[test]
fn bounded_len_rejects_empty_and_negative_claims() {
    let plan = text_plan(4);
    let r = finish(&plan, NativeOutcome::Written(0), allocate_output(4));
    assert_eq!(r, Err(CallError::NativeFailure));
    let r = finish(&plan, NativeOutcome::Written(-3), allocate_output(4));
    assert_eq!(r, Err(CallError::NativeFailure));
}

#[test]
fn misreported_outcomes_are_native_failures() {
    // An engine answering with the wrong kind of report is judged as failed,
    // whatever it claims.
    let plan = text_plan(4);
    for outcome in [
        NativeOutcome::Completed,
        NativeOutcome::Status(0),
        NativeOutcome::Flag(true),
    ] {
        let r = finish(&plan, outcome, allocate_output(4));
        assert_eq!(r, Err(CallError::NativeFailure));
    }
    let plan = CallPlan {
        op: Operation::FromSeed,
        capacity: 4,
        convention: ResultConvention::WritesExact,
        encoding: OutputEncoding::Binary,
    };
    let r = finish(&plan, NativeOutcome::Written(4), allocate_output(4));
    assert_eq!(r, Err(CallError::NativeFailure));
    let r = finish(&plan, NativeOutcome::Completed, vec![9u8, 9, 9, 9]);
    assert_eq!(r, Ok(CallOutput::Binary(vec![9u8, 9, 9, 9])));
}
