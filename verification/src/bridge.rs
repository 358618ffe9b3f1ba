//! The call bridge: one linear protocol per host call.
//!
//! A call runs in two verified phases around the one unverified step, the
//! native engine itself:
//!
//! 1. [`prepare`] validates every input buffer's length against the
//!    operation's contract and computes the exact output capacity from its
//!    size policy, before the engine is touched. A rejected request never
//!    reaches the engine.
//! 2. The host layer allocates the output buffer (see [`allocate_output`]),
//!    runs the engine inside its fault barrier with exclusive views over the
//!    buffers, and records what happened as a [`NativeOutcome`]. A fault
//!    caught by the barrier arrives here as [`NativeOutcome::Fault`], an
//!    ordinary value.
//! 3. [`finish`] validates the outcome against the operation's result
//!    convention: a claimed written length must be positive and within the
//!    allocated capacity, and only that prefix of the buffer is ever exposed.
//!
//! Because the engine's behaviour enters only as a `NativeOutcome` argument,
//! every decision of the bridge is verified for every possible engine
//! behaviour, including hostile ones.

use vstd::prelude::*;

use crate::errors::CallError;
use crate::policy::{eval_policy, policy_eval};
use crate::table::{
    check_index, contract_of, index_admits, op_convention, op_encoding, op_index_rule,
    op_input_rules, op_size_policy, validate_inputs, validate_model, Operation, OutputEncoding,
    ResultConvention,
};

verus! {

/// The verified outcome of the preparation phase: the operation, the exact
/// capacity to allocate, and how to judge the engine's report.
#[derive(Clone, Copy, Debug, PartialEq, Eq, Structural)]
pub struct CallPlan {
    /// The operation this plan was prepared for.
    pub op: Operation,
    /// The exact output capacity to allocate before the native call.
    pub capacity: usize,
    /// How the engine reports its result for this operation.
    pub convention: ResultConvention,
    /// How the host sees the output of this operation.
    pub encoding: OutputEncoding,
}

/// What the native engine did, as the host layer's fault barrier saw it.
/// The bridge never trusts this value: every variant is judged against the
/// operation's result convention.
#[derive(Clone, Copy, Debug, PartialEq, Eq, Structural)]
pub enum NativeOutcome {
    /// The engine faulted mid-call; the barrier contained the fault.
    Fault,
    /// The engine returned a status word.
    Status(i32),
    /// The engine returned a success flag.
    Flag(bool),
    /// The engine returned a signed written length.
    Written(i64),
    /// The engine returned normally with nothing to report.
    Completed,
}

/// The host-visible result of one successful call.
#[derive(Debug, PartialEq, Eq)]
pub enum CallOutput {
    /// Raw bytes, returned to the host as a binary buffer.
    Binary(Vec<u8>),
    /// Bytes the host boundary materializes as UTF-8 text. The engine is
    /// trusted to emit valid UTF-8 for its written length; the bytes are not
    /// re-validated here.
    Text(Vec<u8>),
}

/// The mathematical model of a call output.
pub enum OutputModel {
    /// Model of a binary output.
    Binary(Seq<u8>),
    /// Model of a text output.
    Text(Seq<u8>),
}

impl CallOutput {
    /// The model of this output.
    pub open spec fn model(&self) -> OutputModel {
        match self {
            CallOutput::Binary(b) => OutputModel::Binary(b@),
            CallOutput::Text(b) => OutputModel::Text(b@),
        }
    }
}

impl OutputModel {
    /// The bytes of a modelled output.
    pub open spec fn bytes(self) -> Seq<u8> {
        match self {
            OutputModel::Binary(b) => b,
            OutputModel::Text(b) => b,
        }
    }

    /// Whether a modelled output is text.
    pub open spec fn is_text(self) -> bool {
        self is Text
    }
}

/// The payload length of an input list: the last buffer, by the table's
/// convention that a payload-driven policy speaks of the last input.
pub open spec fn payload_len_of(lens: Seq<usize>) -> usize {
    if lens.len() > 0 {
        lens.last()
    } else {
        0
    }
}

/// The preparation phase as a mathematical function: the plan for a request,
/// or the error that rejects it before any native call.
pub open spec fn prepare_model(
    op: Operation,
    lens: Seq<usize>,
    index: u32,
    hint_a: usize,
    hint_b: usize,
) -> Result<CallPlan, CallError>
    recommends
        lens.len() == op_input_rules(op).len(),
{
    match validate_model(op_input_rules(op), lens) {
        Err(e) => Err(e),
        Ok(()) => if !index_admits(op_index_rule(op), index) {
            Err(CallError::HardenedIndex { index })
        } else {
            match policy_eval(op_size_policy(op), payload_len_of(lens), hint_a, hint_b) {
                Err(e) => Err(e),
                Ok(capacity) => Ok(
                    CallPlan {
                        op,
                        capacity,
                        convention: op_convention(op),
                        encoding: op_encoding(op),
                    },
                ),
            }
        },
    }
}

/// Validates a request against the operation table and computes the output
/// capacity. `input_lens` holds the length of each input buffer in call
/// order; `index` is the derivation index of the derivation operations and
/// ignored elsewhere; the hints are the caller-supplied cardinalities of the
/// variable-output operations and ignored elsewhere. Nothing of the native
/// engine runs, or can fault, in this phase.
pub fn prepare(
    op: Operation,
    input_lens: &Vec<usize>,
    index: u32,
    hint_a: usize,
    hint_b: usize,
) -> (r: Result<CallPlan, CallError>)
    requires
        input_lens@.len() == op_input_rules(op).len(),
    ensures
        r == prepare_model(op, input_lens@, index, hint_a, hint_b),
{
    let contract = contract_of(op);
    match validate_inputs(&contract.input_rules, input_lens) {
        Err(e) => Err(e),
        Ok(()) => match check_index(&contract.index_rule, index) {
            Err(e) => Err(e),
            Ok(()) => {
                let payload_len: usize = if input_lens.len() > 0 {
                    input_lens[input_lens.len() - 1]
                } else {
                    0
                };
                match eval_policy(&contract.size_policy, payload_len, hint_a, hint_b) {
                    Err(e) => Err(e),
                    Ok(capacity) => Ok(
                        CallPlan {
                            op,
                            capacity,
                            convention: contract.convention,
                            encoding: contract.encoding,
                        },
                    ),
                }
            },
        },
    }
}

/// Allocates the zero-initialized output buffer of one call, exactly as
/// large as the plan's capacity.
pub fn allocate_output(capacity: usize) -> (v: Vec<u8>)
    ensures
        v@.len() == capacity,
        forall|i: int| 0 <= i < capacity ==> v@[i] == 0u8,
{
    let mut v: Vec<u8> = Vec::new();
    let mut i: usize = 0;
    while i < capacity
        invariant
            0 <= i <= capacity,
            v@.len() == i,
            forall|j: int| 0 <= j < i ==> v@[j] == 0u8,
        decreases capacity - i,
    {
        v.push(0u8);
        i = i + 1;
    }
    v
}

/// Wraps bytes in the operation's encoding, as a model.
pub open spec fn encode_model(encoding: OutputEncoding, bytes: Seq<u8>) -> OutputModel {
    match encoding {
        OutputEncoding::Binary => OutputModel::Binary(bytes),
        OutputEncoding::Text => OutputModel::Text(bytes),
    }
}

/// The completion phase as a mathematical function, over the buffer the
/// engine wrote into (`buf`, of the allocated capacity) and its reported
/// outcome: the output the host sees, or the error that rejects the call.
pub open spec fn finish_model(
    convention: ResultConvention,
    encoding: OutputEncoding,
    outcome: NativeOutcome,
    buf: Seq<u8>,
) -> Result<OutputModel, CallError> {
    match convention {
        ResultConvention::StatusZero => match outcome {
            NativeOutcome::Status(s) => if s == 0 {
                Ok(encode_model(encoding, buf))
            } else {
                Err(CallError::NativeFailure)
            },
            _ => Err(CallError::NativeFailure),
        },
        ResultConvention::WritesExact => match outcome {
            NativeOutcome::Completed => Ok(encode_model(encoding, buf)),
            _ => Err(CallError::NativeFailure),
        },
        ResultConvention::BoolFlag => match outcome {
            NativeOutcome::Flag(ok) => if ok {
                Ok(encode_model(encoding, buf))
            } else {
                Err(CallError::DerivationImpossible)
            },
            _ => Err(CallError::NativeFailure),
        },
        ResultConvention::ExactLen => match outcome {
            NativeOutcome::Written(w) => if w <= 0 {
                Err(CallError::NativeFailure)
            } else if w > buf.len() {
                Err(CallError::CapacityExceeded { written: w as u64, capacity: buf.len() as u64 })
            } else if w < buf.len() {
                Err(CallError::NativeFailure)
            } else {
                Ok(encode_model(encoding, buf))
            },
            _ => Err(CallError::NativeFailure),
        },
        ResultConvention::BoundedLen => match outcome {
            NativeOutcome::Written(w) => if w <= 0 {
                Err(CallError::NativeFailure)
            } else if w > buf.len() {
                Err(CallError::CapacityExceeded { written: w as u64, capacity: buf.len() as u64 })
            } else {
                Ok(encode_model(encoding, buf.subrange(0, w as int)))
            },
            _ => Err(CallError::NativeFailure),
        },
    }
}

/// The model of a finished call's result.
pub open spec fn result_model(r: Result<CallOutput, CallError>) -> Result<OutputModel, CallError> {
    match r {
        Ok(o) => Ok(o.model()),
        Err(e) => Err(e),
    }
}

/// Judges the engine's outcome against the plan and materializes the output.
/// `buffer` is the output buffer the engine wrote into, of exactly the
/// allocated capacity. A fault, a bad status, a convention the engine did
/// not follow, or a written length out of contract is rejected; on success
/// only the bytes the engine legitimately wrote are exposed.
pub fn finish(plan: &CallPlan, outcome: NativeOutcome, buffer: Vec<u8>) -> (r: Result<
    CallOutput,
    CallError,
>)
    requires
        buffer@.len() == plan.capacity,
    ensures
        result_model(r) == finish_model(plan.convention, plan.encoding, outcome, buffer@),
{
    match plan.convention {
        ResultConvention::StatusZero => match outcome {
            NativeOutcome::Status(s) => if s == 0 {
                Ok(encode(plan.encoding, buffer))
            } else {
                Err(CallError::NativeFailure)
            },
            _ => Err(CallError::NativeFailure),
        },
        ResultConvention::WritesExact => match outcome {
            NativeOutcome::Completed => Ok(encode(plan.encoding, buffer)),
            _ => Err(CallError::NativeFailure),
        },
        ResultConvention::BoolFlag => match outcome {
            NativeOutcome::Flag(ok) => if ok {
                Ok(encode(plan.encoding, buffer))
            } else {
                Err(CallError::DerivationImpossible)
            },
            _ => Err(CallError::NativeFailure),
        },
        ResultConvention::ExactLen => match outcome {
            NativeOutcome::Written(w) => if w <= 0 {
                Err(CallError::NativeFailure)
            } else {
                let written = w as u64;
                let capacity = buffer.len() as u64;
                if written > capacity {
                    Err(CallError::CapacityExceeded { written, capacity })
                } else if written < capacity {
                    Err(CallError::NativeFailure)
                } else {
                    Ok(encode(plan.encoding, buffer))
                }
            },
            _ => Err(CallError::NativeFailure),
        },
        ResultConvention::BoundedLen => match outcome {
            NativeOutcome::Written(w) => if w <= 0 {
                Err(CallError::NativeFailure)
            } else {
                let written = w as u64;
                let capacity = buffer.len() as u64;
                if written > capacity {
                    Err(CallError::CapacityExceeded { written, capacity })
                } else {
                    let mut kept = buffer;
                    kept.truncate(written as usize);
                    Ok(encode(plan.encoding, kept))
                }
            },
            _ => Err(CallError::NativeFailure),
        },
    }
}

/// Wraps bytes in the operation's encoding.
fn encode(encoding: OutputEncoding, bytes: Vec<u8>) -> (o: CallOutput)
    ensures
        o.model() == encode_model(encoding, bytes@),
{
    match encoding {
        OutputEncoding::Binary => CallOutput::Binary(bytes),
        OutputEncoding::Text => CallOutput::Text(bytes),
    }
}

} // verus!
