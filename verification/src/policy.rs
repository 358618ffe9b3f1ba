//! Output-capacity policies.
//!
//! Each operation declares, before its native call runs, how large the
//! output buffer must be: the engine has no way to ask for more space
//! mid-call. A policy is either a fixed cryptographic size, an offset of the
//! payload's own length (password-based encryption and decryption), or an
//! over-allocating formula over caller-supplied count hints (batch and
//! transaction operations, whose true output size is data-dependent).

use vstd::prelude::*;

use crate::errors::CallError;

verus! {

/// How the capacity of one operation's output buffer is computed.
#[derive(Clone, Copy, Debug, PartialEq, Eq, Structural)]
pub enum SizePolicy {
    /// The output has a fixed size (keys, signatures).
    Fixed(usize),
    /// The output is the payload plus a fixed header and tag (encryption).
    PayloadPlus(usize),
    /// The output is the payload minus a fixed header and tag (decryption);
    /// a payload not strictly longer than the overhead is rejected.
    PayloadMinus(usize),
    /// The output is bounded by a per-item share for each hinted item plus a
    /// fixed overhead (batch address and transaction operations).
    PerItem { per_item: usize, overhead: usize },
}

/// The capacity a policy yields for a payload of length `payload_len` and
/// count hints `hint_a` and `hint_b`, or the error that rejects the request.
/// Arithmetic is staged exactly as the executable evaluation checks it.
pub open spec fn policy_eval(
    policy: SizePolicy,
    payload_len: usize,
    hint_a: usize,
    hint_b: usize,
) -> Result<usize, CallError> {
    match policy {
        SizePolicy::Fixed(n) => Ok(n),
        SizePolicy::PayloadPlus(overhead) => if payload_len + overhead <= usize::MAX {
            Ok((payload_len + overhead) as usize)
        } else {
            Err(CallError::CapacityOverflow)
        },
        SizePolicy::PayloadMinus(overhead) => if payload_len > overhead {
            Ok((payload_len - overhead) as usize)
        } else {
            Err(
                CallError::InputTooShort {
                    actual: payload_len,
                    minimum: if overhead < usize::MAX {
                        (overhead + 1) as usize
                    } else {
                        usize::MAX
                    },
                },
            )
        },
        SizePolicy::PerItem { per_item, overhead } => if hint_a + hint_b > usize::MAX {
            Err(CallError::CapacityOverflow)
        } else if (hint_a + hint_b) * per_item > usize::MAX {
            Err(CallError::CapacityOverflow)
        } else if (hint_a + hint_b) * per_item + overhead > usize::MAX {
            Err(CallError::CapacityOverflow)
        } else {
            Ok(((hint_a + hint_b) * per_item + overhead) as usize)
        },
    }
}

/// Evaluates a policy. Returns the exact capacity to allocate, or the error
/// that rejects the request before any native call.
pub fn eval_policy(
    policy: &SizePolicy,
    payload_len: usize,
    hint_a: usize,
    hint_b: usize,
) -> (r: Result<usize, CallError>)
    ensures
        r == policy_eval(*policy, payload_len, hint_a, hint_b),
{
    match policy {
        SizePolicy::Fixed(n) => Ok(*n),
        SizePolicy::PayloadPlus(overhead) => match payload_len.checked_add(*overhead) {
            Some(capacity) => Ok(capacity),
            None => Err(CallError::CapacityOverflow),
        },
        SizePolicy::PayloadMinus(overhead) => if payload_len > *overhead {
            Ok(payload_len - *overhead)
        } else {
            let minimum: usize = if *overhead < usize::MAX {
                *overhead + 1
            } else {
                usize::MAX
            };
            Err(CallError::InputTooShort { actual: payload_len, minimum })
        },
        SizePolicy::PerItem { per_item, overhead } => match hint_a.checked_add(hint_b) {
            None => Err(CallError::CapacityOverflow),
            Some(items) => match items.checked_mul(*per_item) {
                None => Err(CallError::CapacityOverflow),
                Some(share) => match share.checked_add(*overhead) {
                    None => Err(CallError::CapacityOverflow),
                    Some(capacity) => Ok(capacity),
                },
            },
        },
    }
}

/// A policy never yields a capacity below its fixed floor: the full payload
/// survives encryption, and every hinted item has its share.
pub proof fn lemma_policy_capacity_floor(
    policy: SizePolicy,
    payload_len: usize,
    hint_a: usize,
    hint_b: usize,
)
    ensures
        policy_eval(policy, payload_len, hint_a, hint_b) matches Ok(capacity) ==> match policy {
            SizePolicy::Fixed(n) => capacity == n,
            SizePolicy::PayloadPlus(overhead) => capacity == payload_len + overhead,
            SizePolicy::PayloadMinus(overhead) => capacity == payload_len - overhead,
            SizePolicy::PerItem { per_item, overhead } => capacity == (hint_a + hint_b) * per_item
                + overhead,
        },
{
}

} // verus!
