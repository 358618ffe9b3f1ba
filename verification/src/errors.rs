//! The error taxonomy of the bridge.
//!
//! Every failure of one host call resolves to exactly one of these values.
//! The first four variants are detected before the native engine runs and are
//! always recoverable by the caller supplying correct input; the remaining
//! variants describe what the engine (or the host boundary) did.

use vstd::prelude::*;

verus! {

/// The single error type of the bridge. No call ever returns a partial
/// result: it yields either its full output or one `CallError`.
#[derive(Clone, Copy, Debug, PartialEq, Eq, Structural)]
pub enum CallError {
    /// An input buffer's length does not match the fixed length its
    /// operation declares. Detected before the native call.
    WrongInputSize { actual: usize, expected: usize },
    /// An input buffer is shorter than the minimum its operation declares.
    /// Detected before the native call.
    InputTooShort { actual: usize, minimum: usize },
    /// A public-key derivation was requested with a hardened index, which
    /// only a private key can perform. Detected before the native call.
    HardenedIndex { index: u32 },
    /// The output-capacity formula does not fit in `usize` for the supplied
    /// count hints. Detected before the native call.
    CapacityOverflow,
    /// The native engine faulted, signalled a bad status, or reported a
    /// written length that is zero, negative, or short of its contract.
    NativeFailure,
    /// The requested child public key cannot be derived; the engine reported
    /// this as a distinct, expected condition rather than a fault.
    DerivationImpossible,
    /// The native engine claimed to have written more bytes than the bridge
    /// allocated. The over-length region is never exposed.
    CapacityExceeded { written: u64, capacity: u64 },
    /// The host boundary could not materialize the output value (for text
    /// operations, the host-side string construction step). Produced by the
    /// host layer, never by the verified bridge itself.
    EncodingFailed,
}

impl CallError {
    /// True of the variants that input validation produces before the native
    /// engine is ever invoked.
    pub open spec fn is_input_error(self) -> bool {
        match self {
            CallError::WrongInputSize { .. } => true,
            CallError::InputTooShort { .. } => true,
            CallError::HardenedIndex { .. } => true,
            CallError::CapacityOverflow => true,
            _ => false,
        }
    }
}

} // verus!
