//! The fixed byte sizes of the bridge's contracts.
//!
//! The cryptographic sizes are those of the engine's primitives; the
//! per-item bounds are the deliberate over-allocation each variable-output
//! operation uses, since the engine's true output size is data-dependent and
//! unknowable before the call.

use vstd::prelude::*;

verus! {

/// Length in bytes of an extended private key.
pub const XPRV_SIZE: usize = 96;

/// Length in bytes of an extended public key.
pub const XPUB_SIZE: usize = 64;

/// Length in bytes of the seed accepted by seed-based key derivation.
pub const SEED_SIZE: usize = 32;

/// Length in bytes of a signature.
pub const SIGNATURE_SIZE: usize = 64;

/// Length in bytes of the salt consumed by password-based encryption.
pub const SALT_SIZE: usize = 32;

/// Length in bytes of the nonce consumed by password-based encryption.
pub const NONCE_SIZE: usize = 12;

/// Length in bytes of the authentication tag appended by the cipher.
pub const TAG_SIZE: usize = 16;

/// Fixed ciphertext overhead: a ciphertext is `salt || nonce || tag || payload`,
/// so it is exactly this many bytes longer than its plaintext.
pub const CIPHER_OVERHEAD: usize = 60;

/// Capacity allocated for every bounded text operation whose output the
/// engine caps at one page of text.
pub const MAX_OUTPUT_SIZE: usize = 4096;

/// Per-address capacity for batch address generation: one encoded address
/// with its metadata.
pub const ADDRESS_ITEM_SIZE: usize = 131;

/// Fixed overhead of the batch address generation output framing.
pub const ADDRESS_LIST_OVERHEAD: usize = 2;

/// Per-address capacity for batch address checking.
pub const CHECK_ITEM_SIZE: usize = 4096;

/// Per-entry capacity for transaction construction, one per spend input or
/// output.
pub const TX_ITEM_SIZE: usize = 65536;

/// Fixed overhead of a constructed transaction beyond its per-entry share.
pub const TX_OVERHEAD: usize = 66560;

/// Smallest ciphertext that password-based decryption accepts: the fixed
/// header and tag plus at least one payload byte.
pub const MIN_CIPHERTEXT_SIZE: usize = 61;

/// First derivation index of the hardened range, which public derivation
/// must reject.
pub const FIRST_HARDENED_INDEX: u32 = 0x8000_0000;

/// The sizes compose: the cipher overhead is exactly tag, nonce and salt,
/// and the smallest acceptable ciphertext is one byte more.
pub proof fn lemma_cipher_overhead_composed()
    ensures
        CIPHER_OVERHEAD == TAG_SIZE + NONCE_SIZE + SALT_SIZE,
        MIN_CIPHERTEXT_SIZE == CIPHER_OVERHEAD + 1,
{
}

} // verus!
