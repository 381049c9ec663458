//! Error taxonomy for claim verification and key recovery.

use vstd::prelude::*;

verus! {

/// Which decoded field was the first to differ from the caller's
/// expectation. Fields are always compared in a fixed order, so the
/// reported field is deterministic.
#[derive(Clone, Copy, Debug, PartialEq, Eq, Structural)]
pub enum MismatchField {
    /// The 32-byte Ed25519 public key.
    PublicKey,
    /// The 20-byte Ethereum-style address of the Secp256k1 variant.
    Address,
    /// The variable-length message.
    Message,
    /// The 64-byte signature.
    Signature,
    /// The recovery-id byte of the Secp256k1 variant.
    RecoveryId,
}

/// Failures of the introspection-based claim verifiers.
#[derive(Clone, Copy, Debug, PartialEq, Eq, Structural)]
pub enum VerifyError {
    /// The requested instruction index lies beyond the batch.
    InstructionIndexOutOfRange,
    /// The sibling instruction was not issued by the expected
    /// verification program.
    WrongProgram,
    /// The instruction data is too short for its header, or an
    /// offset/length pair points outside the buffer.
    MalformedInstructionData,
    /// A decoded field differs from the expected value; names the first
    /// mismatching field in comparison order.
    SignatureMismatch(MismatchField),
    /// A recovery id outside `0..=3` was supplied.
    InvalidRecoveryId,
}

/// Failures of the standalone public-key-recovery check.
#[derive(Clone, Copy, Debug, PartialEq, Eq, Structural)]
pub enum RecoverErr {
    /// The 64 bytes are not a standard `(r, s)` scalar pair.
    InvalidSignatureEncoding,
    /// A recovery id outside `0..=3` was supplied.
    InvalidRecoveryId,
    /// The recovery primitive could not produce a public key.
    RecoveryFailed,
    /// The recovered public key differs from the expected one.
    InvalidPublicKey,
}

} // verus!
