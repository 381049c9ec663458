//! Signature verification by instruction introspection.
//!
//! The library checks that a sibling instruction in the same atomic batch
//! was issued by a known signature-verification program and carries exactly
//! the public key, message and signature the caller claims; it also offers a
//! standalone secp256k1 public-key-recovery check.

use vstd::prelude::*;

pub mod bytes;
pub mod ed25519;
pub mod errors;
pub mod instructions;
pub mod recover;
pub mod scalars;
pub mod secp256k1;

use crate::ed25519::{ed25519_verdict, verify_ed25519_ix};
use crate::errors::VerifyError;
use crate::instructions::InstructionBatch;
use crate::secp256k1::{secp256k1_verdict, verify_secp256k1_ix};

verus! {

/// Confirms that the first instruction of the batch is an Ed25519
/// verification instruction for exactly this `(public key, message,
/// signature)` triple. Success means the host already verified that
/// signature; this function itself performs no curve arithmetic.
pub fn verify_ed25519(
    batch: &InstructionBatch,
    pubkey: [u8; 32],
    msg: Vec<u8>,
    sig: [u8; 64],
) -> (r: Result<(), VerifyError>)
    ensures
        batch.instructions@.len() == 0 ==> r == Err::<(), VerifyError>(
            VerifyError::InstructionIndexOutOfRange,
        ),
        batch.instructions@.len() > 0 ==> r == ed25519_verdict(
            batch.instructions@[0].program_id@,
            batch.instructions@[0].data@,
            pubkey@,
            msg@,
            sig@,
        ),
{
    let ix = match batch.get(0) {
        Ok(ix) => ix,
        Err(e) => {
            return Err(e);
        },
    };
    verify_ed25519_ix(ix, &pubkey, &msg, &sig)
}

/// Confirms that the first instruction of the batch is a Secp256k1
/// verification instruction for exactly this `(address, message,
/// signature, recovery id)` quadruple.
pub fn secp256k1_verify_ins(
    batch: &InstructionBatch,
    eth_address: [u8; 20],
    msg: Vec<u8>,
    sig: [u8; 64],
    recovery_id: u8,
) -> (r: Result<(), VerifyError>)
    ensures
        batch.instructions@.len() == 0 ==> r == Err::<(), VerifyError>(
            VerifyError::InstructionIndexOutOfRange,
        ),
        batch.instructions@.len() > 0 ==> r == secp256k1_verdict(
            batch.instructions@[0].program_id@,
            batch.instructions@[0].data@,
            eth_address@,
            msg@,
            sig@,
            recovery_id,
        ),
{
    let ix = match batch.get(0) {
        Ok(ix) => ix,
        Err(e) => {
            return Err(e);
        },
    };
    verify_secp256k1_ix(ix, &eth_address, &msg, &sig, recovery_id)
}

} // verus!
