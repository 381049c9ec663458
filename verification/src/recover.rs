//! Standalone recoverable-signature check: hash the message, recover the
//! signer's public key from the signature and recovery id, and compare it
//! to the expected key.

use vstd::prelude::*;

use crate::errors::RecoverErr;
use crate::scalars::{
    check_signature_scalars, sig_s_is_high, sig_scalars_valid, signature_has_high_s,
};

verus! {

/// The 32-byte Keccak-256 digest of a byte string.
pub uninterp spec fn keccak256_of(message: Seq<u8>) -> Seq<u8>;

/// The public key that secp256k1 ECDSA recovery yields for a message hash,
/// recovery id and 64-byte signature, or `None` when recovery fails.
pub uninterp spec fn secp256k1_recovered_key(
    hash: Seq<u8>,
    recovery_id: u8,
    signature: Seq<u8>,
) -> Option<Seq<u8>>;

/// Relies on `solana_program::keccak::hash`: the Keccak-256 digest of the
/// input, a function of the bytes alone.
#[verifier::external_body]
fn keccak256(message: &Vec<u8>) -> (r: [u8; 32])
    ensures
        r@ == keccak256_of(message@),
{
    solana_program::keccak::hash(message.as_slice()).0
}

/// Relies on `solana_program::secp256k1_recover::secp256k1_recover`:
/// ECDSA public-key recovery over secp256k1, a function of the hash, the
/// recovery id and the signature alone; it returns an error exactly when
/// it cannot produce a key for those inputs.
#[verifier::external_body]
fn recover_public_key(hash: &[u8; 32], recovery_id: u8, signature: &[u8; 64]) -> (r: Option<
    [u8; 64],
>)
    ensures
        r is Some <==> secp256k1_recovered_key(hash@, recovery_id, signature@) is Some,
        r matches Some(pk) ==> Some(pk@) == secp256k1_recovered_key(hash@, recovery_id, signature@),
{
    match solana_program::secp256k1_recover::secp256k1_recover(hash, recovery_id, signature) {
        Ok(pk) => Some(pk.0),
        Err(_) => None,
    }
}

/// Caller-supplied arguments of the recovery check.
#[derive(Clone)]
pub struct Secp256k1RecoverArgs {
    /// The expected 64-byte uncompressed public key (without the leading
    /// format byte).
    pub public_key: [u8; 64],
    /// The signed message.
    pub message: Vec<u8>,
    /// The 64-byte `(r, s)` signature.
    pub signature: [u8; 64],
    /// The recovery id, `0..=3`.
    pub recovery_id: u8,
}

/// What a successful recovery check reports back: the advisory notice for
/// a high-`s` (malleable but valid) signature. The caller decides whether
/// to log it; it never fails the check.
#[derive(Clone, Copy, Debug, PartialEq, Eq, Structural)]
pub struct RecoverOutcome {
    /// True when the signature's `s` scalar lies in the high half of the
    /// group order.
    pub high_s_notice: bool,
}

/// The verdict the recovery check owes: the signature bytes must be a
/// standard `(r, s)` encoding, the recovery id must lie in `0..=3`, the
/// recovery primitive must yield a key, and that key must equal the
/// expected one; success carries the high-`s` advisory.
pub open spec fn recover_verdict(
    public_key: Seq<u8>,
    message: Seq<u8>,
    signature: Seq<u8>,
    recovery_id: u8,
) -> Result<bool, RecoverErr> {
    if !sig_scalars_valid(signature) {
        Err(RecoverErr::InvalidSignatureEncoding)
    } else if recovery_id > 3 {
        Err(RecoverErr::InvalidRecoveryId)
    } else {
        match secp256k1_recovered_key(keccak256_of(message), recovery_id, signature) {
            None => Err(RecoverErr::RecoveryFailed),
            Some(k) => {
                if k != public_key {
                    Err(RecoverErr::InvalidPublicKey)
                } else {
                    Ok(sig_s_is_high(signature))
                }
            },
        }
    }
}

/// Law: a recovery id outside `0..=3` is rejected as `InvalidRecoveryId`
/// once the signature encoding is accepted; one inside the domain is never
/// rejected for its value.
pub proof fn lemma_recover_recovery_id_domain(
    public_key: Seq<u8>,
    message: Seq<u8>,
    signature: Seq<u8>,
    recovery_id: u8,
)
    ensures
        sig_scalars_valid(signature) && recovery_id > 3 ==> recover_verdict(
            public_key,
            message,
            signature,
            recovery_id,
        ) == Err::<bool, RecoverErr>(RecoverErr::InvalidRecoveryId),
        recovery_id <= 3 ==> recover_verdict(public_key, message, signature, recovery_id) != Err::<
            bool,
            RecoverErr,
        >(RecoverErr::InvalidRecoveryId),
{
}

/// Law: a high `s` scalar is advisory only — the check accepts exactly
/// when the encoding is standard, the recovery id lies in `0..=3` and the
/// recovered key equals the expected one, whether or not `s` is high.
pub proof fn lemma_high_s_is_advisory_only(
    public_key: Seq<u8>,
    message: Seq<u8>,
    signature: Seq<u8>,
    recovery_id: u8,
)
    ensures
        (recover_verdict(public_key, message, signature, recovery_id) is Ok) == (
        sig_scalars_valid(signature) && recovery_id <= 3 && secp256k1_recovered_key(
            keccak256_of(message),
            recovery_id,
            signature,
        ) == Some(public_key)),
{
}

/// Hashes the message with Keccak-256, recovers the signer's public key
/// from the signature and recovery id, and compares it byte-exactly to
/// the expected key. A high-`s` signature is accepted and only flagged in
/// the outcome.
pub fn secp256k1_recover_ins(args: Secp256k1RecoverArgs) -> (r: Result<RecoverOutcome, RecoverErr>)
    ensures
        match r {
            Ok(o) => recover_verdict(args.public_key@, args.message@, args.signature@, args.recovery_id)
                == Ok::<bool, RecoverErr>(o.high_s_notice),
            Err(e) => recover_verdict(
                args.public_key@,
                args.message@,
                args.signature@,
                args.recovery_id,
            ) == Err::<bool, RecoverErr>(e),
        },
{
    if !check_signature_scalars(&args.signature) {
        return Err(RecoverErr::InvalidSignatureEncoding);
    }
    let high_s = signature_has_high_s(&args.signature);
    if args.recovery_id > 3 {
        return Err(RecoverErr::InvalidRecoveryId);
    }
    let hash = keccak256(&args.message);
    let recovered = match recover_public_key(&hash, args.recovery_id, &args.signature) {
        Some(pk) => pk,
        None => {
            return Err(RecoverErr::RecoveryFailed);
        },
    };
    if !crate::bytes::arrays_match(&recovered, &args.public_key) {
        return Err(RecoverErr::InvalidPublicKey);
    }
    Ok(RecoverOutcome { high_s_notice: high_s })
}

} // verus!
