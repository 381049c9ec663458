use sig_introspect::errors::RecoverErr;
use sig_introspect::recover::{secp256k1_recover_ins, Secp256k1RecoverArgs};
use sig_introspect::scalars::{
    check_signature_scalars, signature_has_high_s, SECP256K1_HALF_ORDER, SECP256K1_ORDER,
};

/// A real fixture: message, low-s signature, recovery id and the matching
/// 64-byte public key.
fn fixture() -> (Vec<u8>, [u8; 64], u8, [u8; 64]) {
    let msg = b"recoverable message".to_vec();
    let hash = solana_program::keccak::hash(&msg).0;
    let sk = libsecp256k1::SecretKey::parse(&[0x42; 32]).unwrap();
    let message = libsecp256k1::Message::parse(&hash);
    let (sig, rid) = libsecp256k1::sign(&message, &sk);
    let pk = libsecp256k1::PublicKey::from_secret_key(&sk);
    let mut pk64 = [0u8; 64];
    pk64.copy_from_slice(&pk.serialize()[1..65]);
    (msg, sig.serialize(), rid.serialize(), pk64)
}

/// The same fixture with `s` replaced by `n - s` and the recovery id bit
/// flipped: a mathematically valid but high-s (malleable) signature.
fn high_s_fixture() -> (Vec<u8>, [u8; 64], u8, [u8; 64]) {
    let (msg, sig_bytes, rid, pk64) = fixture();
    let parsed = libsecp256k1::Signature::parse_standard(&sig_bytes).unwrap();
    assert!(!parsed.s.is_high(), "signing normalizes to low s");
    let flipped = libsecp256k1::Signature { r: parsed.r, s: -parsed.s };
    (msg, flipped.serialize(), rid ^ 1, pk64)
}

fn args(msg: Vec<u8>, sig: [u8; 64], rid: u8, pk: [u8; 64]) -> Secp256k1RecoverArgs {
    Secp256k1RecoverArgs { public_key: pk, message: msg, signature: sig, recovery_id: rid }
}

#[test]
fn recovery_succeeds_on_matching_fixture() {
    let (msg, sig, rid, pk) = fixture();
    let outcome = secp256k1_recover_ins(args(msg, sig, rid, pk)).expect("fixture must recover");
    assert!(!outcome.high_s_notice);
}

#[test]
fn flipped_public_key_byte_is_rejected() {
    let (msg, sig, rid, mut pk) = fixture();
    pk[0] ^= 1;
    assert_eq!(secp256k1_recover_ins(args(msg, sig, rid, pk)), Err(RecoverErr::InvalidPublicKey));
}

#[test]
fn high_s_signature_is_accepted_with_advisory() {
    let (msg, sig, rid, pk) = fixture();
    let (hmsg, hsig, hrid, hpk) = high_s_fixture();
    assert_ne!(sig.to_vec(), hsig.to_vec());
    let outcome =
        secp256k1_recover_ins(args(hmsg, hsig, hrid, hpk)).expect("high-s must still recover");
    assert!(outcome.high_s_notice);
    // The advisory is visible on the signature alone as well.
    assert!(signature_has_high_s(&hsig));
    assert!(!signature_has_high_s(&sig));
    let _ = (msg, rid, pk);
}

#[test]
fn recovery_id_domain_is_enforced() {
    let (msg, sig, _, pk) = fixture();
    for rid in [4u8, 5, 27, 28, 255] {
        assert_eq!(
            secp256k1_recover_ins(args(msg.clone(), sig, rid, pk)),
            Err(RecoverErr::InvalidRecoveryId)
        );
    }
    for rid in 0u8..=3 {
        let r = secp256k1_recover_ins(args(msg.clone(), sig, rid, pk));
        assert_ne!(r, Err(RecoverErr::InvalidRecoveryId));
        assert_ne!(r, Err(RecoverErr::InvalidSignatureEncoding));
    }
}

#[test]
fn overflowing_scalars_are_invalid_encoding() {
    let (msg, _, rid, pk) = fixture();
    // Both scalars far above the group order.
    let sig = [0xFFu8; 64];
    assert_eq!(
        secp256k1_recover_ins(args(msg.clone(), sig, rid, pk)),
        Err(RecoverErr::InvalidSignatureEncoding)
    );

    // s equal to the order exactly: still out of range.
    let (_, good_sig, _, _) = fixture();
    let mut sig = good_sig;
    sig[32..64].copy_from_slice(&SECP256K1_ORDER);
    assert_eq!(
        secp256k1_recover_ins(args(msg, sig, rid, pk)),
        Err(RecoverErr::InvalidSignatureEncoding)
    );
}

#[test]
fn unrecoverable_signature_fails_recovery() {
    let (msg, _, _, pk) = fixture();
    // r = 0 parses as a standard encoding but no key can be recovered.
    let sig = [0u8; 64];
    assert_eq!(secp256k1_recover_ins(args(msg, sig, 0, pk)), Err(RecoverErr::RecoveryFailed));
}

#[test]
fn scalar_range_checks_are_exact() {
    // Scalars just below the order are a valid encoding.
    let mut sig = [0u8; 64];
    sig[0..32].copy_from_slice(&SECP256K1_ORDER);
    sig[31] -= 1;
    sig[32..64].copy_from_slice(&SECP256K1_ORDER);
    sig[63] -= 1;
    assert!(check_signature_scalars(&sig));

    // A scalar equal to the order is not.
    let mut sig_r_at_order = sig;
    sig_r_at_order[0..32].copy_from_slice(&SECP256K1_ORDER);
    assert!(!check_signature_scalars(&sig_r_at_order));

    // s exactly at half the order counts as high; one below does not.
    let mut sig_half = [0u8; 64];
    sig_half[32..64].copy_from_slice(&SECP256K1_HALF_ORDER);
    assert!(signature_has_high_s(&sig_half));
    sig_half[63] -= 1;
    assert!(!signature_has_high_s(&sig_half));
}
