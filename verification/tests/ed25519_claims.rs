use sig_introspect::ed25519::{
    decode_ed25519, encode_ed25519, verify_ed25519_ix, ED25519_VERIFIER_ID,
};
use sig_introspect::errors::{MismatchField, VerifyError};
use sig_introspect::instructions::{InstructionBatch, RawInstruction};
use sig_introspect::verify_ed25519;

fn sample_pubkey() -> [u8; 32] {
    let mut pk = [0u8; 32];
    for i in 0..32 {
        pk[i] = (i as u8) + 1;
    }
    pk
}

fn sample_sig() -> [u8; 64] {
    let mut sig = [0u8; 64];
    for i in 0..64 {
        sig[i] = 0xA0 ^ (i as u8);
    }
    sig
}

fn sample_msg() -> Vec<u8> {
    b"hello introspection".to_vec()
}

fn sample_instruction() -> RawInstruction {
    RawInstruction {
        program_id: ED25519_VERIFIER_ID,
        data: encode_ed25519(&sample_pubkey(), &sample_msg(), &sample_sig()),
    }
}

#[test]
fn verifier_id_matches_host_constant() {
    assert_eq!(ED25519_VERIFIER_ID, solana_program::ed25519_program::ID.to_bytes());
}

#[test]
fn encode_layout_is_exact() {
    let pk = sample_pubkey();
    let sig = sample_sig();
    let msg = vec![0xDE, 0xAD, 0xBE, 0xEF];
    let data = encode_ed25519(&pk, &msg, &sig);
    let mut expected = vec![
        1u8, 0, 48, 0, 0xFF, 0xFF, 16, 0, 0xFF, 0xFF, 112, 0, 4, 0, 0xFF, 0xFF,
    ];
    expected.extend_from_slice(&pk);
    expected.extend_from_slice(&sig);
    expected.extend_from_slice(&msg);
    assert_eq!(data, expected);
}

#[test]
fn decode_then_reencode_is_identity() {
    let pk = sample_pubkey();
    let sig = sample_sig();
    let msg = sample_msg();
    let data = encode_ed25519(&pk, &msg, &sig);
    let claim = decode_ed25519(&data).expect("canonical encoding must decode");
    assert_eq!(claim.public_key, pk.to_vec());
    assert_eq!(claim.message, msg);
    assert_eq!(claim.signature, sig.to_vec());
    let mut pk2 = [0u8; 32];
    pk2.copy_from_slice(&claim.public_key);
    let mut sig2 = [0u8; 64];
    sig2.copy_from_slice(&claim.signature);
    let reencoded = encode_ed25519(&pk2, &claim.message, &sig2);
    assert_eq!(reencoded, data);
}

#[test]
fn decode_ignores_trailing_bytes() {
    let mut data = encode_ed25519(&sample_pubkey(), &sample_msg(), &sample_sig());
    data.extend_from_slice(&[9, 9, 9, 9]);
    let claim = decode_ed25519(&data).expect("trailing bytes are forward-compatible");
    assert_eq!(claim.message, sample_msg());
}

#[test]
fn decode_rejects_short_buffers() {
    for n in 0..16usize {
        let data = vec![0u8; n];
        assert_eq!(decode_ed25519(&data), Err(VerifyError::MalformedInstructionData));
    }
}

#[test]
fn decode_rejects_out_of_range_offsets() {
    // Far out-of-range public key offset.
    let mut data = encode_ed25519(&sample_pubkey(), &sample_msg(), &sample_sig());
    data[6] = 0xFF;
    data[7] = 0xFF;
    assert_eq!(decode_ed25519(&data), Err(VerifyError::MalformedInstructionData));

    // Signature offset such that offset + 64 exceeds the buffer by one.
    let mut data = encode_ed25519(&sample_pubkey(), &sample_msg(), &sample_sig());
    let sig_off = (data.len() - 63) as u16;
    data[2] = (sig_off % 256) as u8;
    data[3] = (sig_off / 256) as u8;
    assert_eq!(decode_ed25519(&data), Err(VerifyError::MalformedInstructionData));

    // Message length reaching one byte past the end.
    let msg = sample_msg();
    let mut data = encode_ed25519(&sample_pubkey(), &msg, &sample_sig());
    let bad_len = (msg.len() + 1) as u16;
    data[12] = (bad_len % 256) as u8;
    data[13] = (bad_len / 256) as u8;
    assert_eq!(decode_ed25519(&data), Err(VerifyError::MalformedInstructionData));
}

#[test]
fn matching_claim_is_accepted() {
    let ix = sample_instruction();
    assert_eq!(verify_ed25519_ix(&ix, &sample_pubkey(), &sample_msg(), &sample_sig()), Ok(()));
}

#[test]
fn flipped_bit_names_the_field() {
    let ix = sample_instruction();

    let mut pk = sample_pubkey();
    pk[31] ^= 1;
    assert_eq!(
        verify_ed25519_ix(&ix, &pk, &sample_msg(), &sample_sig()),
        Err(VerifyError::SignatureMismatch(MismatchField::PublicKey))
    );

    let mut msg = sample_msg();
    msg[0] ^= 1;
    assert_eq!(
        verify_ed25519_ix(&ix, &sample_pubkey(), &msg, &sample_sig()),
        Err(VerifyError::SignatureMismatch(MismatchField::Message))
    );

    let mut sig = sample_sig();
    sig[63] ^= 1;
    assert_eq!(
        verify_ed25519_ix(&ix, &sample_pubkey(), &sample_msg(), &sig),
        Err(VerifyError::SignatureMismatch(MismatchField::Signature))
    );
}

#[test]
fn public_key_mismatch_reported_before_message() {
    let ix = sample_instruction();
    let mut pk = sample_pubkey();
    pk[0] ^= 0x80;
    let mut msg = sample_msg();
    msg[1] ^= 0x80;
    assert_eq!(
        verify_ed25519_ix(&ix, &pk, &msg, &sample_sig()),
        Err(VerifyError::SignatureMismatch(MismatchField::PublicKey))
    );
}

#[test]
fn wrong_program_is_rejected_before_comparisons() {
    let mut ix = sample_instruction();
    ix.program_id = [7u8; 32];
    // Both the key and the message mismatch too, but program identity wins.
    let mut pk = sample_pubkey();
    pk[0] ^= 1;
    let mut msg = sample_msg();
    msg[0] ^= 1;
    assert_eq!(verify_ed25519_ix(&ix, &pk, &msg, &sample_sig()), Err(VerifyError::WrongProgram));
}

#[test]
fn batch_entry_point_uses_first_instruction() {
    let batch = InstructionBatch { instructions: vec![sample_instruction()] };
    assert_eq!(verify_ed25519(&batch, sample_pubkey(), sample_msg(), sample_sig()), Ok(()));

    let empty = InstructionBatch { instructions: vec![] };
    assert_eq!(
        verify_ed25519(&empty, sample_pubkey(), sample_msg(), sample_sig()),
        Err(VerifyError::InstructionIndexOutOfRange)
    );
}
