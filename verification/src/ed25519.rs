//! Binary layout of the Ed25519 verification instruction: decoder, canonical
//! encoder, and the claim verifier for that scheme.
//!
//! The instruction data starts with a 16-byte header of little-endian 16-bit
//! offset/length fields; the header locates a 32-byte public key, a 64-byte
//! signature and a variable-length message inside the same buffer. Trailing
//! bytes after the referenced regions are ignored.

use vstd::prelude::*;

use crate::bytes::{bytes_match, bytes_match_vec, extract_bytes, read_u16_le, u16_le};
use crate::errors::{MismatchField, VerifyError};
use crate::instructions::RawInstruction;

verus! {

/// Identifier of the program trusted to have verified Ed25519 signatures
/// (the base58 form is `Ed25519SigVerify111111111111111111111111111`).
pub const ED25519_VERIFIER_ID: [u8; 32] = [
    0x03, 0x7d, 0x46, 0xd6, 0x7c, 0x93, 0xfb, 0xbe, 0x12, 0xf9, 0x42, 0x8f, 0x83, 0x8d, 0x40,
    0xff, 0x05, 0x70, 0x74, 0x49, 0x27, 0xf4, 0x8a, 0x64, 0xfc, 0xca, 0x70, 0x44, 0x80, 0x00,
    0x00, 0x00,
];

/// Bytes in the fixed header that precedes the payload regions.
pub const ED25519_HEADER_LEN: usize = 16;

/// A decoded Ed25519 signature claim.
#[derive(Clone, Debug, PartialEq, Eq)]
pub struct Ed25519SignatureClaim {
    /// The 32-byte public key the sibling instruction verified against.
    pub public_key: Vec<u8>,
    /// The signed message.
    pub message: Vec<u8>,
    /// The 64-byte signature.
    pub signature: Vec<u8>,
}

/// Mathematical decoder for the Ed25519 instruction layout: yields the
/// `(public key, message, signature)` regions, or `None` when the buffer
/// is shorter than the header or some offset/length pair reaches outside
/// the buffer.
pub open spec fn ed25519_decode_spec(d: Seq<u8>) -> Option<(Seq<u8>, Seq<u8>, Seq<u8>)> {
    if d.len() < ED25519_HEADER_LEN {
        None
    } else {
        let sig_off = u16_le(d[2], d[3]);
        let pk_off = u16_le(d[6], d[7]);
        let msg_off = u16_le(d[10], d[11]);
        let msg_len = u16_le(d[12], d[13]);
        if pk_off + 32 > d.len() || sig_off + 64 > d.len() || msg_off + msg_len > d.len() {
            None
        } else {
            Some(
                (
                    d.subrange(pk_off, pk_off + 32),
                    d.subrange(msg_off, msg_off + msg_len),
                    d.subrange(sig_off, sig_off + 64),
                ),
            )
        }
    }
}

/// Decodes the Ed25519 instruction layout out of `data`, bounds-checking
/// every offset/length pair before slicing.
pub fn decode_ed25519(data: &Vec<u8>) -> (r: Result<Ed25519SignatureClaim, VerifyError>)
    ensures
        match r {
            Ok(c) => ed25519_decode_spec(data@) == Some((c.public_key@, c.message@, c.signature@)),
            Err(e) => {
                &&& ed25519_decode_spec(data@) is None
                &&& e == VerifyError::MalformedInstructionData
            },
        },
{
    let n: usize = data.len();
    if n < ED25519_HEADER_LEN {
        return Err(VerifyError::MalformedInstructionData);
    }
    let sig_off: usize = read_u16_le(data, 2) as usize;
    let pk_off: usize = read_u16_le(data, 6) as usize;
    let msg_off: usize = read_u16_le(data, 10) as usize;
    let msg_len: usize = read_u16_le(data, 12) as usize;
    if pk_off + 32 > n || sig_off + 64 > n || msg_off + msg_len > n {
        return Err(VerifyError::MalformedInstructionData);
    }
    Ok(
        Ed25519SignatureClaim {
            public_key: extract_bytes(data, pk_off, 32),
            message: extract_bytes(data, msg_off, msg_len),
            signature: extract_bytes(data, sig_off, 64),
        },
    )
}

/// The canonical encoding of an Ed25519 claim: a self-referential header
/// (instruction-index fields hold `0xFFFF`, meaning "this instruction"),
/// then the public key at offset 16, the signature at 48 and the message
/// at 112, tightly packed.
pub open spec fn ed25519_encode_spec(pk: Seq<u8>, msg: Seq<u8>, sig: Seq<u8>) -> Seq<u8> {
    seq![
        1u8,
        0u8,
        48u8,
        0u8,
        0xFFu8,
        0xFFu8,
        16u8,
        0u8,
        0xFFu8,
        0xFFu8,
        112u8,
        0u8,
        (msg.len() % 256) as u8,
        ((msg.len() / 256) % 256) as u8,
        0xFFu8,
        0xFFu8,
    ] + pk + sig + msg
}

/// Encodes `(public key, message, signature)` in the canonical layout.
pub fn encode_ed25519(pk: &[u8; 32], msg: &Vec<u8>, sig: &[u8; 64]) -> (r: Vec<u8>)
    requires
        msg@.len() <= 0xFFFF,
    ensures
        r@ == ed25519_encode_spec(pk@, msg@, sig@),
{
    let msg_len: usize = msg.len();
    let mut out: Vec<u8> = Vec::new();
    out.push(1u8);
    out.push(0u8);
    out.push(48u8);
    out.push(0u8);
    out.push(0xFFu8);
    out.push(0xFFu8);
    out.push(16u8);
    out.push(0u8);
    out.push(0xFFu8);
    out.push(0xFFu8);
    out.push(112u8);
    out.push(0u8);
    out.push((msg_len % 256) as u8);
    out.push(((msg_len / 256) % 256) as u8);
    out.push(0xFFu8);
    out.push(0xFFu8);
    let ghost header: Seq<u8> = out@;
    let mut i: usize = 0;
    while i < 32
        invariant
            i <= 32,
            out@ == header + pk@.subrange(0, i as int),
        decreases 32 - i,
    {
        out.push(pk[i]);
        assert(header + pk@.subrange(0, i as int) + seq![pk@[i as int]] =~= header + pk@.subrange(
            0,
            i as int + 1,
        ));
        i = i + 1;
    }
    assert(pk@.subrange(0, 32) =~= pk@);
    let ghost with_pk: Seq<u8> = out@;
    i = 0;
    while i < 64
        invariant
            i <= 64,
            out@ == with_pk + sig@.subrange(0, i as int),
        decreases 64 - i,
    {
        out.push(sig[i]);
        assert(with_pk + sig@.subrange(0, i as int) + seq![sig@[i as int]] =~= with_pk
            + sig@.subrange(0, i as int + 1));
        i = i + 1;
    }
    assert(sig@.subrange(0, 64) =~= sig@);
    let ghost with_sig: Seq<u8> = out@;
    i = 0;
    while i < msg_len
        invariant
            i <= msg_len,
            msg_len == msg@.len(),
            out@ == with_sig + msg@.subrange(0, i as int),
        decreases msg_len - i,
    {
        out.push(msg[i]);
        assert(with_sig + msg@.subrange(0, i as int) + seq![msg@[i as int]] =~= with_sig
            + msg@.subrange(0, i as int + 1));
        i = i + 1;
    }
    assert(msg@.subrange(0, msg_len as int) =~= msg@);
    assert(out@ =~= ed25519_encode_spec(pk@, msg@, sig@));
    out
}

/// The verdict the Ed25519 claim verifier owes for an instruction with
/// the given program identity and data: program identity first, then
/// structural decoding, then field comparisons in the fixed order public
/// key, message, signature.
pub open spec fn ed25519_verdict(
    program_id: Seq<u8>,
    data: Seq<u8>,
    pk: Seq<u8>,
    msg: Seq<u8>,
    sig: Seq<u8>,
) -> Result<(), VerifyError> {
    if program_id != ED25519_VERIFIER_ID@ {
        Err(VerifyError::WrongProgram)
    } else {
        match ed25519_decode_spec(data) {
            None => Err(VerifyError::MalformedInstructionData),
            Some((dec_pk, dec_msg, dec_sig)) => {
                if dec_pk != pk {
                    Err(VerifyError::SignatureMismatch(MismatchField::PublicKey))
                } else if dec_msg != msg {
                    Err(VerifyError::SignatureMismatch(MismatchField::Message))
                } else if dec_sig != sig {
                    Err(VerifyError::SignatureMismatch(MismatchField::Signature))
                } else {
                    Ok(())
                }
            },
        }
    }
}

/// Law: decoding a canonical encoding yields exactly the encoded fields,
/// so re-encoding the decoded fields reproduces the bytes unchanged.
pub proof fn lemma_ed25519_round_trip(pk: Seq<u8>, msg: Seq<u8>, sig: Seq<u8>)
    requires
        pk.len() == 32,
        sig.len() == 64,
        msg.len() <= 0xFFFF,
    ensures
        ed25519_decode_spec(ed25519_encode_spec(pk, msg, sig)) == Some((pk, msg, sig)),
        ({
            let dec = ed25519_decode_spec(ed25519_encode_spec(pk, msg, sig))->Some_0;
            ed25519_encode_spec(dec.0, dec.1, dec.2) == ed25519_encode_spec(pk, msg, sig)
        }),
{
    let d = ed25519_encode_spec(pk, msg, sig);
    assert(d.len() == 112 + msg.len());
    assert(d[2] == 48u8 && d[3] == 0u8);
    assert(d[6] == 16u8 && d[7] == 0u8);
    assert(d[10] == 112u8 && d[11] == 0u8);
    assert(d[12] == (msg.len() % 256) as u8 && d[13] == ((msg.len() / 256) % 256) as u8);
    crate::bytes::lemma_u16_le_split(msg.len());
    assert(u16_le(d[12], d[13]) == msg.len());
    assert(d.subrange(16, 48) =~= pk);
    assert(d.subrange(48, 112) =~= sig);
    assert(d.subrange(112, 112 + msg.len() as int) =~= msg);
}

/// Law: whenever the header is present but some offset/length pair
/// reaches outside the buffer, decoding fails instead of slicing out of
/// range.
pub proof fn lemma_ed25519_decode_bounds(d: Seq<u8>)
    requires
        d.len() >= ED25519_HEADER_LEN,
        u16_le(d[6], d[7]) + 32 > d.len() || u16_le(d[2], d[3]) + 64 > d.len() || u16_le(
            d[10],
            d[11],
        ) + u16_le(d[12], d[13]) > d.len(),
    ensures
        ed25519_decode_spec(d) is None,
{
}

/// Law: a claim whose decoded fields equal the expected ones, issued by
/// the Ed25519 verifier program, is always accepted.
pub proof fn lemma_ed25519_exact_match_succeeds(
    program_id: Seq<u8>,
    data: Seq<u8>,
    pk: Seq<u8>,
    msg: Seq<u8>,
    sig: Seq<u8>,
)
    requires
        program_id == ED25519_VERIFIER_ID@,
        ed25519_decode_spec(data) == Some((pk, msg, sig)),
    ensures
        ed25519_verdict(program_id, data, pk, msg, sig) == Ok::<(), VerifyError>(()),
{
}

/// Law: any difference in an expected field is reported as a mismatch of
/// the first differing field in the fixed order public key, message,
/// signature — a public-key difference wins even when later fields differ
/// too.
pub proof fn lemma_ed25519_first_mismatch_reported(
    program_id: Seq<u8>,
    data: Seq<u8>,
    dec_pk: Seq<u8>,
    dec_msg: Seq<u8>,
    dec_sig: Seq<u8>,
    pk: Seq<u8>,
    msg: Seq<u8>,
    sig: Seq<u8>,
)
    requires
        program_id == ED25519_VERIFIER_ID@,
        ed25519_decode_spec(data) == Some((dec_pk, dec_msg, dec_sig)),
    ensures
        dec_pk != pk ==> ed25519_verdict(program_id, data, pk, msg, sig) == Err::<
            (),
            VerifyError,
        >(VerifyError::SignatureMismatch(MismatchField::PublicKey)),
        dec_pk == pk && dec_msg != msg ==> ed25519_verdict(program_id, data, pk, msg, sig)
            == Err::<(), VerifyError>(VerifyError::SignatureMismatch(MismatchField::Message)),
        dec_pk == pk && dec_msg == msg && dec_sig != sig ==> ed25519_verdict(
            program_id,
            data,
            pk,
            msg,
            sig,
        ) == Err::<(), VerifyError>(VerifyError::SignatureMismatch(MismatchField::Signature)),
{
}

/// Law: an instruction issued by any other program is rejected as
/// `WrongProgram`, before any field of its data is compared.
pub proof fn lemma_ed25519_wrong_program_rejected(
    program_id: Seq<u8>,
    data: Seq<u8>,
    pk: Seq<u8>,
    msg: Seq<u8>,
    sig: Seq<u8>,
)
    requires
        program_id != ED25519_VERIFIER_ID@,
    ensures
        ed25519_verdict(program_id, data, pk, msg, sig) == Err::<(), VerifyError>(
            VerifyError::WrongProgram,
        ),
{
}

/// Checks that `ix` is a well-formed Ed25519 verification instruction for
/// exactly the expected `(public key, message, signature)` triple.
pub fn verify_ed25519_ix(
    ix: &RawInstruction,
    pubkey: &[u8; 32],
    msg: &Vec<u8>,
    sig: &[u8; 64],
) -> (r: Result<(), VerifyError>)
    ensures
        r == ed25519_verdict(ix.program_id@, ix.data@, pubkey@, msg@, sig@),
{
    if !crate::bytes::arrays_match(&ix.program_id, &ED25519_VERIFIER_ID) {
        return Err(VerifyError::WrongProgram);
    }
    let claim = match decode_ed25519(&ix.data) {
        Ok(c) => c,
        Err(e) => {
            return Err(e);
        },
    };
    if !bytes_match(&claim.public_key, pubkey) {
        return Err(VerifyError::SignatureMismatch(MismatchField::PublicKey));
    }
    if !bytes_match_vec(&claim.message, msg) {
        return Err(VerifyError::SignatureMismatch(MismatchField::Message));
    }
    if !bytes_match(&claim.signature, sig) {
        return Err(VerifyError::SignatureMismatch(MismatchField::Signature));
    }
    Ok(())
}

} // verus!
