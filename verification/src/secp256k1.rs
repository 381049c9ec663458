//! Binary layout of the Secp256k1 verification instruction: decoder,
//! canonical encoder, and the claim verifier for that scheme.
//!
//! The instruction data starts with a 12-byte header (a count byte, then
//! little-endian 16-bit offset/length fields interleaved with one-byte
//! instruction indices); the header locates a 20-byte Ethereum-style
//! address, a 64-byte signature followed by one recovery-id byte, and a
//! variable-length message. Trailing bytes are ignored.

use vstd::prelude::*;

use crate::bytes::{bytes_match, bytes_match_vec, extract_bytes, read_u16_le, u16_le};
use crate::errors::{MismatchField, VerifyError};
use crate::instructions::RawInstruction;

verus! {

/// Identifier of the program trusted to have verified Secp256k1 signatures
/// (the base58 form is `KeccakSecp256k11111111111111111111111111111`).
pub const SECP256K1_VERIFIER_ID: [u8; 32] = [
    0x04, 0xc6, 0xfc, 0x20, 0xf0, 0x50, 0xcc, 0xf0, 0x55, 0x84, 0xd7, 0x21, 0x1c, 0x9f, 0x8c,
    0xf5, 0x9e, 0xc1, 0x47, 0x85, 0xbb, 0x16, 0x6a, 0x1e, 0x28, 0x30, 0xe8, 0x12, 0x20, 0x00,
    0x00, 0x00,
];

/// Bytes in the fixed header that precedes the payload regions.
pub const SECP256K1_HEADER_LEN: usize = 12;

/// A decoded Secp256k1 signature claim.
#[derive(Clone, Debug, PartialEq, Eq)]
pub struct Secp256k1SignatureClaim {
    /// The 20-byte Ethereum-style address derived from the signer's key.
    pub eth_address: Vec<u8>,
    /// The signed message.
    pub message: Vec<u8>,
    /// The 64-byte signature.
    pub signature: Vec<u8>,
    /// The recovery-id byte stored right after the signature.
    pub recovery_id: u8,
}

/// Mathematical decoder for the Secp256k1 instruction layout: yields the
/// `(address, message, signature, recovery id)` fields, or `None` when the
/// buffer is shorter than the header or some offset/length pair reaches
/// outside the buffer.
pub open spec fn secp256k1_decode_spec(d: Seq<u8>) -> Option<(Seq<u8>, Seq<u8>, Seq<u8>, u8)> {
    if d.len() < SECP256K1_HEADER_LEN {
        None
    } else {
        let sig_off = u16_le(d[1], d[2]);
        let addr_off = u16_le(d[4], d[5]);
        let msg_off = u16_le(d[7], d[8]);
        let msg_len = u16_le(d[9], d[10]);
        if addr_off + 20 > d.len() || sig_off + 65 > d.len() || msg_off + msg_len > d.len() {
            None
        } else {
            Some(
                (
                    d.subrange(addr_off, addr_off + 20),
                    d.subrange(msg_off, msg_off + msg_len),
                    d.subrange(sig_off, sig_off + 64),
                    d[sig_off + 64],
                ),
            )
        }
    }
}

/// Decodes the Secp256k1 instruction layout out of `data`, bounds-checking
/// every offset/length pair before slicing.
pub fn decode_secp256k1(data: &Vec<u8>) -> (r: Result<Secp256k1SignatureClaim, VerifyError>)
    ensures
        match r {
            Ok(c) => secp256k1_decode_spec(data@) == Some(
                (c.eth_address@, c.message@, c.signature@, c.recovery_id),
            ),
            Err(e) => {
                &&& secp256k1_decode_spec(data@) is None
                &&& e == VerifyError::MalformedInstructionData
            },
        },
{
    let n: usize = data.len();
    if n < SECP256K1_HEADER_LEN {
        return Err(VerifyError::MalformedInstructionData);
    }
    let sig_off: usize = read_u16_le(data, 1) as usize;
    let addr_off: usize = read_u16_le(data, 4) as usize;
    let msg_off: usize = read_u16_le(data, 7) as usize;
    let msg_len: usize = read_u16_le(data, 9) as usize;
    if addr_off + 20 > n || sig_off + 65 > n || msg_off + msg_len > n {
        return Err(VerifyError::MalformedInstructionData);
    }
    Ok(
        Secp256k1SignatureClaim {
            eth_address: extract_bytes(data, addr_off, 20),
            message: extract_bytes(data, msg_off, msg_len),
            signature: extract_bytes(data, sig_off, 64),
            recovery_id: data[sig_off + 64],
        },
    )
}

/// The canonical encoding of a Secp256k1 claim: a self-referential header
/// (instruction-index bytes hold 0, meaning the instruction itself), then
/// the address at offset 12, the signature at 32, the recovery id at 96
/// and the message at 97, tightly packed.
pub open spec fn secp256k1_encode_spec(
    addr: Seq<u8>,
    msg: Seq<u8>,
    sig: Seq<u8>,
    recovery_id: u8,
) -> Seq<u8> {
    seq![
        1u8,
        32u8,
        0u8,
        0u8,
        12u8,
        0u8,
        0u8,
        97u8,
        0u8,
        (msg.len() % 256) as u8,
        ((msg.len() / 256) % 256) as u8,
        0u8,
    ] + addr + sig + seq![recovery_id] + msg
}

/// Encodes `(address, message, signature, recovery id)` in the canonical
/// layout.
pub fn encode_secp256k1(
    addr: &[u8; 20],
    msg: &Vec<u8>,
    sig: &[u8; 64],
    recovery_id: u8,
) -> (r: Vec<u8>)
    requires
        msg@.len() <= 0xFFFF,
    ensures
        r@ == secp256k1_encode_spec(addr@, msg@, sig@, recovery_id),
{
    let msg_len: usize = msg.len();
    let mut out: Vec<u8> = Vec::new();
    out.push(1u8);
    out.push(32u8);
    out.push(0u8);
    out.push(0u8);
    out.push(12u8);
    out.push(0u8);
    out.push(0u8);
    out.push(97u8);
    out.push(0u8);
    out.push((msg_len % 256) as u8);
    out.push(((msg_len / 256) % 256) as u8);
    out.push(0u8);
    let ghost header: Seq<u8> = out@;
    let mut i: usize = 0;
    while i < 20
        invariant
            i <= 20,
            out@ == header + addr@.subrange(0, i as int),
        decreases 20 - i,
    {
        out.push(addr[i]);
        assert(header + addr@.subrange(0, i as int) + seq![addr@[i as int]] =~= header
            + addr@.subrange(0, i as int + 1));
        i = i + 1;
    }
    assert(addr@.subrange(0, 20) =~= addr@);
    let ghost with_addr: Seq<u8> = out@;
    i = 0;
    while i < 64
        invariant
            i <= 64,
            out@ == with_addr + sig@.subrange(0, i as int),
        decreases 64 - i,
    {
        out.push(sig[i]);
        assert(with_addr + sig@.subrange(0, i as int) + seq![sig@[i as int]] =~= with_addr
            + sig@.subrange(0, i as int + 1));
        i = i + 1;
    }
    assert(sig@.subrange(0, 64) =~= sig@);
    out.push(recovery_id);
    let ghost with_rid: Seq<u8> = out@;
    i = 0;
    while i < msg_len
        invariant
            i <= msg_len,
            msg_len == msg@.len(),
            out@ == with_rid + msg@.subrange(0, i as int),
        decreases msg_len - i,
    {
        out.push(msg[i]);
        assert(with_rid + msg@.subrange(0, i as int) + seq![msg@[i as int]] =~= with_rid
            + msg@.subrange(0, i as int + 1));
        i = i + 1;
    }
    assert(msg@.subrange(0, msg_len as int) =~= msg@);
    assert(out@ =~= secp256k1_encode_spec(addr@, msg@, sig@, recovery_id));
    out
}

/// The verdict the Secp256k1 claim verifier owes: the expected recovery id
/// must lie in `0..=3` before anything else is considered, then program
/// identity, then structural decoding, then field comparisons in the fixed
/// order address, message, signature, recovery id.
pub open spec fn secp256k1_verdict(
    program_id: Seq<u8>,
    data: Seq<u8>,
    addr: Seq<u8>,
    msg: Seq<u8>,
    sig: Seq<u8>,
    recovery_id: u8,
) -> Result<(), VerifyError> {
    if recovery_id > 3 {
        Err(VerifyError::InvalidRecoveryId)
    } else if program_id != SECP256K1_VERIFIER_ID@ {
        Err(VerifyError::WrongProgram)
    } else {
        match secp256k1_decode_spec(data) {
            None => Err(VerifyError::MalformedInstructionData),
            Some((dec_addr, dec_msg, dec_sig, dec_rid)) => {
                if dec_addr != addr {
                    Err(VerifyError::SignatureMismatch(MismatchField::Address))
                } else if dec_msg != msg {
                    Err(VerifyError::SignatureMismatch(MismatchField::Message))
                } else if dec_sig != sig {
                    Err(VerifyError::SignatureMismatch(MismatchField::Signature))
                } else if dec_rid != recovery_id {
                    Err(VerifyError::SignatureMismatch(MismatchField::RecoveryId))
                } else {
                    Ok(())
                }
            },
        }
    }
}

/// Law: decoding a canonical encoding yields exactly the encoded fields,
/// so re-encoding the decoded fields reproduces the bytes unchanged.
pub proof fn lemma_secp256k1_round_trip(addr: Seq<u8>, msg: Seq<u8>, sig: Seq<u8>, rid: u8)
    requires
        addr.len() == 20,
        sig.len() == 64,
        msg.len() <= 0xFFFF,
    ensures
        secp256k1_decode_spec(secp256k1_encode_spec(addr, msg, sig, rid)) == Some(
            (addr, msg, sig, rid),
        ),
        ({
            let dec = secp256k1_decode_spec(secp256k1_encode_spec(addr, msg, sig, rid))->Some_0;
            secp256k1_encode_spec(dec.0, dec.1, dec.2, dec.3) == secp256k1_encode_spec(
                addr,
                msg,
                sig,
                rid,
            )
        }),
{
    let d = secp256k1_encode_spec(addr, msg, sig, rid);
    assert(d.len() == 97 + msg.len());
    assert(d[1] == 32u8 && d[2] == 0u8);
    assert(d[4] == 12u8 && d[5] == 0u8);
    assert(d[7] == 97u8 && d[8] == 0u8);
    assert(d[9] == (msg.len() % 256) as u8 && d[10] == ((msg.len() / 256) % 256) as u8);
    crate::bytes::lemma_u16_le_split(msg.len());
    assert(u16_le(d[9], d[10]) == msg.len());
    assert(d[96] == rid);
    assert(d.subrange(12, 32) =~= addr);
    assert(d.subrange(32, 96) =~= sig);
    assert(d.subrange(97, 97 + msg.len() as int) =~= msg);
}

/// Law: whenever the header is present but some offset/length pair
/// reaches outside the buffer, decoding fails instead of slicing out of
/// range.
pub proof fn lemma_secp256k1_decode_bounds(d: Seq<u8>)
    requires
        d.len() >= SECP256K1_HEADER_LEN,
        u16_le(d[4], d[5]) + 20 > d.len() || u16_le(d[1], d[2]) + 65 > d.len() || u16_le(
            d[7],
            d[8],
        ) + u16_le(d[9], d[10]) > d.len(),
    ensures
        secp256k1_decode_spec(d) is None,
{
}

/// Law: a claim whose decoded fields equal the expected ones, issued by
/// the Secp256k1 verifier program with a recovery id in `0..=3`, is always
/// accepted.
pub proof fn lemma_secp256k1_exact_match_succeeds(
    program_id: Seq<u8>,
    data: Seq<u8>,
    addr: Seq<u8>,
    msg: Seq<u8>,
    sig: Seq<u8>,
    rid: u8,
)
    requires
        program_id == SECP256K1_VERIFIER_ID@,
        rid <= 3,
        secp256k1_decode_spec(data) == Some((addr, msg, sig, rid)),
    ensures
        secp256k1_verdict(program_id, data, addr, msg, sig, rid) == Ok::<(), VerifyError>(()),
{
}

/// Law: any difference in an expected field is reported as a mismatch of
/// the first differing field in the fixed order address, message,
/// signature, recovery id — an address difference wins even when later
/// fields differ too.
pub proof fn lemma_secp256k1_first_mismatch_reported(
    program_id: Seq<u8>,
    data: Seq<u8>,
    dec_addr: Seq<u8>,
    dec_msg: Seq<u8>,
    dec_sig: Seq<u8>,
    dec_rid: u8,
    addr: Seq<u8>,
    msg: Seq<u8>,
    sig: Seq<u8>,
    rid: u8,
)
    requires
        program_id == SECP256K1_VERIFIER_ID@,
        rid <= 3,
        secp256k1_decode_spec(data) == Some((dec_addr, dec_msg, dec_sig, dec_rid)),
    ensures
        dec_addr != addr ==> secp256k1_verdict(program_id, data, addr, msg, sig, rid) == Err::<
            (),
            VerifyError,
        >(VerifyError::SignatureMismatch(MismatchField::Address)),
        dec_addr == addr && dec_msg != msg ==> secp256k1_verdict(
            program_id,
            data,
            addr,
            msg,
            sig,
            rid,
        ) == Err::<(), VerifyError>(VerifyError::SignatureMismatch(MismatchField::Message)),
        dec_addr == addr && dec_msg == msg && dec_sig != sig ==> secp256k1_verdict(
            program_id,
            data,
            addr,
            msg,
            sig,
            rid,
        ) == Err::<(), VerifyError>(VerifyError::SignatureMismatch(MismatchField::Signature)),
        dec_addr == addr && dec_msg == msg && dec_sig == sig && dec_rid != rid
            ==> secp256k1_verdict(program_id, data, addr, msg, sig, rid) == Err::<
            (),
            VerifyError,
        >(VerifyError::SignatureMismatch(MismatchField::RecoveryId)),
{
}

/// Law: a recovery id outside `0..=3` is rejected as `InvalidRecoveryId`
/// before the program identity, the data or any field is considered; one
/// inside the domain is never rejected for its value.
pub proof fn lemma_secp256k1_recovery_id_domain(
    program_id: Seq<u8>,
    data: Seq<u8>,
    addr: Seq<u8>,
    msg: Seq<u8>,
    sig: Seq<u8>,
    rid: u8,
)
    ensures
        rid > 3 ==> secp256k1_verdict(program_id, data, addr, msg, sig, rid) == Err::<
            (),
            VerifyError,
        >(VerifyError::InvalidRecoveryId),
        rid <= 3 ==> secp256k1_verdict(program_id, data, addr, msg, sig, rid) != Err::<
            (),
            VerifyError,
        >(VerifyError::InvalidRecoveryId),
{
}

/// Law: an instruction issued by any other program is rejected as
/// `WrongProgram`, before any field of its data is compared.
pub proof fn lemma_secp256k1_wrong_program_rejected(
    program_id: Seq<u8>,
    data: Seq<u8>,
    addr: Seq<u8>,
    msg: Seq<u8>,
    sig: Seq<u8>,
    rid: u8,
)
    requires
        program_id != SECP256K1_VERIFIER_ID@,
        rid <= 3,
    ensures
        secp256k1_verdict(program_id, data, addr, msg, sig, rid) == Err::<(), VerifyError>(
            VerifyError::WrongProgram,
        ),
{
}

/// Checks that `ix` is a well-formed Secp256k1 verification instruction
/// for exactly the expected `(address, message, signature, recovery id)`
/// quadruple.
pub fn verify_secp256k1_ix(
    ix: &RawInstruction,
    eth_address: &[u8; 20],
    msg: &Vec<u8>,
    sig: &[u8; 64],
    recovery_id: u8,
) -> (r: Result<(), VerifyError>)
    ensures
        r == secp256k1_verdict(ix.program_id@, ix.data@, eth_address@, msg@, sig@, recovery_id),
{
    if recovery_id > 3 {
        return Err(VerifyError::InvalidRecoveryId);
    }
    if !crate::bytes::arrays_match(&ix.program_id, &SECP256K1_VERIFIER_ID) {
        return Err(VerifyError::WrongProgram);
    }
    let claim = match decode_secp256k1(&ix.data) {
        Ok(c) => c,
        Err(e) => {
            return Err(e);
        },
    };
    if !bytes_match(&claim.eth_address, eth_address) {
        return Err(VerifyError::SignatureMismatch(MismatchField::Address));
    }
    if !bytes_match_vec(&claim.message, msg) {
        return Err(VerifyError::SignatureMismatch(MismatchField::Message));
    }
    if !bytes_match(&claim.signature, sig) {
        return Err(VerifyError::SignatureMismatch(MismatchField::Signature));
    }
    if claim.recovery_id != recovery_id {
        return Err(VerifyError::SignatureMismatch(MismatchField::RecoveryId));
    }
    Ok(())
}

} // verus!
