//! The signature introspector: defensive parsing of the sibling
//! signature-verification instruction.
//!
//! A withdrawal does not verify the secp256r1 signature itself: a sibling
//! instruction in the same transaction, addressed to the host's secp256r1
//! verification program, has already done so, and the transaction aborts if
//! that verification fails. This module treats the sibling's structure as
//! untrusted bytes: it checks the program identity, the header, and the
//! offset table, requires exactly one signature claim, and extracts the
//! verified signer key and signed message.
//!
//! The byte layout of such an instruction is: the number of signatures at
//! byte 0 and a padding byte, then one 14-byte offset record per signature
//! (seven 16-bit little-endian fields: signature offset and instruction
//! index, public-key offset and instruction index, message offset, size and
//! instruction index), then the referenced data. An instruction index of
//! 0xFFFF marks data held in this same instruction; anything else points
//! into another instruction and is rejected here.
use crate::codec::{bytes_equal, i64_from_le, le_i64_value, le_value, u16_from_le};
use crate::errors::VaultError;
use vstd::prelude::*;
use vstd::slice::{slice_index_get, slice_subrange, slice_to_vec};

verus! {

/// The address of the host's secp256r1 signature-verification program.
pub open spec fn secp256r1_program_id() -> Seq<u8> {
    seq![
        0x06u8,
        0x92u8,
        0x0du8,
        0xecu8,
        0x2fu8,
        0xeau8,
        0x71u8,
        0xb5u8,
        0xb7u8,
        0x23u8,
        0x81u8,
        0x4du8,
        0x74u8,
        0x2du8,
        0xa9u8,
        0x03u8,
        0x1cu8,
        0x83u8,
        0xe7u8,
        0x5fu8,
        0xdbu8,
        0x79u8,
        0x5du8,
        0x56u8,
        0x8eu8,
        0x75u8,
        0x47u8,
        0x80u8,
        0x20u8,
        0x00u8,
        0x00u8,
        0x00u8,
    ]
}

/// The verification program's address as the 32-byte value the host uses.
pub fn secp256r1_program_id_bytes() -> (r: [u8; 32])
    ensures
        r@ == secp256r1_program_id(),
{
    let id: [u8; 32] = [
        0x06u8, 0x92u8, 0x0du8, 0xecu8, 0x2fu8, 0xeau8, 0x71u8, 0xb5u8, 0xb7u8, 0x23u8, 0x81u8,
        0x4du8, 0x74u8, 0x2du8, 0xa9u8, 0x03u8, 0x1cu8, 0x83u8, 0xe7u8, 0x5fu8, 0xdbu8, 0x79u8,
        0x5du8, 0x56u8, 0x8eu8, 0x75u8, 0x47u8, 0x80u8, 0x20u8, 0x00u8, 0x00u8, 0x00u8,
    ];
    proof {
        assert(id@ =~= secp256r1_program_id());
    }
    id
}

/// Mathematical view of a sibling instruction.
pub struct SiblingSpec {
    pub program_id: Seq<u8>,
    pub data: Seq<u8>,
}

/// A sibling instruction of the same transaction, as handed in by the
/// host's instruction-introspection facility: the program it is addressed
/// to and its raw data.
pub struct SiblingInstruction {
    pub program_id: Vec<u8>,
    pub data: Vec<u8>,
}

impl View for SiblingInstruction {
    type V = SiblingSpec;

    open spec fn view(&self) -> SiblingSpec {
        SiblingSpec { program_id: self.program_id@, data: self.data@ }
    }
}

/// The 16-bit little-endian field at byte offset `i`.
pub open spec fn u16_at(d: Seq<u8>, i: int) -> nat {
    le_value(d.subrange(i, i + 2))
}

/// The header is sound: the byte count covers the signature count at byte
/// 0, the padding byte, and one 14-byte offset record per signature.
pub open spec fn secp_header_ok(d: Seq<u8>) -> bool {
    d.len() >= 2 && d.len() >= 2 + 14 * (d[0] as int)
}

/// The number of signature claims the instruction carries.
pub open spec fn secp_num_signatures(d: Seq<u8>) -> u8 {
    d[0]
}

/// The public-key offset of the first signature claim.
pub open spec fn secp_pk_offset(d: Seq<u8>) -> nat {
    u16_at(d, 6)
}

/// The public-key instruction index of the first signature claim.
pub open spec fn secp_pk_index(d: Seq<u8>) -> nat {
    u16_at(d, 8)
}

/// The message offset of the first signature claim.
pub open spec fn secp_msg_offset(d: Seq<u8>) -> nat {
    u16_at(d, 10)
}

/// The message size of the first signature claim.
pub open spec fn secp_msg_size(d: Seq<u8>) -> nat {
    u16_at(d, 12)
}

/// The message instruction index of the first signature claim.
pub open spec fn secp_msg_index(d: Seq<u8>) -> nat {
    u16_at(d, 14)
}

/// The first claim's signer key is held locally and lies within bounds.
pub open spec fn secp_signer_ok(d: Seq<u8>) -> bool {
    secp_pk_index(d) == 0xFFFF && secp_pk_offset(d) + 33 <= d.len()
}

/// The first claim's 33-byte signer key.
pub open spec fn secp_signer(d: Seq<u8>) -> Seq<u8> {
    d.subrange(secp_pk_offset(d) as int, secp_pk_offset(d) as int + 33)
}

/// The first claim's message is held locally and lies within bounds.
pub open spec fn secp_message_ok(d: Seq<u8>) -> bool {
    secp_msg_index(d) == 0xFFFF && secp_msg_offset(d) + secp_msg_size(d) <= d.len()
}

/// The first claim's signed message.
pub open spec fn secp_message(d: Seq<u8>) -> Seq<u8> {
    d.subrange(
        secp_msg_offset(d) as int,
        secp_msg_offset(d) as int + secp_msg_size(d) as int,
    )
}

/// Mathematical view of an extracted signature claim.
pub struct ClaimSpec {
    pub signer: Seq<u8>,
    pub payer_claim: Seq<u8>,
    pub expiry: int,
}

/// The one signature claim a withdrawal rests on: the verified signer key,
/// the payer address named in the signed message, and the expiry time the
/// message carries.
pub struct VerifiedSignatureClaim {
    pub signer: Vec<u8>,
    pub payer_claim: Vec<u8>,
    pub expiry: i64,
}

impl View for VerifiedSignatureClaim {
    type V = ClaimSpec;

    open spec fn view(&self) -> ClaimSpec {
        ClaimSpec {
            signer: self.signer@,
            payer_claim: self.payer_claim@,
            expiry: self.expiry as int,
        }
    }
}

impl VerifiedSignatureClaim {
    pub open spec fn wf(self) -> bool {
        self.signer@.len() == 33 && self.payer_claim@.len() == 32
    }
}

/// What introspection yields on the sibling instruction: the claim, or an
/// error. A sibling that is absent, addressed to a different program,
/// structurally unsound, or carrying a signature count other than one is
/// malformed instruction data. A message too short to name a 32-byte
/// payer is an unparseable shape, an account-data error; one that names a
/// payer but whose remainder is not an 8-byte expiry is a malformed
/// timestamp, again malformed instruction data.
pub open spec fn claim_outcome(sibling: Option<SiblingSpec>) -> Result<ClaimSpec, VaultError> {
    match sibling {
        None => Err(VaultError::InvalidInstructionData),
        Some(s) => {
            if s.program_id != secp256r1_program_id() {
                Err(VaultError::InvalidInstructionData)
            } else if !secp_header_ok(s.data) {
                Err(VaultError::InvalidInstructionData)
            } else if secp_num_signatures(s.data) != 1 {
                Err(VaultError::InvalidInstructionData)
            } else if !secp_signer_ok(s.data) {
                Err(VaultError::InvalidInstructionData)
            } else if !secp_message_ok(s.data) {
                Err(VaultError::InvalidInstructionData)
            } else if secp_msg_size(s.data) < 32 {
                Err(VaultError::InvalidAccountData)
            } else if secp_msg_size(s.data) != 40 {
                Err(VaultError::InvalidInstructionData)
            } else {
                Ok(
                    ClaimSpec {
                        signer: secp_signer(s.data),
                        payer_claim: secp_message(s.data).subrange(0, 32),
                        expiry: le_i64_value(secp_message(s.data).subrange(32, 40)),
                    },
                )
            }
        },
    }
}

/// The view of an optional sibling instruction.
pub open spec fn sibling_view(s: Option<&SiblingInstruction>) -> Option<SiblingSpec> {
    match s {
        None => None,
        Some(x) => Some(x@),
    }
}

/// Parses and validates the sibling instruction, yielding the one
/// signature claim a withdrawal may rest on.
pub fn introspect(sibling: Option<&SiblingInstruction>) -> (r: Result<
    VerifiedSignatureClaim,
    VaultError,
>)
    ensures
        match r {
            Ok(c) => claim_outcome(sibling_view(sibling)) == Ok::<_, VaultError>(c@) && c.wf(),
            Err(e) => claim_outcome(sibling_view(sibling)) == Err::<ClaimSpec, _>(e),
        },
{
    let s = match sibling {
        Some(s) => s,
        None => {
            return Err(VaultError::InvalidInstructionData);
        },
    };
    let secp_id = secp256r1_program_id_bytes();
    if !bytes_equal(s.program_id.as_slice(), secp_id.as_slice()) {
        return Err(VaultError::InvalidInstructionData);
    }
    let d = s.data.as_slice();
    let n = d.len();
    if n < 2 {
        return Err(VaultError::InvalidInstructionData);
    }
    let num_sigs = *slice_index_get(d, 0);
    if n < 2 + 14 * (num_sigs as usize) {
        return Err(VaultError::InvalidInstructionData);
    }
    if num_sigs != 1 {
        return Err(VaultError::InvalidInstructionData);
    }
    let pk_off = u16_from_le(*slice_index_get(d, 6), *slice_index_get(d, 7));
    let pk_ix = u16_from_le(*slice_index_get(d, 8), *slice_index_get(d, 9));
    proof {
        assert(seq![d@[6], d@[7]] =~= d@.subrange(6, 8));
        assert(seq![d@[8], d@[9]] =~= d@.subrange(8, 10));
    }
    if pk_ix != 0xFFFF {
        return Err(VaultError::InvalidInstructionData);
    }
    if n < 33 || pk_off as usize > n - 33 {
        return Err(VaultError::InvalidInstructionData);
    }
    let signer = slice_to_vec(slice_subrange(d, pk_off as usize, pk_off as usize + 33));
    let msg_off = u16_from_le(*slice_index_get(d, 10), *slice_index_get(d, 11));
    let msg_size = u16_from_le(*slice_index_get(d, 12), *slice_index_get(d, 13));
    let msg_ix = u16_from_le(*slice_index_get(d, 14), *slice_index_get(d, 15));
    proof {
        assert(seq![d@[10], d@[11]] =~= d@.subrange(10, 12));
        assert(seq![d@[12], d@[13]] =~= d@.subrange(12, 14));
        assert(seq![d@[14], d@[15]] =~= d@.subrange(14, 16));
    }
    if msg_ix != 0xFFFF {
        return Err(VaultError::InvalidInstructionData);
    }
    if msg_off as usize > n || msg_size as usize > n - msg_off as usize {
        return Err(VaultError::InvalidInstructionData);
    }
    if msg_size < 32 {
        return Err(VaultError::InvalidAccountData);
    }
    if msg_size != 40 {
        return Err(VaultError::InvalidInstructionData);
    }
    let m0 = msg_off as usize;
    let payer_claim = slice_to_vec(slice_subrange(d, m0, m0 + 32));
    let expiry_bytes = slice_subrange(d, m0 + 32, m0 + 40);
    let expiry = i64_from_le(expiry_bytes);
    proof {
        assert(secp_message(d@).subrange(0, 32) =~= d@.subrange(m0 as int, m0 + 32));
        assert(secp_message(d@).subrange(32, 40) =~= d@.subrange(m0 + 32, m0 + 40));
    }
    Ok(VerifiedSignatureClaim { signer, payer_claim, expiry })
}

} // verus!
