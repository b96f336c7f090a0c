//! Vault address derivation.
//!
//! The vault for an authorizing key lives at the address derived from the
//! seeds `"vault"`, the key's leading byte, and its remaining 32 bytes,
//! under this program's identity. The key is split because the host caps
//! each seed segment at 32 bytes. Recomputing this address and requiring
//! exact equality is how the program proves that a supplied vault account
//! belongs to the claimed key.
use vstd::prelude::*;

verus! {

/// This program's identity on the host ledger.
pub open spec fn program_id() -> Seq<u8> {
    seq![
        0x0fu8,
        0x1eu8,
        0x6bu8,
        0x14u8,
        0x21u8,
        0xc0u8,
        0x4au8,
        0x07u8,
        0x04u8,
        0x31u8,
        0x26u8,
        0x5cu8,
        0x19u8,
        0xc5u8,
        0xbbu8,
        0xeeu8,
        0x19u8,
        0x92u8,
        0xbau8,
        0xe8u8,
        0xafu8,
        0xd1u8,
        0xcdu8,
        0x07u8,
        0x8eu8,
        0xf8u8,
        0xafu8,
        0x70u8,
        0x47u8,
        0xdcu8,
        0x11u8,
        0xf7u8,
    ]
}

/// This program's identity as the 32-byte value the host uses.
pub fn program_id_bytes() -> (r: [u8; 32])
    ensures
        r@ == program_id(),
{
    let id: [u8; 32] = [
        0x0fu8, 0x1eu8, 0x6bu8, 0x14u8, 0x21u8, 0xc0u8, 0x4au8, 0x07u8, 0x04u8, 0x31u8, 0x26u8,
        0x5cu8, 0x19u8, 0xc5u8, 0xbbu8, 0xeeu8, 0x19u8, 0x92u8, 0xbau8, 0xe8u8, 0xafu8, 0xd1u8,
        0xcdu8, 0x07u8, 0x8eu8, 0xf8u8, 0xafu8, 0x70u8, 0x47u8, 0xdcu8, 0x11u8, 0xf7u8,
    ];
    proof {
        assert(id@ =~= program_id());
    }
    id
}

/// The constant first derivation seed: the ASCII bytes of "vault".
pub open spec fn vault_seed() -> Seq<u8> {
    seq![118u8, 97u8, 117u8, 108u8, 116u8]
}

/// The first derivation seed as bytes.
pub fn vault_seed_bytes() -> (r: [u8; 5])
    ensures
        r@ == vault_seed(),
{
    let s: [u8; 5] = [118u8, 97u8, 117u8, 108u8, 116u8];
    proof {
        assert(s@ =~= vault_seed());
    }
    s
}

/// The derived address and bump seed that the host's address derivation
/// yields for given seed segments under a given program identity. The
/// derivation is a deterministic function of its arguments; its definition
/// (repeated hashing until the result is off the signing curve) lives
/// outside this library and is left unstated here.
pub uninterp spec fn derived_address(seeds: Seq<Seq<u8>>, program_id: Seq<u8>) -> (Seq<u8>, u8);

/// Relies on `pinocchio::pubkey::try_find_program_address`: when it yields
/// an address, that address and its bump seed are the derivation's
/// deterministic result for the given seeds and program identity. It
/// yields `None` when the derivation is unavailable on the executing
/// target, when the seeds exceed the host's limits, or in the improbable
/// case that no bump seed gives an off-curve address; nothing is claimed
/// of those cases.
#[verifier::external_body]
fn try_find_program_address_3(seed0: &[u8], seed1: &[u8], seed2: &[u8], pid: &[u8; 32]) -> (r:
    Option<([u8; 32], u8)>)
    ensures
        r matches Some(p) ==> (p.0@, p.1) == derived_address(
            seq![seed0@, seed1@, seed2@],
            pid@,
        ),
{
    pinocchio::pubkey::try_find_program_address(&[seed0, seed1, seed2], pid)
}

/// The vault address bound to an authorizing key.
pub open spec fn vault_address_for(key: Seq<u8>) -> Seq<u8> {
    derived_address(
        seq![vault_seed(), key.subrange(0, 1), key.subrange(1, 33)],
        program_id(),
    ).0
}

/// Derives the vault address for a 33-byte authorizing key under this
/// program's identity, when the host's derivation yields one.
pub fn derive_vault_address(key: &[u8]) -> (r: Option<[u8; 32]>)
    requires
        key@.len() == 33,
    ensures
        r matches Some(a) ==> a@ == vault_address_for(key@),
{
    let seed0 = vault_seed_bytes();
    let key_head = vstd::slice::slice_subrange(key, 0, 1);
    let key_tail = vstd::slice::slice_subrange(key, 1, 33);
    let pid = program_id_bytes();
    match try_find_program_address_3(seed0.as_slice(), key_head, key_tail, &pid) {
        Some((addr, _bump)) => Some(addr),
        None => None,
    }
}

} // verus!
