//! The guarantees the vault gives, proved over the instruction outcomes
//! and the host's transfer effect.
use crate::accounts::{system_owned, AccountSpec};
use crate::codec::le_value;
use crate::deposit::deposit_outcome;
use crate::errors::VaultError;
use crate::introspect::{
    claim_outcome, secp256r1_program_id, secp_header_ok, secp_num_signatures, SiblingSpec,
};
use crate::pda::vault_address_for;
use crate::transfer::{transfer_effect, TransferSpec};
use crate::withdraw::{withdraw_outcome, withdraw_request_outcome};
use vstd::prelude::*;

verus! {

/// Every deposit that resolves to a transfer moves exactly the requested
/// amount from the payer to the vault: the previously empty vault ends
/// holding the amount, the payer's balance drops by the amount, and the
/// vault sits at the address derived from the stated authorizing key.
pub proof fn lemma_deposit_effect(accs: Seq<AccountSpec>, p: Seq<u8>, t: TransferSpec)
    requires
        deposit_outcome(accs, p) == Ok::<TransferSpec, VaultError>(t),
        transfer_effect(accs[0].lamports, accs[1].lamports, t.lamports) is Some,
    ensures
        t.from == accs[0].key,
        t.to == accs[1].key,
        t.lamports as nat == le_value(p.subrange(33, 41)),
        accs[1].key == vault_address_for(p.subrange(0, 33)),
        transfer_effect(accs[0].lamports, accs[1].lamports, t.lamports) matches Some(after)
            && after.1 == t.lamports && accs[0].lamports - after.0 == t.lamports,
{
    crate::codec::lemma_le_value_bound(p.subrange(33, 41));
    crate::codec::lemma_pow256_8();
}

/// Depositing into a vault that already holds value fails with
/// `InvalidAccountData`, whatever amount or key the payload states.
pub proof fn lemma_deposit_funded_vault_rejected(accs: Seq<AccountSpec>, p: Seq<u8>)
    requires
        p.len() == 41,
        accs.len() == 3,
        accs[0].is_signer,
        system_owned(accs[1]),
        accs[1].lamports != 0,
    ensures
        deposit_outcome(accs, p) == Err::<TransferSpec, VaultError>(VaultError::InvalidAccountData),
{
}

/// A withdrawal whose accounts and payload are in shape, and whose sibling
/// instruction yields a single claim naming this transaction's payer with
/// an expiry not before `now`, succeeds and drains the vault: the vault
/// ends at exactly zero and the payer gains its whole prior balance.
pub proof fn lemma_withdraw_drains_vault(
    accs: Seq<AccountSpec>,
    p: Seq<u8>,
    s: SiblingSpec,
    now: int,
)
    requires
        accs.len() == 4,
        accs[0].is_signer,
        system_owned(accs[1]),
        accs[1].lamports != 0,
        p.len() == 1,
        claim_outcome(Some(s)) matches Ok(c) && c.payer_claim == accs[0].key && now <= c.expiry,
        accs[0].lamports + accs[1].lamports <= u64::MAX,
    ensures
        ({
            &&& withdraw_outcome(accs, p, Some(s), now) matches Ok(t)
            &&& t.lamports == accs[1].lamports
            &&& t.from == accs[1].key
            &&& t.to == accs[0].key
            &&& transfer_effect(accs[1].lamports, accs[0].lamports, t.lamports) matches Some(after)
            &&& after.0 == 0
            &&& after.1 == accs[0].lamports + accs[1].lamports
        }),
{
}

/// A withdrawal whose signature already expired — `now` strictly past the
/// signed expiry, by as little as one second — fails with
/// `InvalidAccountData`.
pub proof fn lemma_withdraw_expired_rejected(
    accs: Seq<AccountSpec>,
    p: Seq<u8>,
    sibling: Option<SiblingSpec>,
    now: int,
)
    requires
        withdraw_request_outcome(accs, p) is Ok,
        claim_outcome(sibling) matches Ok(c) && c.payer_claim == accs[0].key && now > c.expiry,
    ensures
        withdraw_outcome(accs, p, sibling, now) == Err::<TransferSpec, VaultError>(
            VaultError::InvalidAccountData,
        ),
{
}

/// A structurally valid signature claim that names a payer other than the
/// transaction's payer fails with `InvalidAccountOwner`, no matter how
/// sound the rest of the claim is.
pub proof fn lemma_withdraw_wrong_payer_rejected(
    accs: Seq<AccountSpec>,
    p: Seq<u8>,
    sibling: Option<SiblingSpec>,
    now: int,
)
    requires
        withdraw_request_outcome(accs, p) is Ok,
        claim_outcome(sibling) matches Ok(c) && c.payer_claim != accs[0].key,
    ensures
        withdraw_outcome(accs, p, sibling, now) == Err::<TransferSpec, VaultError>(
            VaultError::InvalidAccountOwner,
        ),
{
}

/// A sibling instruction that reports a signature count other than one is
/// rejected: a withdrawal authorizes exactly one claim.
pub proof fn lemma_withdraw_multi_signature_rejected(
    accs: Seq<AccountSpec>,
    p: Seq<u8>,
    s: SiblingSpec,
    now: int,
)
    requires
        withdraw_request_outcome(accs, p) is Ok,
        s.program_id == secp256r1_program_id(),
        secp_header_ok(s.data),
        secp_num_signatures(s.data) != 1,
    ensures
        withdraw_outcome(accs, p, Some(s), now) == Err::<TransferSpec, VaultError>(
            VaultError::InvalidInstructionData,
        ),
{
}

/// A deposit of an amount into an empty vault, followed directly by a
/// withdrawal with a valid, unexpired claim naming the same payer, drains
/// exactly that amount back: the payer's balance returns to its starting
/// value, the vault ends empty, and no value is created or destroyed.
pub proof fn lemma_round_trip(
    dep_accs: Seq<AccountSpec>,
    dep_p: Seq<u8>,
    t1: TransferSpec,
    wd_accs: Seq<AccountSpec>,
    wd_p: Seq<u8>,
    s: SiblingSpec,
    now: int,
)
    requires
        deposit_outcome(dep_accs, dep_p) == Ok::<TransferSpec, VaultError>(t1),
        t1.lamports > 0,
        transfer_effect(dep_accs[0].lamports, dep_accs[1].lamports, t1.lamports) matches Some(mid)
            && wd_accs.len() == 4 && wd_accs[0].key == dep_accs[0].key && wd_accs[0].lamports
            == mid.0 && wd_accs[0].is_signer && wd_accs[1].key == dep_accs[1].key
            && wd_accs[1].lamports == mid.1 && system_owned(wd_accs[1]),
        wd_p.len() == 1,
        claim_outcome(Some(s)) matches Ok(c) && c.payer_claim == wd_accs[0].key && now <= c.expiry,
    ensures
        ({
            &&& withdraw_outcome(wd_accs, wd_p, Some(s), now) matches Ok(t2)
            &&& t2.lamports == t1.lamports
            &&& transfer_effect(wd_accs[1].lamports, wd_accs[0].lamports, t2.lamports)
                matches Some(fin)
            &&& fin.0 == 0
            &&& fin.1 == dep_accs[0].lamports
        }),
{
}

} // verus!
