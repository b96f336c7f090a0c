//! The Withdraw operation: drain the vault to the payer.
//!
//! Authority comes from the introspected sibling signature, not from the
//! payload: the signed message must name this transaction's payer and a
//! not-yet-passed expiry, and the signer key together with the payload's
//! bump byte reconstructs the vault's derived signing authority. On
//! success the vault's entire balance moves to the payer.
use crate::accounts::{
    accounts_view, withdraw_accounts_outcome, AccountSpec, AccountView, WithdrawAccounts,
};
use crate::errors::VaultError;
use crate::introspect::{claim_outcome, introspect, sibling_view, SiblingInstruction, SiblingSpec};
use crate::transfer::{AuthoritySpec, TransferAction, TransferSpec, VaultAuthority};
use vstd::prelude::*;
use vstd::slice::{slice_index_get, slice_to_vec};

verus! {

/// The parsed Withdraw payload: the single derivation bump byte.
pub struct WithdrawInstructionData {
    pub bump: [u8; 1],
}

impl WithdrawInstructionData {
    /// The payload's bump byte.
    pub open spec fn bump_value(self) -> u8 {
        self.bump@[0]
    }
}

/// What payload parsing for Withdraw yields: exactly one byte, the bump;
/// anything else is malformed.
pub open spec fn withdraw_payload_outcome(p: Seq<u8>) -> Result<u8, VaultError> {
    if p.len() != 1 {
        Err(VaultError::InvalidInstructionData)
    } else {
        Ok(p[0])
    }
}

impl WithdrawInstructionData {
    pub fn try_from(data: &[u8]) -> (r: Result<WithdrawInstructionData, VaultError>)
        ensures
            match r {
                Ok(w) => withdraw_payload_outcome(data@) == Ok::<_, VaultError>(w.bump_value()),
                Err(e) => withdraw_payload_outcome(data@) == Err::<u8, _>(e),
            },
    {
        if data.len() != 1 {
            return Err(VaultError::InvalidInstructionData);
        }
        let bump: [u8; 1] = [*slice_index_get(data, 0)];
        Ok(WithdrawInstructionData { bump })
    }
}

/// A validated Withdraw request: the checked accounts and the parsed
/// payload.
pub struct Withdraw<'a> {
    pub accounts: WithdrawAccounts<'a>,
    pub instruction_data: WithdrawInstructionData,
}

/// What assembling a Withdraw from raw payload and accounts yields: the
/// account error if the arrangement is wrong, else the payload error if its
/// shape is wrong, else both parts.
pub open spec fn withdraw_request_outcome(accs: Seq<AccountSpec>, p: Seq<u8>) -> Result<
    (AccountSpec, AccountSpec, AccountSpec, u8),
    VaultError,
> {
    match withdraw_accounts_outcome(accs) {
        Err(e) => Err(e),
        Ok((payer, vault, instructions)) => match withdraw_payload_outcome(p) {
            Err(e) => Err(e),
            Ok(bump) => Ok((payer, vault, instructions, bump)),
        },
    }
}

/// What processing a validated Withdraw yields: the introspected claim's
/// error if the sibling is unusable; `InvalidAccountOwner` when the signed
/// message names a payer other than this transaction's payer; an
/// `InvalidAccountData` rejection of any expiry that already passed; and
/// otherwise the transfer of the vault's whole balance to the payer,
/// signed by the program for the vault through the derivation seeds.
pub open spec fn withdraw_process_outcome(
    payer: AccountSpec,
    vault: AccountSpec,
    bump: u8,
    sibling: Option<SiblingSpec>,
    now: int,
) -> Result<TransferSpec, VaultError> {
    match claim_outcome(sibling) {
        Err(e) => Err(e),
        Ok(c) => {
            if c.payer_claim != payer.key {
                Err(VaultError::InvalidAccountOwner)
            } else if now > c.expiry {
                Err(VaultError::InvalidAccountData)
            } else {
                Ok(
                    TransferSpec {
                        from: vault.key,
                        to: payer.key,
                        lamports: vault.lamports,
                        authority: Some(AuthoritySpec { signer_key: c.signer, bump }),
                    },
                )
            }
        },
    }
}

/// What a whole Withdraw instruction yields on given accounts, payload,
/// sibling instruction, and current time.
pub open spec fn withdraw_outcome(
    accs: Seq<AccountSpec>,
    p: Seq<u8>,
    sibling: Option<SiblingSpec>,
    now: int,
) -> Result<TransferSpec, VaultError> {
    match withdraw_request_outcome(accs, p) {
        Err(e) => Err(e),
        Ok((payer, vault, _instructions, bump)) => withdraw_process_outcome(
            payer,
            vault,
            bump,
            sibling,
            now,
        ),
    }
}

impl<'a> Withdraw<'a> {
    /// The leading discriminator byte that selects Withdraw.
    pub const DISCRIMINATOR: u8 = 1;

    pub fn try_from(data: &[u8], accounts: &'a [AccountView]) -> (r: Result<
        Withdraw<'a>,
        VaultError,
    >)
        ensures
            match r {
                Ok(w) => withdraw_request_outcome(accounts_view(accounts@), data@) == Ok::<
                    _,
                    VaultError,
                >((w.accounts.payer@, w.accounts.vault@, w.accounts.instructions@, w.instruction_data.bump_value())),
                Err(e) => withdraw_request_outcome(accounts_view(accounts@), data@) == Err::<
                    (AccountSpec, AccountSpec, AccountSpec, u8),
                    _,
                >(e),
            },
    {
        let accounts = match WithdrawAccounts::try_from(accounts) {
            Ok(a) => a,
            Err(e) => {
                return Err(e);
            },
        };
        let instruction_data = match WithdrawInstructionData::try_from(data) {
            Ok(d) => d,
            Err(e) => {
                return Err(e);
            },
        };
        Ok(Withdraw { accounts, instruction_data })
    }

    /// Resolves the request to its transfer order: introspects the sibling
    /// signature instruction, binds the signed message to this payer,
    /// rejects passed expiries against the supplied current time, and
    /// orders the vault's whole balance moved to the payer.
    pub fn process(&self, sibling: Option<&SiblingInstruction>, now: i64) -> (r: Result<
        TransferAction,
        VaultError,
    >)
        ensures
            match r {
                Ok(t) => withdraw_process_outcome(
                    self.accounts.payer@,
                    self.accounts.vault@,
                    self.instruction_data.bump_value(),
                    sibling_view(sibling),
                    now as int,
                ) == Ok::<_, VaultError>(t@),
                Err(e) => withdraw_process_outcome(
                    self.accounts.payer@,
                    self.accounts.vault@,
                    self.instruction_data.bump_value(),
                    sibling_view(sibling),
                    now as int,
                ) == Err::<TransferSpec, _>(e),
            },
    {
        let claim = match introspect(sibling) {
            Ok(c) => c,
            Err(e) => {
                return Err(e);
            },
        };
        if !crate::codec::bytes_equal(
            claim.payer_claim.as_slice(),
            self.accounts.payer.key.as_slice(),
        ) {
            return Err(VaultError::InvalidAccountOwner);
        }
        if now > claim.expiry {
            return Err(VaultError::InvalidAccountData);
        }
        Ok(
            TransferAction {
                from: slice_to_vec(self.accounts.vault.key.as_slice()),
                to: slice_to_vec(self.accounts.payer.key.as_slice()),
                lamports: self.accounts.vault.lamports,
                authority: Some(
                    VaultAuthority { signer_key: claim.signer, bump: self.instruction_data.bump[0] },
                ),
            },
        )
    }
}

} // verus!
