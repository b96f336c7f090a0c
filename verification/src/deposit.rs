//! The Deposit operation: fund the vault bound to an authorizing key.
//!
//! Payload shape is checked before any account check; then the account
//! arrangement; then the supplied vault account is matched against the
//! address derived from the authorizing key, so value can only reach the
//! vault that the stated key controls.
use crate::accounts::{
    accounts_view, deposit_accounts_outcome, AccountSpec, AccountView, DepositAccount,
};
use crate::codec::{le_value, u64_from_le};
use crate::errors::VaultError;
use crate::pda::{derive_vault_address, vault_address_for};
use crate::transfer::{TransferAction, TransferSpec};
use vstd::prelude::*;
use vstd::slice::{slice_subrange, slice_to_vec};

verus! {

/// Mathematical view of a Deposit payload.
pub struct DepositPayloadSpec {
    pub pubkey: Seq<u8>,
    pub amount: int,
}

/// The parsed Deposit payload: a 33-byte compressed authorizing key
/// followed by the amount to move, little-endian.
pub struct DepositInstructionData {
    pub pubkey: Vec<u8>,
    pub amount: u64,
}

impl View for DepositInstructionData {
    type V = DepositPayloadSpec;

    open spec fn view(&self) -> DepositPayloadSpec {
        DepositPayloadSpec { pubkey: self.pubkey@, amount: self.amount as int }
    }
}

impl DepositInstructionData {
    pub open spec fn wf(self) -> bool {
        self.pubkey@.len() == 33
    }
}

/// What payload parsing for Deposit yields: exactly 41 bytes, split into
/// the key and the amount; anything else is malformed.
pub open spec fn deposit_payload_outcome(p: Seq<u8>) -> Result<DepositPayloadSpec, VaultError> {
    if p.len() != 41 {
        Err(VaultError::InvalidInstructionData)
    } else {
        Ok(
            DepositPayloadSpec {
                pubkey: p.subrange(0, 33),
                amount: le_value(p.subrange(33, 41)) as int,
            },
        )
    }
}

impl DepositInstructionData {
    pub fn try_from(data: &[u8]) -> (r: Result<DepositInstructionData, VaultError>)
        ensures
            match r {
                Ok(d) => deposit_payload_outcome(data@) == Ok::<_, VaultError>(d@) && d.wf(),
                Err(e) => deposit_payload_outcome(data@) == Err::<DepositPayloadSpec, _>(e),
            },
    {
        if data.len() != 41 {
            return Err(VaultError::InvalidInstructionData);
        }
        let pubkey = slice_to_vec(slice_subrange(data, 0, 33));
        let amount = u64_from_le(slice_subrange(data, 33, 41));
        Ok(DepositInstructionData { pubkey, amount })
    }
}

/// A validated Deposit request: the checked accounts and the parsed
/// payload.
pub struct Deposit<'a> {
    pub accounts: DepositAccount<'a>,
    pub instruction_data: DepositInstructionData,
}

/// What assembling a Deposit from raw payload and accounts yields: the
/// payload error if its shape is wrong, else the account error if the
/// arrangement is wrong, else both parts.
pub open spec fn deposit_request_outcome(accs: Seq<AccountSpec>, p: Seq<u8>) -> Result<
    (DepositPayloadSpec, AccountSpec, AccountSpec),
    VaultError,
> {
    match deposit_payload_outcome(p) {
        Err(e) => Err(e),
        Ok(pl) => match deposit_accounts_outcome(accs) {
            Err(e) => Err(e),
            Ok((payer, vault)) => Ok((pl, payer, vault)),
        },
    }
}

/// What processing a validated Deposit yields when the host's derivation
/// yields the vault address: the derived-address check, then the transfer
/// of `amount` from payer to vault, signed by the payer itself. When the
/// host yields no derived address, `process` rejects with the same
/// owner error instead.
pub open spec fn deposit_process_outcome(
    payer: AccountSpec,
    vault: AccountSpec,
    pl: DepositPayloadSpec,
) -> Result<TransferSpec, VaultError> {
    if vault.key != vault_address_for(pl.pubkey) {
        Err(VaultError::InvalidAccountOwner)
    } else {
        Ok(
            TransferSpec {
                from: payer.key,
                to: vault.key,
                lamports: pl.amount as u64,
                authority: None,
            },
        )
    }
}

/// What a whole Deposit instruction yields on given accounts and payload.
pub open spec fn deposit_outcome(accs: Seq<AccountSpec>, p: Seq<u8>) -> Result<
    TransferSpec,
    VaultError,
> {
    match deposit_request_outcome(accs, p) {
        Err(e) => Err(e),
        Ok((pl, payer, vault)) => deposit_process_outcome(payer, vault, pl),
    }
}

impl<'a> Deposit<'a> {
    /// The leading discriminator byte that selects Deposit.
    pub const DISCRIMINATOR: u8 = 0;

    pub fn try_from(data: &[u8], accounts: &'a [AccountView]) -> (r: Result<
        Deposit<'a>,
        VaultError,
    >)
        ensures
            match r {
                Ok(d) => deposit_request_outcome(accounts_view(accounts@), data@) == Ok::<
                    _,
                    VaultError,
                >((d.instruction_data@, d.accounts.payer@, d.accounts.vault@))
                    && d.instruction_data.wf(),
                Err(e) => deposit_request_outcome(accounts_view(accounts@), data@) == Err::<
                    (DepositPayloadSpec, AccountSpec, AccountSpec),
                    _,
                >(e),
            },
    {
        let instruction_data = match DepositInstructionData::try_from(data) {
            Ok(d) => d,
            Err(e) => {
                return Err(e);
            },
        };
        let accounts = match DepositAccount::try_from(accounts) {
            Ok(a) => a,
            Err(e) => {
                return Err(e);
            },
        };
        Ok(Deposit { accounts, instruction_data })
    }

    /// Resolves the request to its transfer order. It rejects a vault
    /// account that does not sit at the address derived from the stated
    /// authorizing key, and also rejects the request when the host yields
    /// no derived address at all — then the vault cannot be confirmed, so
    /// no value may move. What is owed for each derivation result is fixed
    /// by [`resolve_deposit`], which this function merely feeds.
    pub fn process(&self) -> (r: Result<TransferAction, VaultError>)
        requires
            self.instruction_data.wf(),
        ensures
            r matches Ok(t) ==> deposit_process_outcome(
                self.accounts.payer@,
                self.accounts.vault@,
                self.instruction_data@,
            ) == Ok::<_, VaultError>(t@),
            deposit_process_outcome(
                self.accounts.payer@,
                self.accounts.vault@,
                self.instruction_data@,
            ) matches Err(e) ==> r == Err::<TransferAction, VaultError>(e),
            r matches Err(e) ==> e == VaultError::InvalidAccountOwner,
    {
        let derived = derive_vault_address(self.instruction_data.pubkey.as_slice());
        match derived {
            Some(d) => resolve_deposit(
                Some(&d),
                self.accounts.payer,
                self.accounts.vault,
                &self.instruction_data,
            ),
            None => resolve_deposit(
                None,
                self.accounts.payer,
                self.accounts.vault,
                &self.instruction_data,
            ),
        }
    }
}

/// Resolves a deposit for a given derivation result. Without a derived
/// address the vault cannot be confirmed, so the request is rejected as an
/// ownership failure; with one, the transfer of the payload's amount from
/// payer to vault is owed exactly when the supplied vault sits at that
/// address, and rejected as an ownership failure otherwise.
pub fn resolve_deposit(
    derived: Option<&[u8; 32]>,
    payer: &AccountView,
    vault: &AccountView,
    pl: &DepositInstructionData,
) -> (r: Result<TransferAction, VaultError>)
    ensures
        derived is None ==> r == Err::<TransferAction, VaultError>(VaultError::InvalidAccountOwner),
        derived matches Some(d) && d@ == vault@.key ==> ({
            &&& r matches Ok(t)
            &&& t@ == (TransferSpec {
                from: payer@.key,
                to: vault@.key,
                lamports: pl.amount,
                authority: None,
            })
        }),
        derived matches Some(d) && d@ != vault@.key ==> r == Err::<TransferAction, VaultError>(
            VaultError::InvalidAccountOwner,
        ),
{
    let d = match derived {
        Some(d) => d,
        None => {
            return Err(VaultError::InvalidAccountOwner);
        },
    };
    if !crate::codec::bytes_equal(d.as_slice(), vault.key.as_slice()) {
        return Err(VaultError::InvalidAccountOwner);
    }
    Ok(
        TransferAction {
            from: slice_to_vec(payer.key.as_slice()),
            to: slice_to_vec(vault.key.as_slice()),
            lamports: pl.amount,
            authority: None,
        },
    )
}

} // verus!
