//! Account-shape validation for the two operations.
//!
//! The host runtime hands the program an ordered list of account snapshots;
//! each operation requires a fixed arrangement and rejects anything else
//! before any value moves.
use crate::errors::VaultError;
use vstd::prelude::*;
use vstd::slice::slice_index_get;

verus! {

/// Mathematical view of an account snapshot.
pub struct AccountSpec {
    pub key: Seq<u8>,
    pub owner: Seq<u8>,
    pub lamports: u64,
    pub is_signer: bool,
}

impl AccountSpec {
    /// Addresses and owners on the host ledger are 32-byte values.
    pub open spec fn wf(self) -> bool {
        self.key.len() == 32 && self.owner.len() == 32
    }
}

/// The slice of an account's state that the vault logic reads: address,
/// owning program, native balance, and whether it signed the transaction.
pub struct AccountView {
    pub key: Vec<u8>,
    pub owner: Vec<u8>,
    pub lamports: u64,
    pub is_signer: bool,
}

impl View for AccountView {
    type V = AccountSpec;

    open spec fn view(&self) -> AccountSpec {
        AccountSpec {
            key: self.key@,
            owner: self.owner@,
            lamports: self.lamports,
            is_signer: self.is_signer,
        }
    }
}

impl AccountView {
    pub open spec fn wf(self) -> bool {
        self@.wf()
    }
}

/// The views of an account list, in order.
pub open spec fn accounts_view(s: Seq<AccountView>) -> Seq<AccountSpec> {
    s.map_values(|a: AccountView| a@)
}

/// The address of the native-transfer (system) program: 32 zero bytes.
pub open spec fn system_program_id() -> Seq<u8> {
    Seq::new(32, |i: int| 0u8)
}

/// True when the account is owned by the native-transfer program.
pub open spec fn system_owned(a: AccountSpec) -> bool {
    a.owner == system_program_id()
}

/// Checks ownership by the native-transfer program, whose address is all
/// zero bytes.
pub fn is_system_owned(a: &AccountView) -> (r: bool)
    ensures
        r <==> system_owned(a@),
{
    if a.owner.len() != 32 {
        return false;
    }
    let mut i: usize = 0;
    while i < 32
        invariant
            i <= 32,
            a.owner@.len() == 32,
            forall|j: int| 0 <= j < i ==> a.owner@[j] == 0u8,
        decreases 32 - i,
    {
        if *slice_index_get(a.owner.as_slice(), i) != 0u8 {
            proof {
                assert(a.owner@[i as int] != system_program_id()[i as int]);
            }
            return false;
        }
        i = i + 1;
    }
    proof {
        assert(a.owner@ =~= system_program_id());
    }
    true
}

/// The accounts a Deposit reads, in their required order: the funding payer
/// and the vault, with one reserved trailing slot checked only for presence.
pub struct DepositAccount<'a> {
    pub payer: &'a AccountView,
    pub vault: &'a AccountView,
}

/// What account validation for Deposit yields on a given account list:
/// exactly three accounts, a signing payer, and a vault that is owned by the
/// native-transfer program and still empty.
pub open spec fn deposit_accounts_outcome(accs: Seq<AccountSpec>) -> Result<
    (AccountSpec, AccountSpec),
    VaultError,
> {
    if accs.len() != 3 {
        Err(VaultError::NotEnoughAccountKeys)
    } else if !accs[0].is_signer {
        Err(VaultError::InvalidAccountOwner)
    } else if !system_owned(accs[1]) {
        Err(VaultError::InvalidAccountOwner)
    } else if accs[1].lamports != 0 {
        Err(VaultError::InvalidAccountData)
    } else {
        Ok((accs[0], accs[1]))
    }
}

impl<'a> DepositAccount<'a> {
    pub fn try_from(accounts: &'a [AccountView]) -> (r: Result<DepositAccount<'a>, VaultError>)
        ensures
            match r {
                Ok(d) => deposit_accounts_outcome(accounts_view(accounts@)) == Ok::<
                    _,
                    VaultError,
                >((d.payer@, d.vault@)),
                Err(e) => deposit_accounts_outcome(accounts_view(accounts@)) == Err::<
                    (AccountSpec, AccountSpec),
                    _,
                >(e),
            },
    {
        if accounts.len() != 3 {
            return Err(VaultError::NotEnoughAccountKeys);
        }
        let payer = slice_index_get(accounts, 0);
        let vault = slice_index_get(accounts, 1);
        if !payer.is_signer {
            return Err(VaultError::InvalidAccountOwner);
        }
        if !is_system_owned(vault) {
            return Err(VaultError::InvalidAccountOwner);
        }
        if vault.lamports != 0 {
            return Err(VaultError::InvalidAccountData);
        }
        Ok(DepositAccount { payer, vault })
    }
}

/// The accounts a Withdraw reads, in their required order: the requesting
/// payer, the vault, the transaction's instruction-introspection account,
/// and one reserved trailing slot checked only for presence.
pub struct WithdrawAccounts<'a> {
    pub payer: &'a AccountView,
    pub vault: &'a AccountView,
    pub instructions: &'a AccountView,
}

/// What account validation for Withdraw yields on a given account list:
/// exactly four accounts, a signing payer, and a vault that is owned by the
/// native-transfer program and holds value to withdraw.
pub open spec fn withdraw_accounts_outcome(accs: Seq<AccountSpec>) -> Result<
    (AccountSpec, AccountSpec, AccountSpec),
    VaultError,
> {
    if accs.len() != 4 {
        Err(VaultError::NotEnoughAccountKeys)
    } else if !accs[0].is_signer {
        Err(VaultError::InvalidAccountOwner)
    } else if !system_owned(accs[1]) {
        Err(VaultError::InvalidAccountOwner)
    } else if accs[1].lamports == 0 {
        Err(VaultError::InvalidAccountData)
    } else {
        Ok((accs[0], accs[1], accs[2]))
    }
}

impl<'a> WithdrawAccounts<'a> {
    pub fn try_from(accounts: &'a [AccountView]) -> (r: Result<WithdrawAccounts<'a>, VaultError>)
        ensures
            match r {
                Ok(w) => withdraw_accounts_outcome(accounts_view(accounts@)) == Ok::<
                    _,
                    VaultError,
                >((w.payer@, w.vault@, w.instructions@)),
                Err(e) => withdraw_accounts_outcome(accounts_view(accounts@)) == Err::<
                    (AccountSpec, AccountSpec, AccountSpec),
                    _,
                >(e),
            },
    {
        if accounts.len() != 4 {
            return Err(VaultError::NotEnoughAccountKeys);
        }
        let payer = slice_index_get(accounts, 0);
        let vault = slice_index_get(accounts, 1);
        let instructions = slice_index_get(accounts, 2);
        if !payer.is_signer {
            return Err(VaultError::InvalidAccountOwner);
        }
        if !is_system_owned(vault) {
            return Err(VaultError::InvalidAccountOwner);
        }
        if vault.lamports == 0 {
            return Err(VaultError::InvalidAccountData);
        }
        Ok(WithdrawAccounts { payer, vault, instructions })
    }
}

} // verus!
