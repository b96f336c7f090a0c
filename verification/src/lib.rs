//! A minimal custody vault for an on-chain runtime.
//!
//! Native value is deposited into a vault account whose address is derived
//! from a secp256r1 public key, and may be withdrawn in full only upon a
//! fresh signature over `payer address ‖ expiry`, verified by a sibling
//! instruction in the same transaction and cross-checked here.
//!
//! The library holds every decision the program makes, stated over plain
//! values: the host runtime hands in account shapes, instruction bytes, the
//! sibling instruction, and the current time, and receives back either an
//! error or the single value transfer to perform.
use vstd::prelude::*;

pub mod accounts;
pub mod codec;
pub mod deposit;
pub mod errors;
pub mod introspect;
pub mod laws;
pub mod pda;
pub mod transfer;
pub mod withdraw;

use crate::accounts::{accounts_view, AccountSpec, AccountView};
use crate::deposit::{deposit_outcome, Deposit};
use crate::errors::VaultError;
use crate::introspect::{sibling_view, SiblingInstruction, SiblingSpec};
use crate::transfer::{TransferAction, TransferSpec};
use crate::withdraw::{withdraw_outcome, Withdraw};
use vstd::slice::{slice_index_get, slice_subrange};

verus! {

/// What the program yields for a raw instruction: the leading byte selects
/// the operation and the rest is its payload. An empty instruction is
/// malformed instruction data; a discriminator that selects no operation
/// is rejected as unknown without dispatching anything.
pub open spec fn dispatch_outcome(
    accs: Seq<AccountSpec>,
    data: Seq<u8>,
    sibling: Option<SiblingSpec>,
    now: int,
) -> Result<TransferSpec, VaultError> {
    if data.len() == 0 {
        Err(VaultError::InvalidInstructionData)
    } else if data[0] == 0 {
        deposit_outcome(accs, data.subrange(1, data.len() as int))
    } else if data[0] == 1 {
        withdraw_outcome(accs, data.subrange(1, data.len() as int), sibling, now)
    } else {
        Err(VaultError::InvalidAccountData)
    }
}

/// Routes one instruction to its operation and resolves it to the single
/// value transfer the host should perform, or to the error that aborts the
/// transaction.
///
/// The caller supplies everything the decision reads: the account
/// snapshots in their transaction order, the raw instruction bytes, the
/// sibling instruction at relative offset +1 (when the transaction has
/// one), and the ledger's current Unix time.
pub fn process_instruction(
    accounts: &[AccountView],
    instruction_data: &[u8],
    sibling: Option<&SiblingInstruction>,
    now: i64,
) -> (r: Result<TransferAction, VaultError>)
    ensures
        r matches Ok(t) ==> dispatch_outcome(
            accounts_view(accounts@),
            instruction_data@,
            sibling_view(sibling),
            now as int,
        ) == Ok::<_, VaultError>(t@),
        dispatch_outcome(
            accounts_view(accounts@),
            instruction_data@,
            sibling_view(sibling),
            now as int,
        ) matches Err(e) ==> r == Err::<TransferAction, VaultError>(e),
        r matches Err(e) ==> dispatch_outcome(
            accounts_view(accounts@),
            instruction_data@,
            sibling_view(sibling),
            now as int,
        ) == Err::<TransferSpec, VaultError>(e) || (e == VaultError::InvalidAccountOwner
            && instruction_data@.len() >= 1 && instruction_data@[0] == 0),
        instruction_data@.len() == 0 ==> r == Err::<TransferAction, VaultError>(
            VaultError::InvalidInstructionData,
        ),
        instruction_data@.len() >= 1 && instruction_data@[0] != 0 && instruction_data@[0] != 1
            ==> r == Err::<TransferAction, VaultError>(VaultError::InvalidAccountData),
        instruction_data@.len() >= 1 && instruction_data@[0] == 0 && instruction_data@.len() != 42
            ==> r == Err::<TransferAction, VaultError>(VaultError::InvalidInstructionData),
{
    if instruction_data.len() == 0 {
        return Err(VaultError::InvalidInstructionData);
    }
    let disc = *slice_index_get(instruction_data, 0);
    let payload = slice_subrange(instruction_data, 1, instruction_data.len());
    if disc == Deposit::DISCRIMINATOR {
        let d = match Deposit::try_from(payload, accounts) {
            Ok(d) => d,
            Err(e) => {
                return Err(e);
            },
        };
        d.process()
    } else if disc == Withdraw::DISCRIMINATOR {
        let w = match Withdraw::try_from(payload, accounts) {
            Ok(w) => w,
            Err(e) => {
                return Err(e);
            },
        };
        w.process(sibling, now)
    } else {
        Err(VaultError::InvalidAccountData)
    }
}

} // verus!
