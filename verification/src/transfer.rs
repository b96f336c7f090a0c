//! The single value transfer an instruction resolves to, and its effect on
//! balances.
//!
//! The program never moves value itself: it validates a request and hands
//! the host runtime one transfer order. The host debits the source and
//! credits the destination atomically; `transfer_effect` is the model of
//! that step that the balance laws and tests are stated against.
use vstd::prelude::*;

verus! {

/// Mathematical view of signing authority over a derived vault.
pub struct AuthoritySpec {
    pub signer_key: Seq<u8>,
    pub bump: u8,
}

/// Evidence that the program may move value out of a derived vault: the
/// authorizing key and bump that re-derive the vault address under this
/// program's identity. The host checks the derivation when the transfer is
/// invoked.
pub struct VaultAuthority {
    pub signer_key: Vec<u8>,
    pub bump: u8,
}

impl View for VaultAuthority {
    type V = AuthoritySpec;

    open spec fn view(&self) -> AuthoritySpec {
        AuthoritySpec { signer_key: self.signer_key@, bump: self.bump }
    }
}

/// Mathematical view of a transfer order.
pub struct TransferSpec {
    pub from: Seq<u8>,
    pub to: Seq<u8>,
    pub lamports: u64,
    pub authority: Option<AuthoritySpec>,
}

/// The one value transfer an instruction resolves to. For a Deposit the
/// payer itself signs the transaction, so `authority` is `None`; for a
/// Withdraw the program signs for the vault with the derivation seeds.
pub struct TransferAction {
    pub from: Vec<u8>,
    pub to: Vec<u8>,
    pub lamports: u64,
    pub authority: Option<VaultAuthority>,
}

impl View for TransferAction {
    type V = TransferSpec;

    open spec fn view(&self) -> TransferSpec {
        TransferSpec {
            from: self.from@,
            to: self.to@,
            lamports: self.lamports,
            authority: match self.authority {
                Some(a) => Some(a@),
                None => None,
            },
        }
    }
}

/// The host's native transfer: `amount` leaves the source balance and
/// reaches the destination balance, or the whole transaction fails when the
/// source holds too little or the destination would overflow.
pub open spec fn transfer_effect(from_balance: u64, to_balance: u64, amount: u64) -> Option<
    (u64, u64),
> {
    if amount <= from_balance && to_balance + amount <= u64::MAX {
        Some(((from_balance - amount) as u64, (to_balance + amount) as u64))
    } else {
        None
    }
}

/// Applies a transfer order to a pair of balances, as the host would.
pub fn apply_transfer(from_balance: u64, to_balance: u64, amount: u64) -> (r: Option<(u64, u64)>)
    ensures
        r == transfer_effect(from_balance, to_balance, amount),
{
    if amount <= from_balance && to_balance <= u64::MAX - amount {
        Some((from_balance - amount, to_balance + amount))
    } else {
        None
    }
}

} // verus!
