//! The failure kinds the program surfaces to the host runtime.
use vstd::prelude::*;

verus! {

/// Every failure aborts the whole transaction; the host discards all state
/// changes, so no error leaves a partial effect behind.
#[derive(Clone, Copy, PartialEq, Eq, Structural, Debug)]
pub enum VaultError {
    /// The instruction came with the wrong number of accounts.
    NotEnoughAccountKeys,
    /// A signer is missing, an account has the wrong owner, or an address
    /// does not match the one derived from the authorizing key.
    InvalidAccountOwner,
    /// An account's balance contradicts the requested operation, the
    /// signed authorization is expired, the signed message is too short
    /// to parse, or the discriminator selects no operation.
    InvalidAccountData,
    /// The instruction payload or the sibling signature instruction is
    /// malformed.
    InvalidInstructionData,
}

} // verus!
