//! The persisted lock record, the instruction parameters and the error kinds.
use vstd::prelude::*;

use crate::address::Address;

verus! {

/// The shortest lock a record may be created with, in seconds (100 hours).
pub const MIN_FREEZE_TIME: u64 = 360000;

/// Why an operation was refused. Every refusal leaves all state as it was.
#[derive(Clone, Copy, Debug, PartialEq, Eq, Structural)]
pub enum ErrorCode {
    GeneralError,
    /// The token transfer itself was refused.
    CouldNotTX,
    /// The owner's holding account holds less than the amount to lock.
    NotEnoughTokens,
    /// The unlock time is less than `MIN_FREEZE_TIME` after now.
    FreezeTimeTooShort,
    /// The record address does not derive from the owner, the mint and the record nonce.
    BadDHAAddress,
    /// The authority address does not derive from the record address and the authority nonce.
    BadGatekeeper,
    /// The vault holds less than the amount asked for.
    NotEnoughTokensInAccount,
    /// The unlock time has not come yet.
    StillFrozen,
    /// The vault was already emptied; the record takes no further release.
    AlreadyThawed,
    /// The record's address already holds a record.
    AccountInUse,
    /// An account handed in is not the one that the record names.
    AccountMismatch,
    /// No address derives from the seeds and the nonce.
    DerivationFailed,
}

/// One escrow: who locked, where the tokens sit, who controls them, and until when.
#[derive(Clone, Copy, Debug)]
pub struct DiamondHandsAccount {
    pub owner: Address,
    /// The record's own address.
    pub diamondhands_account: Address,
    /// The nonce that, with the owner and the mint, derives the record's address.
    pub diamondhands_nonce: u8,
    /// The derived authority that controls the vault.
    pub gatekeeper: Address,
    /// The nonce that, with the record's address, derives the authority.
    pub nonce: u8,
    /// The token account that holds the locked tokens.
    pub vault: Address,
    /// Set once the vault has been emptied by a release; never cleared.
    pub thawed: bool,
    /// No release succeeds before this time.
    pub date_to_unfreeze: u64,
}

/// Parameters of the lock creation.
#[derive(Clone, Copy, Debug)]
pub struct CreateDiamondHandsAccountParams {
    pub diamondhands_nonce: u8,
    pub nonce: u8,
    pub date_to_unfreeze: u64,
    pub amount: u64,
}

/// Parameters of a release.
#[derive(Clone, Copy, Debug)]
pub struct UnfreezeAssetsParam {
    pub amount: u64,
}

/// Bytes that a stored record takes: an 8-byte type tag, four addresses, two
/// nonces, the thawed flag and the unlock time.
pub fn get_dh_size() -> (r: usize)
    ensures
        r == 8 + 4 * 32 + 1 + 1 + 1 + 8,
{
    8 + 32 + 32 + 1 + 32 + 1 + 32 + 1 + 8
}

} // verus!
