//! Creating a lock and releasing it: validation, the token movement and the record.
use vstd::prelude::*;

use crate::address::{derive_address, derived_address, seed_of, verify_address, Address};
use crate::record::{
    CreateDiamondHandsAccountParams, DiamondHandsAccount, ErrorCode, UnfreezeAssetsParam,
    MIN_FREEZE_TIME,
};
use crate::token::{transfer, transfer_allowed, with_amount, TokenAccount};

verus! {

/// The accounts that a lock creation works on.
#[derive(Clone, Copy, Debug)]
pub struct CreateDiamondHandsAccount {
    /// The address claimed for the new record.
    pub diamondhands: Address,
    /// What that address holds: nothing until a record is created there.
    pub diamondhands_data: Option<DiamondHandsAccount>,
    /// The address claimed for the vault's authority.
    pub gatekeeper: Address,
    /// The vault that receives the locked tokens.
    pub vault: TokenAccount,
    /// The owner's holding account that the tokens come from.
    pub owner_vault: TokenAccount,
    /// The owner, who signs the creation.
    pub owner: Address,
}

/// The seeds of a record's address: its owner and its mint.
pub open spec fn record_seeds(owner: Seq<u8>, mint: Seq<u8>) -> Seq<Seq<u8>> {
    seq![owner, mint]
}

/// The seeds of an authority's address: the record's address.
pub open spec fn authority_seeds(record: Seq<u8>) -> Seq<Seq<u8>> {
    seq![record]
}

/// The first check of a lock creation that fails, if any.
pub open spec fn create_error(
    program_id: Seq<u8>,
    now: u64,
    a: CreateDiamondHandsAccount,
    p: CreateDiamondHandsAccountParams,
) -> Option<ErrorCode> {
    if a.diamondhands_data is Some {
        Some(ErrorCode::AccountInUse)
    } else if a.owner_vault.amount < p.amount {
        Some(ErrorCode::NotEnoughTokens)
    } else if now + MIN_FREEZE_TIME > p.date_to_unfreeze {
        Some(ErrorCode::FreezeTimeTooShort)
    } else if derived_address(
        record_seeds(a.owner@, a.owner_vault.mint@),
        p.diamondhands_nonce,
        program_id,
    ) != Some(a.diamondhands@) {
        Some(ErrorCode::BadDHAAddress)
    } else if derived_address(authority_seeds(a.diamondhands@), p.nonce, program_id) != Some(
        a.gatekeeper@,
    ) {
        Some(ErrorCode::BadGatekeeper)
    } else if a.vault.owner@ != a.gatekeeper@ || a.owner_vault.owner@ != a.owner@
        || a.owner_vault.mint@ != a.vault.mint@ {
        Some(ErrorCode::AccountMismatch)
    } else {
        None
    }
}

/// The record that a successful creation stores.
pub open spec fn record_for(
    a: CreateDiamondHandsAccount,
    p: CreateDiamondHandsAccountParams,
) -> DiamondHandsAccount {
    DiamondHandsAccount {
        owner: a.owner,
        diamondhands_account: a.diamondhands,
        diamondhands_nonce: p.diamondhands_nonce,
        gatekeeper: a.gatekeeper,
        nonce: p.nonce,
        vault: a.vault.address,
        thawed: false,
        date_to_unfreeze: p.date_to_unfreeze,
    }
}

/// The result of a lock creation and the accounts after it.
pub open spec fn create_outcome(
    program_id: Seq<u8>,
    now: u64,
    a: CreateDiamondHandsAccount,
    p: CreateDiamondHandsAccountParams,
) -> (Result<(), ErrorCode>, CreateDiamondHandsAccount) {
    match create_error(program_id, now, a, p) {
        Some(e) => (Err(e), a),
        None => if transfer_allowed(a.owner_vault, a.vault, a.owner@, p.amount) {
            (
                Ok(()),
                CreateDiamondHandsAccount {
                    diamondhands_data: Some(record_for(a, p)),
                    owner_vault: with_amount(a.owner_vault, (a.owner_vault.amount - p.amount) as u64),
                    vault: with_amount(a.vault, (a.vault.amount + p.amount) as u64),
                    ..a
                },
            )
        } else {
            (Err(ErrorCode::CouldNotTX), a)
        },
    }
}

/// Runs the checks of a lock creation, in order, and returns the first that fails.
pub fn check_create(
    program_id: &Address,
    now: u64,
    accounts: &CreateDiamondHandsAccount,
    params: &CreateDiamondHandsAccountParams,
) -> (r: Result<(), ErrorCode>)
    ensures
        r == (match create_error(program_id@, now, *accounts, *params) {
            Some(e) => Err(e),
            None => Ok(()),
        }),
{
    if accounts.diamondhands_data.is_some() {
        return Err(ErrorCode::AccountInUse);
    }
    if accounts.owner_vault.amount < params.amount {
        return Err(ErrorCode::NotEnoughTokens);
    }
    if now > u64::MAX - MIN_FREEZE_TIME || now + MIN_FREEZE_TIME > params.date_to_unfreeze {
        return Err(ErrorCode::FreezeTimeTooShort);
    }
    let owner_seed = seed_of(&accounts.owner);
    let mint_seed = seed_of(&accounts.owner_vault.mint);
    proof {
        assert(owner_seed.deep_view() =~= owner_seed@);
        assert(mint_seed.deep_view() =~= mint_seed@);
    }
    let record_seed_vec: Vec<Vec<u8>> = vec![owner_seed, mint_seed];
    proof {
        assert(record_seed_vec.deep_view() =~= record_seeds(
            accounts.owner@,
            accounts.owner_vault.mint@,
        ));
    }
    if !verify_address(record_seed_vec, params.diamondhands_nonce, program_id, &accounts.diamondhands) {
        return Err(ErrorCode::BadDHAAddress);
    }
    let record_seed = seed_of(&accounts.diamondhands);
    proof {
        assert(record_seed.deep_view() =~= record_seed@);
    }
    let authority_seed_vec: Vec<Vec<u8>> = vec![record_seed];
    proof {
        assert(authority_seed_vec.deep_view() =~= authority_seeds(accounts.diamondhands@));
    }
    if !verify_address(authority_seed_vec, params.nonce, program_id, &accounts.gatekeeper) {
        return Err(ErrorCode::BadGatekeeper);
    }
    if !accounts.vault.owner.same(&accounts.gatekeeper) || !accounts.owner_vault.owner.same(
        &accounts.owner,
    ) || !accounts.owner_vault.mint.same(&accounts.vault.mint) {
        return Err(ErrorCode::AccountMismatch);
    }
    Ok(())
}

/// The record that a successful creation with these accounts and parameters stores.
pub fn new_record(
    accounts: &CreateDiamondHandsAccount,
    params: &CreateDiamondHandsAccountParams,
) -> (r: DiamondHandsAccount)
    ensures
        r == record_for(*accounts, *params),
{
    DiamondHandsAccount {
        owner: accounts.owner,
        diamondhands_account: accounts.diamondhands,
        diamondhands_nonce: params.diamondhands_nonce,
        gatekeeper: accounts.gatekeeper,
        nonce: params.nonce,
        vault: accounts.vault.address,
        thawed: false,
        date_to_unfreeze: params.date_to_unfreeze,
    }
}

/// Locks `params.amount` tokens of the owner in the vault until
/// `params.date_to_unfreeze`, and stores the record at its address. Either all of
/// it happens or, on any error, nothing does.
pub fn create_diamond_hands_account(
    program_id: &Address,
    now: u64,
    accounts: &mut CreateDiamondHandsAccount,
    params: CreateDiamondHandsAccountParams,
) -> (r: Result<(), ErrorCode>)
    ensures
        (r, *final(accounts)) == create_outcome(program_id@, now, *old(accounts), params),
{
    match check_create(program_id, now, accounts, &params) {
        Err(e) => {
            return Err(e);
        },
        Ok(()) => {},
    }
    let mut source = accounts.owner_vault;
    let mut vault = accounts.vault;
    if !transfer(&mut source, &mut vault, &accounts.owner, params.amount) {
        return Err(ErrorCode::CouldNotTX);
    }
    let record = new_record(accounts, &params);
    accounts.owner_vault = source;
    accounts.vault = vault;
    accounts.diamondhands_data = Some(record);
    Ok(())
}

/// The accounts that a release works on. The vault's authority is not handed in:
/// it is derived again from the record.
#[derive(Clone, Copy, Debug)]
pub struct UnfreezeAssets {
    /// The lock's record.
    pub diamondhands: DiamondHandsAccount,
    /// The vault that the tokens leave.
    pub vault: TokenAccount,
    /// The owner's holding account that receives them.
    pub owner_vault: TokenAccount,
    /// The owner, who signs the release.
    pub owner: Address,
}

/// The first check of a release that fails, if any.
pub open spec fn unfreeze_error(
    program_id: Seq<u8>,
    now: u64,
    a: UnfreezeAssets,
    p: UnfreezeAssetsParam,
) -> Option<ErrorCode> {
    let rec = a.diamondhands;
    if rec.thawed {
        Some(ErrorCode::AlreadyThawed)
    } else if now < rec.date_to_unfreeze {
        Some(ErrorCode::StillFrozen)
    } else if a.vault.amount < p.amount {
        Some(ErrorCode::NotEnoughTokensInAccount)
    } else if a.owner@ != rec.owner@ || a.vault.address@ != rec.vault@ || a.owner_vault.owner@
        != a.owner@ || a.owner_vault.mint@ != a.vault.mint@ {
        Some(ErrorCode::AccountMismatch)
    } else if derived_address(authority_seeds(rec.diamondhands_account@), rec.nonce, program_id)
        != Some(a.vault.owner@) {
        Some(ErrorCode::BadGatekeeper)
    } else {
        None
    }
}

/// The result of a release and the accounts after it.
pub open spec fn unfreeze_outcome(
    program_id: Seq<u8>,
    now: u64,
    a: UnfreezeAssets,
    p: UnfreezeAssetsParam,
) -> (Result<(), ErrorCode>, UnfreezeAssets) {
    match unfreeze_error(program_id, now, a, p) {
        Some(e) => (Err(e), a),
        None => if transfer_allowed(a.vault, a.owner_vault, a.vault.owner@, p.amount) {
            (
                Ok(()),
                UnfreezeAssets {
                    diamondhands: DiamondHandsAccount {
                        thawed: p.amount == a.vault.amount,
                        ..a.diamondhands
                    },
                    vault: with_amount(a.vault, (a.vault.amount - p.amount) as u64),
                    owner_vault: with_amount(a.owner_vault, (a.owner_vault.amount + p.amount) as u64),
                    ..a
                },
            )
        } else {
            (Err(ErrorCode::CouldNotTX), a)
        },
    }
}

/// Derives a record's vault authority from the record's address and the nonce.
pub fn derive_authority(record: &Address, nonce: u8, program_id: &Address) -> (r: Result<
    Address,
    ErrorCode,
>)
    ensures
        match r {
            Ok(k) => derived_address(authority_seeds(record@), nonce, program_id@) == Some(k@),
            Err(e) => e == ErrorCode::DerivationFailed && derived_address(
                authority_seeds(record@),
                nonce,
                program_id@,
            ) is None,
        },
{
    let record_seed = seed_of(record);
    proof {
        assert(record_seed.deep_view() =~= record_seed@);
    }
    let seeds: Vec<Vec<u8>> = vec![record_seed];
    proof {
        assert(seeds.deep_view() =~= authority_seeds(record@));
    }
    derive_address(seeds, nonce, program_id)
}

/// Runs the checks of a release, in order, and returns the first that fails; on
/// success, the re-derived authority of the vault.
pub fn check_unfreeze(
    program_id: &Address,
    now: u64,
    accounts: &UnfreezeAssets,
    params: &UnfreezeAssetsParam,
) -> (r: Result<Address, ErrorCode>)
    ensures
        match unfreeze_error(program_id@, now, *accounts, *params) {
            Some(e) => r == Err::<Address, ErrorCode>(e),
            None => r matches Ok(k) && k@ == accounts.vault.owner@,
        },
{
    let rec = &accounts.diamondhands;
    if rec.thawed {
        return Err(ErrorCode::AlreadyThawed);
    }
    if now < rec.date_to_unfreeze {
        return Err(ErrorCode::StillFrozen);
    }
    if accounts.vault.amount < params.amount {
        return Err(ErrorCode::NotEnoughTokensInAccount);
    }
    if !accounts.owner.same(&rec.owner) || !accounts.vault.address.same(&rec.vault)
        || !accounts.owner_vault.owner.same(&accounts.owner) || !accounts.owner_vault.mint.same(
        &accounts.vault.mint,
    ) {
        return Err(ErrorCode::AccountMismatch);
    }
    match derive_authority(&rec.diamondhands_account, rec.nonce, program_id) {
        Ok(k) => {
            if k.same(&accounts.vault.owner) {
                Ok(k)
            } else {
                Err(ErrorCode::BadGatekeeper)
            }
        },
        Err(_) => Err(ErrorCode::BadGatekeeper),
    }
}

/// The record after `amount` tokens left a vault that held `vault_before`: thawed
/// exactly when that emptied the vault.
pub fn record_after_release(record: &mut DiamondHandsAccount, vault_before: u64, amount: u64)
    ensures
        *final(record) == (DiamondHandsAccount { thawed: amount == vault_before, ..*old(record) }),
{
    record.thawed = amount == vault_before;
}

/// Moves `params.amount` tokens from the vault back to the owner, acting as the
/// re-derived authority, and thaws the record when that empties the vault. Either
/// all of it happens or, on any error, nothing does.
pub fn unfreeze_assets(
    program_id: &Address,
    now: u64,
    accounts: &mut UnfreezeAssets,
    params: UnfreezeAssetsParam,
) -> (r: Result<(), ErrorCode>)
    ensures
        (r, *final(accounts)) == unfreeze_outcome(program_id@, now, *old(accounts), params),
{
    let authority = match check_unfreeze(program_id, now, accounts, &params) {
        Err(e) => {
            return Err(e);
        },
        Ok(k) => k,
    };
    let vault_before = accounts.vault.amount;
    let mut vault = accounts.vault;
    let mut dest = accounts.owner_vault;
    if !transfer(&mut vault, &mut dest, &authority, params.amount) {
        return Err(ErrorCode::CouldNotTX);
    }
    let mut record = accounts.diamondhands;
    record_after_release(&mut record, vault_before, params.amount);
    accounts.vault = vault;
    accounts.owner_vault = dest;
    accounts.diamondhands = record;
    Ok(())
}

} // verus!
