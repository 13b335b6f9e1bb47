//! Properties of lock creation and release, stated over their outcomes.
use vstd::prelude::*;

use crate::address::derived_address;
use crate::lock::{
    authority_seeds, create_outcome, record_for, record_seeds, unfreeze_outcome,
    CreateDiamondHandsAccount, UnfreezeAssets,
};
use crate::record::{CreateDiamondHandsAccountParams, ErrorCode, UnfreezeAssetsParam, MIN_FREEZE_TIME};

verus! {

/// The accounts of a creation are the ones its parameters derive and name: the
/// record's slot is empty, the record and authority addresses derive from their
/// nonces, the vault belongs to the authority, the holding account to the owner,
/// both hold one mint, and they are two accounts.
pub open spec fn create_accounts_match(
    program_id: Seq<u8>,
    a: CreateDiamondHandsAccount,
    p: CreateDiamondHandsAccountParams,
) -> bool {
    &&& a.diamondhands_data is None
    &&& derived_address(record_seeds(a.owner@, a.owner_vault.mint@), p.diamondhands_nonce, program_id)
        == Some(a.diamondhands@)
    &&& derived_address(authority_seeds(a.diamondhands@), p.nonce, program_id) == Some(a.gatekeeper@)
    &&& a.vault.owner@ == a.gatekeeper@
    &&& a.owner_vault.owner@ == a.owner@
    &&& a.owner_vault.mint@ == a.vault.mint@
    &&& a.owner_vault.address@ != a.vault.address@
}

/// The accounts of a release are the ones its record names, and they are two accounts.
pub open spec fn release_accounts_match(a: UnfreezeAssets) -> bool {
    &&& a.owner@ == a.diamondhands.owner@
    &&& a.vault.address@ == a.diamondhands.vault@
    &&& a.owner_vault.owner@ == a.owner@
    &&& a.owner_vault.mint@ == a.vault.mint@
    &&& a.owner_vault.address@ != a.vault.address@
}

/// With matching accounts, an amount the owner holds and an unlock time at least
/// `MIN_FREEZE_TIME` away, a creation succeeds: the owner is debited the amount, the
/// vault credited it, and an unthawed record is stored. (The vault's balance must
/// have room for the amount.)
pub proof fn lemma_create_succeeds(
    program_id: Seq<u8>,
    now: u64,
    a: CreateDiamondHandsAccount,
    p: CreateDiamondHandsAccountParams,
)
    requires
        create_accounts_match(program_id, a, p),
        p.amount <= a.owner_vault.amount,
        p.date_to_unfreeze >= now + MIN_FREEZE_TIME,
        a.vault.amount + p.amount <= u64::MAX,
    ensures
        ({
            let (r, b) = create_outcome(program_id, now, a, p);
            &&& r is Ok
            &&& b.owner_vault.amount == a.owner_vault.amount - p.amount
            &&& b.vault.amount == a.vault.amount + p.amount
            &&& b.diamondhands_data == Some(record_for(a, p))
            &&& !record_for(a, p).thawed
        }),
{
}

/// A creation whose unlock time is less than `MIN_FREEZE_TIME` away fails with
/// `FreezeTimeTooShort` and moves no tokens, given an empty record slot and an
/// amount the owner holds (the checks made before it).
pub proof fn lemma_create_too_short(
    program_id: Seq<u8>,
    now: u64,
    a: CreateDiamondHandsAccount,
    p: CreateDiamondHandsAccountParams,
)
    requires
        a.diamondhands_data is None,
        p.amount <= a.owner_vault.amount,
        p.date_to_unfreeze < now + MIN_FREEZE_TIME,
    ensures
        create_outcome(program_id, now, a, p) == (Err::<(), ErrorCode>(ErrorCode::FreezeTimeTooShort), a),
{
}

/// A creation that fails changes nothing.
pub proof fn lemma_create_failure_changes_nothing(
    program_id: Seq<u8>,
    now: u64,
    a: CreateDiamondHandsAccount,
    p: CreateDiamondHandsAccountParams,
)
    ensures
        create_outcome(program_id, now, a, p).0 is Err ==> create_outcome(program_id, now, a, p).1
            == a,
{
}

/// A release of an unthawed record before its unlock time fails with
/// `StillFrozen` and changes nothing.
pub proof fn lemma_release_too_early(
    program_id: Seq<u8>,
    now: u64,
    a: UnfreezeAssets,
    p: UnfreezeAssetsParam,
)
    requires
        !a.diamondhands.thawed,
        now < a.diamondhands.date_to_unfreeze,
    ensures
        unfreeze_outcome(program_id, now, a, p) == (Err::<(), ErrorCode>(ErrorCode::StillFrozen), a),
{
}

/// A release that takes the whole vault thaws the record, and every later release
/// on that record fails with `AlreadyThawed` and changes nothing, whatever its
/// time, accounts and amount.
pub proof fn lemma_full_release_thaws(
    program_id: Seq<u8>,
    now: u64,
    a: UnfreezeAssets,
    p: UnfreezeAssetsParam,
)
    requires
        unfreeze_outcome(program_id, now, a, p).0 is Ok,
        p.amount == a.vault.amount,
    ensures
        unfreeze_outcome(program_id, now, a, p).1.diamondhands.thawed,
        unfreeze_outcome(program_id, now, a, p).1.vault.amount == 0,
        forall|pid: Seq<u8>, later: u64, a2: UnfreezeAssets, p2: UnfreezeAssetsParam|
            a2.diamondhands == unfreeze_outcome(program_id, now, a, p).1.diamondhands
                ==> #[trigger] unfreeze_outcome(pid, later, a2, p2) == (Err::<(), ErrorCode>(
                ErrorCode::AlreadyThawed,
            ), a2),
{
}

/// A successful release that leaves tokens in the vault keeps the record unthawed.
pub proof fn lemma_partial_release_keeps_lock(
    program_id: Seq<u8>,
    now: u64,
    a: UnfreezeAssets,
    p: UnfreezeAssetsParam,
)
    requires
        unfreeze_outcome(program_id, now, a, p).0 is Ok,
        p.amount < a.vault.amount,
    ensures
        !unfreeze_outcome(program_id, now, a, p).1.diamondhands.thawed,
        unfreeze_outcome(program_id, now, a, p).1.vault.amount == a.vault.amount - p.amount,
{
}

/// A release of an unthawed, unlocked record that asks for more than the vault
/// holds fails with `NotEnoughTokensInAccount` and changes nothing.
pub proof fn lemma_release_over_vault(
    program_id: Seq<u8>,
    now: u64,
    a: UnfreezeAssets,
    p: UnfreezeAssetsParam,
)
    requires
        !a.diamondhands.thawed,
        now >= a.diamondhands.date_to_unfreeze,
        p.amount > a.vault.amount,
    ensures
        unfreeze_outcome(program_id, now, a, p) == (Err::<(), ErrorCode>(
            ErrorCode::NotEnoughTokensInAccount,
        ), a),
{
}

/// A release that fails changes nothing.
pub proof fn lemma_release_failure_changes_nothing(
    program_id: Seq<u8>,
    now: u64,
    a: UnfreezeAssets,
    p: UnfreezeAssetsParam,
)
    ensures
        unfreeze_outcome(program_id, now, a, p).0 is Err ==> unfreeze_outcome(
            program_id,
            now,
            a,
            p,
        ).1 == a,
{
}

/// Once the balance and time checks of a creation pass, a record nonce that does
/// not derive the claimed record address fails with `BadDHAAddress`, and one that
/// does, with an authority nonce that does not derive the claimed authority,
/// fails with `BadGatekeeper`; either way nothing changes.
pub proof fn lemma_create_nonce_mismatch(
    program_id: Seq<u8>,
    now: u64,
    a: CreateDiamondHandsAccount,
    p: CreateDiamondHandsAccountParams,
)
    requires
        a.diamondhands_data is None,
        p.amount <= a.owner_vault.amount,
        p.date_to_unfreeze >= now + MIN_FREEZE_TIME,
    ensures
        derived_address(record_seeds(a.owner@, a.owner_vault.mint@), p.diamondhands_nonce, program_id)
            != Some(a.diamondhands@) ==> create_outcome(program_id, now, a, p) == (Err::<
            (),
            ErrorCode,
        >(ErrorCode::BadDHAAddress), a),
        derived_address(record_seeds(a.owner@, a.owner_vault.mint@), p.diamondhands_nonce, program_id)
            == Some(a.diamondhands@) && derived_address(
            authority_seeds(a.diamondhands@),
            p.nonce,
            program_id,
        ) != Some(a.gatekeeper@) ==> create_outcome(program_id, now, a, p) == (Err::<
            (),
            ErrorCode,
        >(ErrorCode::BadGatekeeper), a),
{
}

/// Once the state, time, balance and account checks of a release pass, a record
/// whose authority nonce does not derive the vault's authority fails with
/// `BadGatekeeper` and changes nothing.
pub proof fn lemma_release_nonce_mismatch(
    program_id: Seq<u8>,
    now: u64,
    a: UnfreezeAssets,
    p: UnfreezeAssetsParam,
)
    requires
        !a.diamondhands.thawed,
        now >= a.diamondhands.date_to_unfreeze,
        p.amount <= a.vault.amount,
        release_accounts_match(a),
        derived_address(authority_seeds(a.diamondhands.diamondhands_account@), a.diamondhands.nonce, program_id)
            != Some(a.vault.owner@),
    ensures
        unfreeze_outcome(program_id, now, a, p) == (Err::<(), ErrorCode>(ErrorCode::BadGatekeeper), a),
{
}

/// A lock that was created can be released by its owner once its unlock time has
/// come: the authority derived again from the stored record is the vault's
/// authority, so a release of up to the vault's balance into the same holding
/// account succeeds (where that account has room for the amount).
pub proof fn lemma_created_lock_releasable(
    program_id: Seq<u8>,
    now: u64,
    a: CreateDiamondHandsAccount,
    p: CreateDiamondHandsAccountParams,
    later: u64,
    q: UnfreezeAssetsParam,
)
    requires
        create_outcome(program_id, now, a, p).0 is Ok,
        later >= p.date_to_unfreeze,
        q.amount <= create_outcome(program_id, now, a, p).1.vault.amount,
        create_outcome(program_id, now, a, p).1.owner_vault.amount + q.amount <= u64::MAX,
    ensures
        ({
            let b = create_outcome(program_id, now, a, p).1;
            let u = UnfreezeAssets {
                diamondhands: record_for(a, p),
                vault: b.vault,
                owner_vault: b.owner_vault,
                owner: b.owner,
            };
            unfreeze_outcome(program_id, later, u, q).0 is Ok
        }),
{
}

/// Creations and releases move tokens between the owner's holding account and the
/// vault without making or losing any: the two balances keep their sum.
pub proof fn lemma_tokens_conserved(
    program_id: Seq<u8>,
    now: u64,
    c: CreateDiamondHandsAccount,
    p: CreateDiamondHandsAccountParams,
    u: UnfreezeAssets,
    q: UnfreezeAssetsParam,
)
    ensures
        create_outcome(program_id, now, c, p).1.owner_vault.amount + create_outcome(
            program_id,
            now,
            c,
            p,
        ).1.vault.amount == c.owner_vault.amount + c.vault.amount,
        unfreeze_outcome(program_id, now, u, q).1.owner_vault.amount + unfreeze_outcome(
            program_id,
            now,
            u,
            q,
        ).1.vault.amount == u.owner_vault.amount + u.vault.amount,
{
}

} // verus!
