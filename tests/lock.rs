use anchor_lang::prelude::Pubkey;
use diamondhands::address::{derive_address, seed_of, verify_address, Address};
use diamondhands::lock::{
    check_create, check_unfreeze, create_diamond_hands_account, derive_authority, new_record,
    record_after_release, unfreeze_assets, CreateDiamondHandsAccount, UnfreezeAssets,
};
use diamondhands::record::{
    get_dh_size, CreateDiamondHandsAccountParams, DiamondHandsAccount, ErrorCode,
    UnfreezeAssetsParam, MIN_FREEZE_TIME,
};
use diamondhands::token::{transfer, TokenAccount};

const NOW: u64 = 1_700_000_000;

fn addr(k: &Pubkey) -> Address {
    Address::new(k.to_bytes())
}

fn key(fill: u8) -> Address {
    Address::new([fill; 32])
}

struct Setup {
    program: Address,
    accounts: CreateDiamondHandsAccount,
    record_nonce: u8,
    authority_nonce: u8,
}

fn setup(owner_balance: u64, vault_balance: u64) -> Setup {
    let program = Pubkey::new_from_array([7; 32]);
    let owner = Pubkey::new_from_array([1; 32]);
    let mint = Pubkey::new_from_array([2; 32]);
    let (record, record_nonce) =
        Pubkey::find_program_address(&[owner.as_ref(), mint.as_ref()], &program);
    let (authority, authority_nonce) = Pubkey::find_program_address(&[record.as_ref()], &program);
    let accounts = CreateDiamondHandsAccount {
        diamondhands: addr(&record),
        diamondhands_data: None,
        gatekeeper: addr(&authority),
        vault: TokenAccount {
            address: key(3),
            mint: addr(&mint),
            owner: addr(&authority),
            amount: vault_balance,
        },
        owner_vault: TokenAccount {
            address: key(4),
            mint: addr(&mint),
            owner: addr(&owner),
            amount: owner_balance,
        },
        owner: addr(&owner),
    };
    Setup { program: addr(&program), accounts, record_nonce, authority_nonce }
}

fn params(s: &Setup, amount: u64, unlock: u64) -> CreateDiamondHandsAccountParams {
    CreateDiamondHandsAccountParams {
        diamondhands_nonce: s.record_nonce,
        nonce: s.authority_nonce,
        date_to_unfreeze: unlock,
        amount,
    }
}

fn release_accounts(c: &CreateDiamondHandsAccount) -> UnfreezeAssets {
    UnfreezeAssets {
        diamondhands: c.diamondhands_data.unwrap(),
        vault: c.vault,
        owner_vault: c.owner_vault,
        owner: c.owner,
    }
}

fn locked(owner_balance: u64, amount: u64, unlock: u64) -> (Setup, UnfreezeAssets) {
    let mut s = setup(owner_balance, 0);
    let p = params(&s, amount, unlock);
    assert_eq!(create_diamond_hands_account(&s.program.clone(), NOW, &mut s.accounts, p), Ok(()));
    let u = release_accounts(&s.accounts);
    (s, u)
}

#[test]
fn test_run() {}

#[test]
fn full_lock_lifecycle() {
    let unlock = NOW + 360001;
    let (s, mut u) = locked(1000, 1000, unlock);
    assert_eq!(u.vault.amount, 1000);
    assert_eq!(u.owner_vault.amount, 0);
    assert!(!u.diamondhands.thawed);

    let later = unlock;
    assert_eq!(unfreeze_assets(&s.program, later, &mut u, UnfreezeAssetsParam { amount: 400 }), Ok(()));
    assert_eq!(u.vault.amount, 600);
    assert_eq!(u.owner_vault.amount, 400);
    assert!(!u.diamondhands.thawed);

    assert_eq!(unfreeze_assets(&s.program, later, &mut u, UnfreezeAssetsParam { amount: 600 }), Ok(()));
    assert_eq!(u.vault.amount, 0);
    assert_eq!(u.owner_vault.amount, 1000);
    assert!(u.diamondhands.thawed);

    assert_eq!(
        unfreeze_assets(&s.program, later, &mut u, UnfreezeAssetsParam { amount: 1 }),
        Err(ErrorCode::AlreadyThawed)
    );
    assert_eq!(u.owner_vault.amount, 1000);
}

#[test]
fn create_moves_tokens_and_stores_record() {
    let mut s = setup(500, 20);
    let p = params(&s, 300, NOW + MIN_FREEZE_TIME);
    let before = s.accounts;
    assert_eq!(create_diamond_hands_account(&s.program.clone(), NOW, &mut s.accounts, p), Ok(()));
    assert_eq!(s.accounts.owner_vault.amount, 200);
    assert_eq!(s.accounts.vault.amount, 320);
    let rec = s.accounts.diamondhands_data.unwrap();
    assert!(!rec.thawed);
    assert_eq!(rec.owner, before.owner);
    assert_eq!(rec.diamondhands_account, before.diamondhands);
    assert_eq!(rec.gatekeeper, before.gatekeeper);
    assert_eq!(rec.vault, before.vault.address);
    assert_eq!(rec.diamondhands_nonce, s.record_nonce);
    assert_eq!(rec.nonce, s.authority_nonce);
    assert_eq!(rec.date_to_unfreeze, NOW + 360000);
}

#[test]
fn create_with_whole_balance() {
    let (_, u) = locked(1000, 1000, NOW + MIN_FREEZE_TIME);
    assert_eq!(u.owner_vault.amount, 0);
    assert_eq!(u.vault.amount, 1000);
}

#[test]
fn create_too_short_fails() {
    let mut s = setup(1000, 0);
    let p = params(&s, 10, NOW + 359999);
    let before = s.accounts;
    assert_eq!(
        create_diamond_hands_account(&s.program.clone(), NOW, &mut s.accounts, p),
        Err(ErrorCode::FreezeTimeTooShort)
    );
    assert_eq!(s.accounts.owner_vault.amount, before.owner_vault.amount);
    assert_eq!(s.accounts.vault.amount, before.vault.amount);
    assert!(s.accounts.diamondhands_data.is_none());
}

#[test]
fn create_near_end_of_time_fails_without_overflow() {
    let mut s = setup(1000, 0);
    let p = params(&s, 10, u64::MAX);
    assert_eq!(
        create_diamond_hands_account(&s.program.clone(), u64::MAX - 5, &mut s.accounts, p),
        Err(ErrorCode::FreezeTimeTooShort)
    );
}

#[test]
fn create_not_enough_tokens() {
    let mut s = setup(99, 0);
    let p = params(&s, 100, NOW + MIN_FREEZE_TIME);
    assert_eq!(
        create_diamond_hands_account(&s.program.clone(), NOW, &mut s.accounts, p),
        Err(ErrorCode::NotEnoughTokens)
    );
    assert_eq!(s.accounts.owner_vault.amount, 99);
}

#[test]
fn create_bad_record_nonce() {
    let mut s = setup(1000, 0);
    let mut p = params(&s, 10, NOW + MIN_FREEZE_TIME);
    p.diamondhands_nonce = s.record_nonce.wrapping_sub(1);
    assert_eq!(
        create_diamond_hands_account(&s.program.clone(), NOW, &mut s.accounts, p),
        Err(ErrorCode::BadDHAAddress)
    );
    assert_eq!(s.accounts.owner_vault.amount, 1000);
}

#[test]
fn create_bad_authority_nonce() {
    let mut s = setup(1000, 0);
    let mut p = params(&s, 10, NOW + MIN_FREEZE_TIME);
    p.nonce = s.authority_nonce.wrapping_sub(1);
    assert_eq!(
        create_diamond_hands_account(&s.program.clone(), NOW, &mut s.accounts, p),
        Err(ErrorCode::BadGatekeeper)
    );
    assert_eq!(s.accounts.vault.amount, 0);
}

#[test]
fn create_twice_fails() {
    let mut s = setup(1000, 0);
    let p = params(&s, 10, NOW + MIN_FREEZE_TIME);
    assert_eq!(create_diamond_hands_account(&s.program.clone(), NOW, &mut s.accounts, p), Ok(()));
    assert_eq!(
        create_diamond_hands_account(&s.program.clone(), NOW, &mut s.accounts, p),
        Err(ErrorCode::AccountInUse)
    );
    assert_eq!(s.accounts.owner_vault.amount, 990);
    assert_eq!(s.accounts.vault.amount, 10);
}

#[test]
fn create_vault_of_other_owner_fails() {
    let mut s = setup(1000, 0);
    s.accounts.vault.owner = key(9);
    let p = params(&s, 10, NOW + MIN_FREEZE_TIME);
    assert_eq!(
        create_diamond_hands_account(&s.program.clone(), NOW, &mut s.accounts, p),
        Err(ErrorCode::AccountMismatch)
    );
}

#[test]
fn create_vault_overflow_fails_transfer() {
    let mut s = setup(1000, u64::MAX - 5);
    let p = params(&s, 10, NOW + MIN_FREEZE_TIME);
    assert_eq!(
        create_diamond_hands_account(&s.program.clone(), NOW, &mut s.accounts, p),
        Err(ErrorCode::CouldNotTX)
    );
    assert_eq!(s.accounts.owner_vault.amount, 1000);
    assert_eq!(s.accounts.vault.amount, u64::MAX - 5);
    assert!(s.accounts.diamondhands_data.is_none());
}

#[test]
fn check_create_accepts_valid_request() {
    let s = setup(1000, 0);
    let p = params(&s, 1000, NOW + MIN_FREEZE_TIME);
    assert_eq!(check_create(&s.program, NOW, &s.accounts, &p), Ok(()));
    let rec = new_record(&s.accounts, &p);
    assert!(!rec.thawed);
    assert_eq!(rec.date_to_unfreeze, NOW + MIN_FREEZE_TIME);
}

#[test]
fn release_before_unlock_fails() {
    let unlock = NOW + 400000;
    let (s, mut u) = locked(1000, 1000, unlock);
    let before = u;
    assert_eq!(
        unfreeze_assets(&s.program, unlock - 1, &mut u, UnfreezeAssetsParam { amount: 1 }),
        Err(ErrorCode::StillFrozen)
    );
    assert_eq!(u.vault.amount, before.vault.amount);
    assert_eq!(u.owner_vault.amount, before.owner_vault.amount);
    assert!(!u.diamondhands.thawed);
}

#[test]
fn release_more_than_vault_fails() {
    let unlock = NOW + 400000;
    let (s, mut u) = locked(1000, 700, unlock);
    assert_eq!(
        unfreeze_assets(&s.program, unlock, &mut u, UnfreezeAssetsParam { amount: 701 }),
        Err(ErrorCode::NotEnoughTokensInAccount)
    );
    assert_eq!(u.vault.amount, 700);
    assert_eq!(u.owner_vault.amount, 300);
}

#[test]
fn release_full_vault_thaws_then_refuses() {
    let unlock = NOW + 400000;
    let (s, mut u) = locked(1000, 700, unlock);
    assert_eq!(unfreeze_assets(&s.program, unlock + 5, &mut u, UnfreezeAssetsParam { amount: 700 }), Ok(()));
    assert!(u.diamondhands.thawed);
    assert_eq!(u.vault.amount, 0);
    assert_eq!(u.owner_vault.amount, 1000);
    assert_eq!(
        unfreeze_assets(&s.program, unlock + 5, &mut u, UnfreezeAssetsParam { amount: 0 }),
        Err(ErrorCode::AlreadyThawed)
    );
    assert_eq!(
        unfreeze_assets(&s.program, NOW, &mut u, UnfreezeAssetsParam { amount: 5000 }),
        Err(ErrorCode::AlreadyThawed)
    );
}

#[test]
fn release_bad_authority_nonce() {
    let unlock = NOW + 400000;
    let (s, mut u) = locked(1000, 700, unlock);
    u.diamondhands.nonce = u.diamondhands.nonce.wrapping_sub(1);
    assert_eq!(
        unfreeze_assets(&s.program, unlock, &mut u, UnfreezeAssetsParam { amount: 1 }),
        Err(ErrorCode::BadGatekeeper)
    );
    assert_eq!(u.vault.amount, 700);
}

#[test]
fn release_by_other_owner_fails() {
    let unlock = NOW + 400000;
    let (s, mut u) = locked(1000, 700, unlock);
    u.owner = key(8);
    u.owner_vault.owner = key(8);
    assert_eq!(
        unfreeze_assets(&s.program, unlock, &mut u, UnfreezeAssetsParam { amount: 1 }),
        Err(ErrorCode::AccountMismatch)
    );
}

#[test]
fn release_into_full_account_fails_transfer() {
    let unlock = NOW + 400000;
    let (s, mut u) = locked(1000, 700, unlock);
    u.owner_vault.amount = u64::MAX;
    assert_eq!(
        unfreeze_assets(&s.program, unlock, &mut u, UnfreezeAssetsParam { amount: 1 }),
        Err(ErrorCode::CouldNotTX)
    );
    assert_eq!(u.vault.amount, 700);
    assert!(!u.diamondhands.thawed);
}

#[test]
fn check_unfreeze_returns_vault_authority() {
    let unlock = NOW + 400000;
    let (s, u) = locked(1000, 700, unlock);
    assert_eq!(check_unfreeze(&s.program, unlock, &u, &UnfreezeAssetsParam { amount: 7 }), Ok(u.vault.owner));
}

#[test]
fn record_after_release_thaws_only_when_emptied() {
    let (_, u) = locked(1000, 700, NOW + 400000);
    let mut rec: DiamondHandsAccount = u.diamondhands;
    record_after_release(&mut rec, 700, 699);
    assert!(!rec.thawed);
    record_after_release(&mut rec, 700, 700);
    assert!(rec.thawed);
}

#[test]
fn derive_matches_program_address() {
    let program = Pubkey::new_from_array([7; 32]);
    let record = Pubkey::new_from_array([5; 32]);
    let (expected, bump) = Pubkey::find_program_address(&[record.as_ref()], &program);
    let got = derive_address(vec![record.to_bytes().to_vec()], bump, &addr(&program));
    assert_eq!(got, Ok(addr(&expected)));
    assert_ne!(addr(&expected), addr(&program));
    assert_eq!(derive_authority(&addr(&record), bump, &addr(&program)), Ok(addr(&expected)));
    assert!(verify_address(vec![record.to_bytes().to_vec()], bump, &addr(&program), &addr(&expected)));
    assert!(!verify_address(vec![record.to_bytes().to_vec()], bump, &addr(&program), &addr(&record)));
}

#[test]
fn derive_rejects_long_seed() {
    let program = key(7);
    assert_eq!(derive_address(vec![vec![0u8; 33]], 255, &program), Err(ErrorCode::DerivationFailed));
}

#[test]
fn derive_rejects_too_many_seeds() {
    let program = key(7);
    let seeds: Vec<Vec<u8>> = (0..16).map(|i| vec![i as u8]).collect();
    assert_eq!(derive_address(seeds, 255, &program), Err(ErrorCode::DerivationFailed));
}

#[test]
fn seed_is_address_bytes() {
    let a = Address::new([3; 32]);
    assert_eq!(seed_of(&a), vec![3u8; 32]);
    assert!(a.same(&key(3)));
    assert!(!a.same(&key(4)));
}

#[test]
fn transfer_moves_and_refuses() {
    let mint = key(2);
    let mut a = TokenAccount { address: key(10), mint, owner: key(1), amount: 50 };
    let mut b = TokenAccount { address: key(11), mint, owner: key(6), amount: 5 };
    assert!(transfer(&mut a, &mut b, &key(1), 20));
    assert_eq!((a.amount, b.amount), (30, 25));
    assert!(!transfer(&mut a, &mut b, &key(6), 1));
    assert!(!transfer(&mut a, &mut b, &key(1), 31));
    b.mint = key(12);
    assert!(!transfer(&mut a, &mut b, &key(1), 1));
    assert_eq!((a.amount, b.amount), (30, 25));
}

#[test]
fn record_size_is_fixed() {
    assert_eq!(get_dh_size(), 147);
}
