use anchor_lang::solana_program::pubkey::Pubkey;
use escrow_vault::derivation::{
    escrow_seed_list, escrow_tag_bytes, locate_escrow, signer_seed_list, verify_escrow_address,
};
use escrow_vault::key::Key;
use escrow_vault::vault::{
    deposit, withdraw, Deposit, ErrorCode, EscrowAccount, Owner, UserAccount, Withdraw,
};

fn program() -> Key {
    Key::new([7u8; 32])
}

fn identity(b: u8) -> Key {
    let mut bytes = [0u8; 32];
    bytes[0] = b;
    bytes[31] = b.wrapping_mul(3);
    Key::new(bytes)
}

fn fresh_deposit(user: Key, reserve: u64) -> Deposit {
    let (address, _) = locate_escrow(&program(), &user).unwrap();
    Deposit::try_accounts(program(), user, address, None, reserve).unwrap()
}

fn owned_account(user: Key, held: u64, reserve: u64) -> Withdraw {
    let (address, _) = locate_escrow(&program(), &user).unwrap();
    let data = UserAccount { owner: Owner::OwnedBy(user) };
    Withdraw::try_accounts(program(), user, address, data, held, reserve).unwrap()
}

#[test]
fn keys_compare_by_bytes() {
    assert!(identity(1).same(&identity(1)));
    assert!(!identity(1).same(&identity(2)));
    assert_eq!(identity(4).to_vec(), identity(4).bytes.to_vec());
}

#[test]
fn tag_is_user_account() {
    assert_eq!(escrow_tag_bytes(), b"user_account".to_vec());
    let seeds = escrow_seed_list(&identity(9));
    assert_eq!(seeds, vec![b"user_account".to_vec(), identity(9).bytes.to_vec()]);
    let signer = signer_seed_list(&identity(9), 254);
    assert_eq!(signer.len(), 3);
    assert_eq!(signer[2], vec![254u8]);
}

#[test]
fn escrow_address_matches_ledger_derivation() {
    let user = identity(5);
    let (address, bump) = locate_escrow(&program(), &user).unwrap();
    let (expected, expected_bump) = Pubkey::find_program_address(
        &[b"user_account", &user.bytes],
        &Pubkey::new_from_array(program().bytes),
    );
    assert_eq!(address.bytes, expected.to_bytes());
    assert_eq!(bump, expected_bump);
    assert!(!address.same(&user));
    assert!(!address.same(&program()));
    let again = Pubkey::create_program_address(
        &[b"user_account", &user.bytes, &[bump]],
        &Pubkey::new_from_array(program().bytes),
    )
    .unwrap();
    assert_eq!(again.to_bytes(), address.bytes);
}

#[test]
fn verify_accepts_only_the_canonical_address() {
    let user = identity(5);
    let (address, bump) = locate_escrow(&program(), &user).unwrap();
    assert_eq!(verify_escrow_address(&program(), &user, &address), Some(bump));
    assert_eq!(verify_escrow_address(&program(), &identity(6), &address), None);
    assert_eq!(verify_escrow_address(&program(), &user, &user), None);
}

#[test]
fn accounts_refuse_a_foreign_address() {
    let (other, _) = locate_escrow(&program(), &identity(2)).unwrap();
    assert!(Deposit::try_accounts(program(), identity(1), other, None, 10).is_none());
    let data = UserAccount { owner: Owner::OwnedBy(identity(1)) };
    assert!(Withdraw::try_accounts(program(), identity(1), other, data, 50, 10).is_none());
}

#[test]
fn new_account_starts_at_reserve_unclaimed() {
    let ctx = fresh_deposit(identity(1), 890_880);
    assert!(ctx.user_account.data.owner.is_unclaimed());
    assert_eq!(ctx.user_account.held, 890_880);
    assert_eq!(ctx.user_account.reserve, 890_880);
}

#[test]
fn first_deposit_claims_account() {
    let alice = identity(1);
    let mut ctx = fresh_deposit(alice, 1_000);
    let t = deposit(&mut ctx, 500).unwrap();
    assert!(ctx.user_account.data.owner.is_owned_by(&alice));
    assert_eq!(ctx.user_account.held, 1_500);
    assert!(t.from.same(&alice));
    assert!(t.to.same(&ctx.user_account.address));
    assert_eq!(t.amount, 500);
    assert!(t.signer_seeds.is_none());
}

#[test]
fn second_depositor_is_refused() {
    let alice = identity(1);
    let bob = identity(2);
    let mut ctx = fresh_deposit(alice, 1_000);
    deposit(&mut ctx, 500).unwrap();
    let mut intruder = ctx;
    intruder.user = bob;
    assert_eq!(deposit(&mut intruder, 10).unwrap_err(), ErrorCode::Unauthorized);
    assert!(intruder.user_account.data.owner.is_owned_by(&alice));
    assert_eq!(intruder.user_account.held, 1_500);
}

#[test]
fn owner_deposits_again() {
    let alice = identity(1);
    let mut ctx = fresh_deposit(alice, 1_000);
    deposit(&mut ctx, 500).unwrap();
    deposit(&mut ctx, 250).unwrap();
    assert!(ctx.user_account.data.owner.is_owned_by(&alice));
    assert_eq!(ctx.user_account.held, 1_750);
}

#[test]
fn deposit_of_zero_keeps_balance() {
    let mut ctx = fresh_deposit(identity(3), 1_000);
    deposit(&mut ctx, 0).unwrap();
    assert_eq!(ctx.user_account.held, 1_000);
    assert!(ctx.user_account.data.owner.is_owned_by(&identity(3)));
}

#[test]
fn withdraw_exact_boundary() {
    let alice = identity(1);
    let mut ctx = owned_account(alice, 2_000 + 100, 2_000);
    let t = withdraw(&mut ctx, 100).unwrap();
    assert_eq!(ctx.user_account.held, 2_000);
    assert!(t.from.same(&ctx.user_account.address));
    assert!(t.to.same(&alice));
    assert_eq!(t.amount, 100);
    let seeds = t.signer_seeds.unwrap();
    assert_eq!(seeds, signer_seed_list(&alice, ctx.user_account.bump));

    let mut ctx = owned_account(alice, 2_000 + 100, 2_000);
    assert_eq!(withdraw(&mut ctx, 101).unwrap_err(), ErrorCode::InsufficientFunds);
    assert_eq!(ctx.user_account.held, 2_100);
}

#[test]
fn withdraw_seeds_rederive_escrow() {
    let alice = identity(1);
    let mut ctx = owned_account(alice, 5_000, 1_000);
    let t = withdraw(&mut ctx, 1).unwrap();
    let seeds = t.signer_seeds.unwrap();
    let slices: Vec<&[u8]> = seeds.iter().map(|s| s.as_slice()).collect();
    let derived =
        Pubkey::create_program_address(&slices, &Pubkey::new_from_array(program().bytes)).unwrap();
    assert_eq!(derived.to_bytes(), t.from.bytes);
}

#[test]
fn withdraw_by_stranger_is_unauthorized() {
    let alice = identity(1);
    let mut ctx = owned_account(alice, 1_000_000, 1_000);
    ctx.user = identity(2);
    assert_eq!(withdraw(&mut ctx, 1).unwrap_err(), ErrorCode::Unauthorized);
    assert_eq!(withdraw(&mut ctx, 0).unwrap_err(), ErrorCode::Unauthorized);
    assert_eq!(ctx.user_account.held, 1_000_000);
}

#[test]
fn withdraw_from_unclaimed_is_unauthorized() {
    let alice = identity(1);
    let mut ctx = owned_account(alice, 1_000_000, 1_000);
    ctx.user_account.data.owner = Owner::Unclaimed;
    assert_eq!(withdraw(&mut ctx, 5).unwrap_err(), ErrorCode::Unauthorized);
}

#[test]
fn withdraw_below_reserve_is_insufficient() {
    let alice = identity(1);
    let mut ctx = owned_account(alice, 900, 1_000);
    assert_eq!(withdraw(&mut ctx, 0).unwrap_err(), ErrorCode::InsufficientFunds);
    assert_eq!(ctx.user_account.held, 900);
}

#[test]
fn reserve_floor_over_a_sequence() {
    let alice = identity(1);
    let reserve = 1_000;
    let mut d = fresh_deposit(alice, reserve);
    deposit(&mut d, 300).unwrap();
    let mut w = Withdraw {
        program_id: d.program_id,
        user: alice,
        user_account: d.user_account,
    };
    withdraw(&mut w, 200).unwrap();
    assert_eq!(withdraw(&mut w, 101).unwrap_err(), ErrorCode::InsufficientFunds);
    withdraw(&mut w, 100).unwrap();
    assert_eq!(w.user_account.held, reserve);
    assert_eq!(withdraw(&mut w, 1).unwrap_err(), ErrorCode::InsufficientFunds);
    assert_eq!(w.user_account.held, reserve);
}

#[test]
fn two_identities_are_independent() {
    let alice = identity(1);
    let bob = identity(2);
    let mut da = fresh_deposit(alice, 1_000);
    let mut db = fresh_deposit(bob, 1_000);
    assert!(!da.user_account.address.same(&db.user_account.address));
    deposit(&mut da, 40).unwrap();
    deposit(&mut db, 70).unwrap();
    assert!(da.user_account.data.owner.is_owned_by(&alice));
    assert!(db.user_account.data.owner.is_owned_by(&bob));
    assert_eq!(da.user_account.held, 1_040);
    assert_eq!(db.user_account.held, 1_070);

    let mut wa = Withdraw { program_id: program(), user: alice, user_account: da.user_account };
    withdraw(&mut wa, 40).unwrap();
    assert_eq!(wa.user_account.held, 1_000);
    assert_eq!(db.user_account.held, 1_070);

    let mut bob_on_alice = Withdraw { program_id: program(), user: bob, user_account: wa.user_account };
    assert_eq!(withdraw(&mut bob_on_alice, 1).unwrap_err(), ErrorCode::Unauthorized);
}

#[test]
fn stored_account_is_loaded() {
    let alice = identity(1);
    let (address, bump) = locate_escrow(&program(), &alice).unwrap();
    let data = UserAccount { owner: Owner::OwnedBy(alice) };
    let ctx = Deposit::try_accounts(program(), alice, address, Some((data, 4_000)), 1_000).unwrap();
    assert_eq!(ctx.user_account.held, 4_000);
    assert_eq!(ctx.user_account.bump, bump);
    assert!(ctx.user_account.data.owner.is_owned_by(&alice));
}

#[test]
fn error_messages() {
    assert_eq!(ErrorCode::InsufficientFunds.message(), "Insufficient funds");
    assert_eq!(ErrorCode::Unauthorized.message(), "Unauthorized");
}

#[test]
fn escrow_account_literal() {
    let acct = EscrowAccount {
        address: identity(8),
        bump: 255,
        data: UserAccount { owner: Owner::Unclaimed },
        held: 10,
        reserve: 10,
    };
    assert!(acct.data.owner.is_unclaimed());
}

#[test]
fn deposit_into_foreign_address_is_refused() {
    let alice = identity(1);
    let mut ctx = fresh_deposit(identity(2), 1_000);
    ctx.user = alice;
    assert_eq!(deposit(&mut ctx, 500).unwrap_err(), ErrorCode::SeedsMismatch);
    assert!(ctx.user_account.data.owner.is_unclaimed());
    assert_eq!(ctx.user_account.held, 1_000);
}

#[test]
fn deposit_with_wrong_bump_is_refused() {
    let mut ctx = fresh_deposit(identity(1), 1_000);
    ctx.user_account.bump = ctx.user_account.bump.wrapping_sub(1);
    assert_eq!(deposit(&mut ctx, 5).unwrap_err(), ErrorCode::SeedsMismatch);
    assert!(ctx.user_account.data.owner.is_unclaimed());
}

#[test]
fn withdraw_from_foreign_address_is_refused() {
    let alice = identity(1);
    let mut ctx = owned_account(alice, 5_000, 1_000);
    ctx.user_account.address = identity(2);
    assert_eq!(withdraw(&mut ctx, 10).unwrap_err(), ErrorCode::SeedsMismatch);
    assert_eq!(ctx.user_account.held, 5_000);
}

#[test]
fn seeds_mismatch_message() {
    assert_eq!(ErrorCode::SeedsMismatch.message(), "A seeds constraint was violated");
}
