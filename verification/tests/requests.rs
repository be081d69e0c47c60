use stockpile_trusts::accounts::{Mint, Signer, TokenAccount, UncheckedAccount, VaultAccount, VaultSlot};
use stockpile_trusts::adapter::{redeem, report, supply, RemoteCall, ReserveAccounts, ReserveTransfer};
use stockpile_trusts::address::{find_vault_address, Address};
use stockpile_trusts::authority::{authorize, confirm, load, screen};
use stockpile_trusts::error::{AdapterError, ErrorFamily, VaultError};
use stockpile_trusts::instructions::deposit::Deposit;
use stockpile_trusts::instructions::init::{init, place, InitializeVault};
use stockpile_trusts::instructions::withdraw::{Settlement, Withdraw};
use stockpile_trusts::program::Initialize;
use stockpile_trusts::reserve::{Reserve, INSUFFICIENT_FUNDS, LIMIT_EXCEEDED, UNKNOWN_ACCOUNT};
use stockpile_trusts::state::vault::{Intervals, Protocols, YieldVault};

fn k(tag: u8) -> Address {
    Address::new([tag; 32])
}

fn accounts() -> ReserveAccounts {
    ReserveAccounts {
        program: k(60),
        owner: k(1),
        reserve: k(53),
        reserve_collateral_mint: k(30),
        lending_market: k(50),
        lending_market_authority: k(51),
        reserve_liquidity_supply: k(52),
        owner_token_account: k(40),
        token_program: k(61),
    }
}

fn transfer(amount: u64) -> ReserveTransfer {
    ReserveTransfer {
        program: k(60),
        owner: k(1),
        reserve: k(53),
        reserve_collateral_mint: k(30),
        lending_market: k(50),
        lending_market_authority: k(51),
        reserve_liquidity_supply: k(52),
        source: k(40),
        destination: k(40),
        token_program: k(61),
        amount,
    }
}

fn purse(amount: u64) -> TokenAccount {
    TokenAccount { key: k(40), mint: k(30), owner: k(1), amount }
}

fn payer() -> Signer {
    Signer { key: k(1), is_signer: true }
}

fn vacant(vault_id: u64) -> InitializeVault {
    let (address, _) = find_vault_address(&k(7), vault_id, &k(1)).unwrap();
    InitializeVault { vault: VaultAccount::empty(address), payer: payer(), system_program: k(0) }
}

fn live(vault_id: u64) -> VaultAccount {
    let mut ctx = vacant(vault_id);
    init(&mut ctx, &k(7), 77, vault_id, Protocols::Kamino, Intervals::Daily, 0, vec![k(21)], k(30)).unwrap();
    ctx.vault
}

fn deposit_of(vault: VaultAccount) -> Deposit {
    Deposit {
        vault,
        lending_market: UncheckedAccount { key: k(50) },
        lending_market_authority: UncheckedAccount { key: k(51) },
        mint: Mint { key: k(30) },
        reserve_liquidity_supply: UncheckedAccount { key: k(52) },
        reserve: UncheckedAccount { key: k(53) },
        payer: payer(),
        payer_token_account: purse(500),
        kamino_program: k(60),
        system_program: k(0),
        token_program: k(61),
        associated_token_program: k(62),
    }
}

fn withdrawal_of(vault: VaultAccount) -> Withdraw {
    Withdraw {
        vault,
        lending_market: UncheckedAccount { key: k(50) },
        lending_market_authority: UncheckedAccount { key: k(51) },
        mint: Mint { key: k(30) },
        reserve_liquidity_supply: UncheckedAccount { key: k(52) },
        reserve: UncheckedAccount { key: k(53) },
        payer: payer(),
        payer_token_account: purse(500),
        kamino_program: k(60),
        system_program: k(0),
        token_program: k(61),
        associated_token_program: k(62),
    }
}

#[test]
fn supply_makes_a_kamino_deposit() {
    let call = supply(Protocols::Kamino, &accounts(), 1000);
    assert_eq!(call, RemoteCall::DepositReserveLiquidity(transfer(1000)));
    assert_eq!(call.amount(), 1000);
}

#[test]
fn redeem_makes_a_kamino_redemption() {
    let call = redeem(Protocols::Kamino, &accounts(), 250);
    assert_eq!(call, RemoteCall::RedeemReserveCollateral(transfer(250)));
    assert_eq!(call.amount(), 250);
}

#[test]
fn deposit_request_names_the_accounts_handed_in() {
    let d = deposit_of(live(1));
    assert_eq!(d.to_reserve_accounts(), accounts());
    let call = stockpile_trusts::instructions::deposit::deposit(&d, &k(7), &k(21), 120);
    assert_eq!(call, Ok(RemoteCall::DepositReserveLiquidity(transfer(120))));
    assert_eq!(stockpile_trusts::program::deposit(&d, &k(7), &k(21), 120), call);
}

#[test]
fn withdraw_request_names_the_accounts_handed_in() {
    let w = withdrawal_of(live(1));
    assert_eq!(w.to_reserve_accounts(), accounts());
    let call = stockpile_trusts::instructions::withdraw::withdraw(&w, &k(7), &k(21), 120);
    assert_eq!(call, Ok(RemoteCall::RedeemReserveCollateral(transfer(120))));
    assert_eq!(stockpile_trusts::program::withdraw_and_close(&w, &k(7), &k(21), 120), call);
}

#[test]
fn any_failure_of_the_protocol_is_wrong_vault_authority() {
    assert_eq!(report(Ok(())), Ok(()));
    assert_eq!(report(Err(AdapterError { code: 0 })), Err(VaultError::WrongVaultAuthority));
    assert_eq!(report(Err(AdapterError { code: 6003 })), Err(VaultError::WrongVaultAuthority));
    assert_eq!(
        stockpile_trusts::instructions::deposit::settle(Err(AdapterError { code: 1 })),
        Err(VaultError::WrongVaultAuthority)
    );
    assert_eq!(stockpile_trusts::instructions::deposit::settle(Ok(())), Ok(()));
}

#[test]
fn zero_amount_is_invalid() {
    let d = deposit_of(live(1));
    assert_eq!(stockpile_trusts::program::deposit(&d, &k(7), &k(21), 0), Err(VaultError::InvalidAmount));
    let w = withdrawal_of(live(1));
    assert_eq!(
        stockpile_trusts::program::withdraw_and_close(&w, &k(7), &k(21), 0),
        Err(VaultError::InvalidAmount)
    );
}

#[test]
fn project_outside_the_vault_is_unknown() {
    let d = deposit_of(live(1));
    assert_eq!(stockpile_trusts::program::deposit(&d, &k(7), &k(22), 5), Err(VaultError::UnknownProject));
    let w = withdrawal_of(live(1));
    assert_eq!(
        stockpile_trusts::program::withdraw_and_close(&w, &k(7), &k(22), 5),
        Err(VaultError::UnknownProject)
    );
}

#[test]
fn another_asset_is_a_mint_mismatch() {
    let mut d = deposit_of(live(1));
    d.payer_token_account.mint = k(31);
    assert_eq!(stockpile_trusts::program::deposit(&d, &k(7), &k(21), 5), Err(VaultError::MintMismatch));
    let mut d = deposit_of(live(1));
    d.mint = Mint { key: k(31) };
    assert_eq!(stockpile_trusts::program::deposit(&d, &k(7), &k(21), 5), Err(VaultError::MintMismatch));
    let mut w = withdrawal_of(live(1));
    w.payer_token_account.mint = k(31);
    assert_eq!(
        stockpile_trusts::program::withdraw_and_close(&w, &k(7), &k(21), 5),
        Err(VaultError::MintMismatch)
    );
}

#[test]
fn screen_checks_amount_then_project_then_mint() {
    let record = YieldVault::new(Protocols::Kamino, Intervals::Daily, 0, 1, vec![k(21)], k(30), 255).unwrap();
    let mint = Mint { key: k(30) };
    let other = Mint { key: k(31) };
    assert_eq!(screen(&record, &mint, &purse(1), &k(21), 1), Ok(()));
    assert_eq!(screen(&record, &other, &purse(1), &k(22), 0), Err(VaultError::InvalidAmount));
    assert_eq!(screen(&record, &other, &purse(1), &k(22), 1), Err(VaultError::UnknownProject));
    assert_eq!(screen(&record, &other, &purse(1), &k(21), 1), Err(VaultError::MintMismatch));
}

#[test]
fn confirm_wants_signature_address_and_authority() {
    let vault = live(1);
    let good = Some(vault.key);
    assert_eq!(confirm(&vault, &payer(), &purse(1), good), Ok(()));
    assert_eq!(confirm(&vault, &payer(), &purse(1), None), Err(VaultError::WrongVaultAuthority));
    assert_eq!(confirm(&vault, &payer(), &purse(1), Some(k(99))), Err(VaultError::WrongVaultAuthority));
    let unsigned = Signer { key: k(1), is_signer: false };
    assert_eq!(confirm(&vault, &unsigned, &purse(1), good), Err(VaultError::WrongVaultAuthority));
    let foreign = TokenAccount { key: k(40), mint: k(30), owner: k(2), amount: 1 };
    assert_eq!(confirm(&vault, &payer(), &foreign, good), Err(VaultError::WrongVaultAuthority));
}

#[test]
fn authorize_hands_out_the_stored_record() {
    let vault = live(4);
    let record = authorize(&k(7), &vault, &payer(), &purse(1)).unwrap();
    assert_eq!(record.vault_id, 4);
    assert_eq!(record.projects, vec![k(21)]);
    assert_eq!(Some(record), load(&vault));
}

#[test]
fn authorize_refuses_what_is_not_a_live_record() {
    let (address, _) = find_vault_address(&k(7), 1, &k(1)).unwrap();
    let empty = VaultAccount::empty(address);
    assert_eq!(load(&empty), None);
    assert_eq!(authorize(&k(7), &empty, &payer(), &purse(1)), Err(VaultError::WrongVaultAuthority));
    let closed = VaultAccount { key: address, lamports: 0, slot: VaultSlot::Closed };
    assert_eq!(load(&closed), None);
    assert_eq!(authorize(&k(7), &closed, &payer(), &purse(1)), Err(VaultError::WrongVaultAuthority));
    let garbage = VaultAccount { key: address, lamports: 1, slot: VaultSlot::Active(vec![0u8; 383]) };
    assert_eq!(load(&garbage), None);
    assert_eq!(authorize(&k(7), &garbage, &payer(), &purse(1)), Err(VaultError::WrongVaultAuthority));
}

#[test]
fn authorize_refuses_a_record_moved_to_another_address() {
    let mut forged = live(1);
    forged.key = live(2).key;
    assert_eq!(authorize(&k(7), &forged, &payer(), &purse(1)), Err(VaultError::WrongVaultAuthority));
}

#[test]
fn authorize_refuses_a_record_with_another_bump() {
    let vault = live(1);
    let mut record = load(&vault).unwrap();
    record.bump = record.bump.wrapping_sub(1);
    let forged = VaultAccount { key: vault.key, lamports: 77, slot: VaultSlot::Active(record.encode()) };
    assert_eq!(authorize(&k(7), &forged, &payer(), &purse(1)), Err(VaultError::WrongVaultAuthority));
}

#[test]
fn init_refuses_an_unsigned_payer() {
    let mut ctx = vacant(1);
    ctx.payer.is_signer = false;
    let before = ctx.clone();
    let r = init(&mut ctx, &k(7), 77, 1, Protocols::Kamino, Intervals::Daily, 0, vec![k(21)], k(30));
    assert_eq!(r, Err(VaultError::UnauthorizedSigner));
    assert_eq!(ctx, before);
}

#[test]
fn init_refuses_another_address_than_the_derived_one() {
    let mut ctx = vacant(1);
    ctx.vault.key = k(99);
    let before = ctx.clone();
    let r = init(&mut ctx, &k(7), 77, 1, Protocols::Kamino, Intervals::Daily, 0, vec![k(21)], k(30));
    assert_eq!(r, Err(VaultError::WrongVaultAuthority));
    assert_eq!(ctx, before);
    let mut ctx = vacant(1);
    let r = init(&mut ctx, &k(7), 77, 2, Protocols::Kamino, Intervals::Daily, 0, vec![k(21)], k(30));
    assert_eq!(r, Err(VaultError::WrongVaultAuthority));
}

#[test]
fn init_refuses_an_empty_project_set() {
    let mut ctx = vacant(1);
    let before = ctx.clone();
    let r = init(&mut ctx, &k(7), 77, 1, Protocols::Kamino, Intervals::Daily, 0, vec![], k(30));
    assert_eq!(r, Err(VaultError::EmptyProjectSet));
    assert_eq!(ctx, before);
}

#[test]
fn init_refuses_too_many_projects() {
    let mut ctx = vacant(1);
    let before = ctx.clone();
    let eleven: Vec<Address> = (100..111u8).map(k).collect();
    let r = init(&mut ctx, &k(7), 77, 1, Protocols::Kamino, Intervals::Daily, 0, eleven, k(30));
    assert_eq!(r, Err(VaultError::ProjectSetTooLarge));
    assert_eq!(ctx, before);
}

#[test]
fn place_reports_an_exhausted_search() {
    let mut ctx = vacant(1);
    let before = ctx.clone();
    let r = place(&mut ctx, None, 77, 1, Protocols::Kamino, Intervals::Daily, 0, vec![k(21)], k(30));
    assert_eq!(r, Err(VaultError::DerivationExhausted));
    assert_eq!(ctx, before);
}

#[test]
fn place_checks_the_signature_first_and_the_projects_last() {
    let mut ctx = vacant(1);
    ctx.payer.is_signer = false;
    let r = place(&mut ctx, None, 77, 1, Protocols::Kamino, Intervals::Daily, 0, vec![], k(30));
    assert_eq!(r, Err(VaultError::UnauthorizedSigner));
    let mut ctx = vacant(1);
    let r = place(&mut ctx, Some((k(99), 255)), 77, 1, Protocols::Kamino, Intervals::Daily, 0, vec![], k(30));
    assert_eq!(r, Err(VaultError::WrongVaultAuthority));
    let mut ctx = vacant(1);
    let key = ctx.vault.key;
    ctx.vault.slot = VaultSlot::Active(vec![]);
    let r = place(&mut ctx, Some((key, 255)), 77, 1, Protocols::Kamino, Intervals::Daily, 0, vec![], k(30));
    assert_eq!(r, Err(VaultError::AlreadyInitialized));
}

#[test]
fn place_writes_the_record_with_the_bump_given() {
    let mut ctx = InitializeVault { vault: VaultAccount::empty(k(90)), payer: payer(), system_program: k(0) };
    let r = place(&mut ctx, Some((k(90), 251)), 1234, 6, Protocols::Kamino, Intervals::Monthly, 8, vec![k(21), k(22)], k(30));
    assert_eq!(r, Ok(()));
    let expected = YieldVault {
        vault_id: 6,
        protocol: Protocols::Kamino,
        interval: Intervals::Monthly,
        initial_amount: 8,
        projects: vec![k(21), k(22)],
        mint: k(30),
        bump: 251,
    };
    assert_eq!(ctx.vault, VaultAccount { key: k(90), lamports: 1234, slot: VaultSlot::Active(expected.encode()) });
    assert_eq!(ctx.payer, payer());
    assert_eq!(ctx.system_program, k(0));
}

#[test]
fn settle_closes_the_vault_when_nothing_remains() {
    let mut w = withdrawal_of(live(1));
    let before = w.clone();
    let r = stockpile_trusts::instructions::withdraw::settle(&mut w, Ok(()), 1);
    assert_eq!(r, Ok(Settlement::Open));
    assert_eq!(w, before);
    let r = stockpile_trusts::instructions::withdraw::settle(&mut w, Err(AdapterError { code: 9 }), 0);
    assert_eq!(r, Err(VaultError::WrongVaultAuthority));
    assert_eq!(w, before);
    let r = stockpile_trusts::instructions::withdraw::settle(&mut w, Ok(()), 0);
    assert_eq!(r, Ok(Settlement::Closed { refund: 77 }));
    assert_eq!(w.vault, VaultAccount { key: before.vault.key, lamports: 0, slot: VaultSlot::Closed });
    assert_eq!(w.payer_token_account, before.payer_token_account);
    let r = stockpile_trusts::instructions::withdraw::settle(&mut w, Ok(()), 0);
    assert_eq!(r, Err(VaultError::WrongVaultAuthority));
    assert_eq!(w.vault.slot, VaultSlot::Closed);
}

#[test]
fn reserve_moves_tokens_both_ways() {
    let mut reserve = Reserve::new(k(53));
    let mut wallet = purse(500);
    assert_eq!(reserve.execute(&mut wallet, &RemoteCall::DepositReserveLiquidity(transfer(200))), Ok(()));
    assert_eq!((reserve.position, wallet.amount), (200, 300));
    assert_eq!(reserve.execute(&mut wallet, &RemoteCall::RedeemReserveCollateral(transfer(50))), Ok(()));
    assert_eq!((reserve.position, wallet.amount), (150, 350));
    assert_eq!(reserve.execute(&mut wallet, &RemoteCall::RedeemReserveCollateral(transfer(150))), Ok(()));
    assert_eq!((reserve.position, wallet.amount), (0, 500));
    assert_eq!(wallet, purse(500));
}

#[test]
fn reserve_refuses_what_the_balances_do_not_cover() {
    let mut reserve = Reserve { key: k(53), position: 10 };
    let mut wallet = purse(500);
    let r = reserve.execute(&mut wallet, &RemoteCall::DepositReserveLiquidity(transfer(501)));
    assert_eq!(r, Err(AdapterError { code: INSUFFICIENT_FUNDS }));
    let r = reserve.execute(&mut wallet, &RemoteCall::RedeemReserveCollateral(transfer(11)));
    assert_eq!(r, Err(AdapterError { code: INSUFFICIENT_FUNDS }));
    assert_eq!(reserve, Reserve { key: k(53), position: 10 });
    assert_eq!(wallet, purse(500));
}

#[test]
fn reserve_refuses_to_overflow_a_balance() {
    let mut reserve = Reserve { key: k(53), position: u64::MAX - 5 };
    let mut wallet = purse(500);
    let r = reserve.execute(&mut wallet, &RemoteCall::DepositReserveLiquidity(transfer(6)));
    assert_eq!(r, Err(AdapterError { code: LIMIT_EXCEEDED }));
    assert_eq!(reserve.execute(&mut wallet, &RemoteCall::DepositReserveLiquidity(transfer(5))), Ok(()));
    assert_eq!((reserve.position, wallet.amount), (u64::MAX, 495));
    let mut full = purse(u64::MAX - 1);
    let r = reserve.execute(&mut full, &RemoteCall::RedeemReserveCollateral(transfer(2)));
    assert_eq!(r, Err(AdapterError { code: LIMIT_EXCEEDED }));
    assert_eq!(full.amount, u64::MAX - 1);
}

#[test]
fn reserve_refuses_accounts_it_does_not_know() {
    let mut reserve = Reserve::new(k(54));
    let mut wallet = purse(500);
    let r = reserve.execute(&mut wallet, &RemoteCall::DepositReserveLiquidity(transfer(1)));
    assert_eq!(r, Err(AdapterError { code: UNKNOWN_ACCOUNT }));
    let mut reserve = Reserve::new(k(53));
    let mut other = TokenAccount { key: k(41), mint: k(30), owner: k(1), amount: 500 };
    let r = reserve.execute(&mut other, &RemoteCall::DepositReserveLiquidity(transfer(1)));
    assert_eq!(r, Err(AdapterError { code: UNKNOWN_ACCOUNT }));
    let mut foreign = TokenAccount { key: k(40), mint: k(30), owner: k(2), amount: 500 };
    let r = reserve.execute(&mut foreign, &RemoteCall::DepositReserveLiquidity(transfer(1)));
    assert_eq!(r, Err(AdapterError { code: UNKNOWN_ACCOUNT }));
    assert_eq!(reserve.position, 0);
    assert_eq!((UNKNOWN_ACCOUNT, INSUFFICIENT_FUNDS, LIMIT_EXCEEDED), (1, 2, 3));
}

#[test]
fn every_error_has_its_families() {
    let table = [
        (VaultError::AlreadyInitialized, true, false, false),
        (VaultError::EmptyProjectSet, true, false, false),
        (VaultError::ProjectSetTooLarge, true, false, false),
        (VaultError::UnauthorizedSigner, true, false, false),
        (VaultError::DerivationExhausted, true, false, false),
        (VaultError::WrongVaultAuthority, false, true, true),
        (VaultError::InvalidAmount, false, false, true),
        (VaultError::UnknownProject, false, false, true),
        (VaultError::MintMismatch, false, false, true),
    ];
    for (e, i, a, d) in table {
        assert_eq!(e.belongs_to(ErrorFamily::Initialization), i);
        assert_eq!(e.belongs_to(ErrorFamily::Authorization), a);
        assert_eq!(e.belongs_to(ErrorFamily::Delegation), d);
    }
}

#[test]
fn an_instruction_may_name_no_accounts() {
    assert_eq!(Initialize {}, Initialize {});
}
