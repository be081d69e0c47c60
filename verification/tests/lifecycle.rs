use stockpile_trusts::accounts::{Mint, Signer, TokenAccount, UncheckedAccount, VaultAccount, VaultSlot};
use stockpile_trusts::address::{create_vault_address, find_vault_address, Address};
use stockpile_trusts::error::{ErrorFamily, VaultError};
use stockpile_trusts::instructions::deposit::Deposit;
use stockpile_trusts::instructions::init::InitializeVault;
use stockpile_trusts::instructions::withdraw::{Settlement, Withdraw};
use stockpile_trusts::program::initialize_vault;
use stockpile_trusts::reserve::{run_deposit, run_withdraw, Reserve};
use stockpile_trusts::state::vault::{Intervals, Protocols, YieldVault, SPACE};

const RENT: u64 = 3_556_560;

fn key(tag: u8) -> Address {
    Address::new([tag; 32])
}

fn program() -> Address {
    key(7)
}

fn owner() -> Signer {
    Signer { key: key(1), is_signer: true }
}

fn fresh_vault(vault_id: u64, payer: &Signer) -> InitializeVault {
    let (address, _) = find_vault_address(&program(), vault_id, &payer.key).unwrap();
    InitializeVault { vault: VaultAccount::empty(address), payer: *payer, system_program: key(0) }
}

fn live_vault(vault_id: u64, projects: Vec<Address>, mint: Address) -> VaultAccount {
    let mut ctx = fresh_vault(vault_id, &owner());
    initialize_vault(
        &mut ctx,
        &program(),
        RENT,
        vault_id,
        Protocols::Kamino,
        Intervals::Daily,
        0,
        projects,
        mint,
    )
    .unwrap();
    ctx.vault
}

fn wallet(mint: Address, amount: u64) -> TokenAccount {
    TokenAccount { key: key(40), mint, owner: key(1), amount }
}

fn deposit_accounts(vault: VaultAccount, payer: Signer, wallet: TokenAccount, mint: Address) -> Deposit {
    Deposit {
        vault,
        lending_market: UncheckedAccount { key: key(50) },
        lending_market_authority: UncheckedAccount { key: key(51) },
        mint: Mint { key: mint },
        reserve_liquidity_supply: UncheckedAccount { key: key(52) },
        reserve: UncheckedAccount { key: key(53) },
        payer,
        payer_token_account: wallet,
        kamino_program: key(60),
        system_program: key(0),
        token_program: key(61),
        associated_token_program: key(62),
    }
}

fn withdraw_accounts(d: &Deposit) -> Withdraw {
    Withdraw {
        vault: d.vault.clone(),
        lending_market: d.lending_market,
        lending_market_authority: d.lending_market_authority,
        mint: d.mint,
        reserve_liquidity_supply: d.reserve_liquidity_supply,
        reserve: d.reserve,
        payer: d.payer,
        payer_token_account: d.payer_token_account,
        kamino_program: d.kamino_program,
        system_program: d.system_program,
        token_program: d.token_program,
        associated_token_program: d.associated_token_program,
    }
}

fn stored(vault: &VaultAccount) -> YieldVault {
    match &vault.slot {
        VaultSlot::Active(data) => YieldVault::decode(data).unwrap(),
        _ => panic!("no live vault"),
    }
}

#[test]
fn initialize_deposit_withdraw_and_close() {
    let project = key(21);
    let m = key(30);
    let mut init = fresh_vault(1, &owner());
    let r = initialize_vault(
        &mut init,
        &program(),
        RENT,
        1,
        Protocols::Kamino,
        Intervals::Daily,
        0,
        vec![project],
        m,
    );
    assert_eq!(r, Ok(()));
    match &init.vault.slot {
        VaultSlot::Active(data) => assert_eq!(data.len(), SPACE),
        _ => panic!("the record was not created"),
    }
    assert_eq!(init.vault.lamports, RENT);
    let record = stored(&init.vault);
    assert_eq!(record.projects, vec![project]);
    assert_eq!(record.vault_id, 1);
    assert_eq!(record.initial_amount, 0);
    assert_eq!(record.mint, m);

    let mut reserve = Reserve::new(key(53));
    let mut d = deposit_accounts(init.vault.clone(), owner(), wallet(m, 5000), m);
    assert_eq!(run_deposit(&mut d, &mut reserve, &program(), &project, 1000), Ok(()));
    assert_eq!(d.payer_token_account.amount, 4000);
    assert_eq!(reserve.position, 1000);
    assert_eq!(d.vault, init.vault);

    let mut w = withdraw_accounts(&d);
    let r = run_withdraw(&mut w, &mut reserve, &program(), &project, 1000);
    assert_eq!(r, Ok(Settlement::Closed { refund: RENT }));
    assert_eq!(w.payer_token_account.amount, 5000);
    assert_eq!(reserve.position, 0);
    assert_eq!(w.vault.slot, VaultSlot::Closed);
    assert_eq!(w.vault.lamports, 0);
}

#[test]
fn initialized_vault_rederives_to_its_address() {
    let vault = live_vault(9, vec![key(21)], key(30));
    let record = stored(&vault);
    let (address, bump) = find_vault_address(&program(), 9, &key(1)).unwrap();
    assert_eq!(address, vault.key);
    assert_eq!(bump, record.bump);
    let again = create_vault_address(&program(), record.vault_id, &key(1), record.bump);
    assert_eq!(again, Some(vault.key));
}

#[test]
fn second_initialization_is_refused() {
    let mut ctx = fresh_vault(1, &owner());
    let first = initialize_vault(
        &mut ctx,
        &program(),
        RENT,
        1,
        Protocols::Kamino,
        Intervals::Daily,
        0,
        vec![key(21)],
        key(30),
    );
    assert_eq!(first, Ok(()));
    let after_first = ctx.clone();
    let second = initialize_vault(
        &mut ctx,
        &program(),
        RENT,
        1,
        Protocols::Kamino,
        Intervals::Weekly,
        5,
        vec![key(22)],
        key(31),
    );
    assert_eq!(second, Err(VaultError::AlreadyInitialized));
    assert!(VaultError::AlreadyInitialized.belongs_to(ErrorFamily::Initialization));
    assert_eq!(ctx, after_first);
}

#[test]
fn closed_vault_cannot_be_initialized_again() {
    let mut ctx = fresh_vault(1, &owner());
    ctx.vault.slot = VaultSlot::Closed;
    let r = initialize_vault(
        &mut ctx,
        &program(),
        RENT,
        1,
        Protocols::Kamino,
        Intervals::Daily,
        0,
        vec![key(21)],
        key(30),
    );
    assert_eq!(r, Err(VaultError::AlreadyInitialized));
    assert_eq!(ctx.vault.slot, VaultSlot::Closed);
}

#[test]
fn projects_and_mint_survive_every_operation() {
    let project = key(21);
    let other = key(22);
    let m = key(30);
    let vault = live_vault(3, vec![project, other], m);
    let before = vault.clone();
    let mut reserve = Reserve::new(key(53));
    let mut d = deposit_accounts(vault, owner(), wallet(m, 900), m);
    assert_eq!(run_deposit(&mut d, &mut reserve, &program(), &other, 600), Ok(()));
    assert_eq!(d.vault, before);
    let mut w = withdraw_accounts(&d);
    assert_eq!(run_withdraw(&mut w, &mut reserve, &program(), &project, 200), Ok(Settlement::Open));
    assert_eq!(w.vault, before);
    let record = stored(&w.vault);
    assert_eq!(record.projects, vec![project, other]);
    assert_eq!(record.mint, m);
    assert_eq!(reserve.position, 400);
    assert_eq!(w.payer_token_account.amount, 500);
}

#[test]
fn deposit_by_a_stranger_is_refused() {
    let project = key(21);
    let m = key(30);
    let vault = live_vault(1, vec![project], m);
    let stranger = Signer { key: key(2), is_signer: true };
    let purse = TokenAccount { key: key(41), mint: m, owner: key(2), amount: 5000 };
    let mut reserve = Reserve::new(key(53));
    let mut d = deposit_accounts(vault, stranger, purse, m);
    let before = d.clone();
    let r = run_deposit(&mut d, &mut reserve, &program(), &project, 1000);
    assert_eq!(r, Err(VaultError::WrongVaultAuthority));
    assert!(VaultError::WrongVaultAuthority.belongs_to(ErrorFamily::Authorization));
    assert_eq!(d, before);
    assert_eq!(d.payer_token_account.amount, 5000);
    assert_eq!(reserve, Reserve::new(key(53)));
}

#[test]
fn deposit_without_signature_is_refused() {
    let project = key(21);
    let m = key(30);
    let vault = live_vault(1, vec![project], m);
    let unsigned = Signer { key: key(1), is_signer: false };
    let d = deposit_accounts(vault, unsigned, wallet(m, 5000), m);
    let r = stockpile_trusts::program::deposit(&d, &program(), &project, 1000);
    assert_eq!(r, Err(VaultError::WrongVaultAuthority));
}

#[test]
fn deposit_from_a_token_account_of_another_authority_is_refused() {
    let project = key(21);
    let m = key(30);
    let vault = live_vault(1, vec![project], m);
    let purse = TokenAccount { key: key(41), mint: m, owner: key(2), amount: 5000 };
    let d = deposit_accounts(vault, owner(), purse, m);
    let r = stockpile_trusts::program::deposit(&d, &program(), &project, 1000);
    assert_eq!(r, Err(VaultError::WrongVaultAuthority));
}

#[test]
fn deposit_under_another_program_is_refused() {
    let project = key(21);
    let m = key(30);
    let vault = live_vault(1, vec![project], m);
    let d = deposit_accounts(vault, owner(), wallet(m, 5000), m);
    let r = stockpile_trusts::program::deposit(&d, &key(8), &project, 1000);
    assert_eq!(r, Err(VaultError::WrongVaultAuthority));
}

#[test]
fn deposit_then_withdraw_restores_the_balance() {
    let project = key(21);
    let m = key(30);
    let vault = live_vault(1, vec![project], m);
    let mut reserve = Reserve { key: key(53), position: 70 };
    let mut d = deposit_accounts(vault, owner(), wallet(m, 1234), m);
    assert_eq!(run_deposit(&mut d, &mut reserve, &program(), &project, 234), Ok(()));
    assert_eq!(d.payer_token_account.amount, 1000);
    assert_eq!(reserve.position, 304);
    let mut w = withdraw_accounts(&d);
    assert_eq!(run_withdraw(&mut w, &mut reserve, &program(), &project, 234), Ok(Settlement::Open));
    assert_eq!(w.payer_token_account, wallet(m, 1234));
    assert_eq!(reserve, Reserve { key: key(53), position: 70 });
}

#[test]
fn withdrawing_more_than_the_position_is_refused() {
    let project = key(21);
    let m = key(30);
    let vault = live_vault(1, vec![project], m);
    let mut reserve = Reserve::new(key(53));
    let mut d = deposit_accounts(vault, owner(), wallet(m, 5000), m);
    assert_eq!(run_deposit(&mut d, &mut reserve, &program(), &project, 1000), Ok(()));
    let mut w = withdraw_accounts(&d);
    let before = w.clone();
    let r = run_withdraw(&mut w, &mut reserve, &program(), &project, 1001);
    assert_eq!(r, Err(VaultError::WrongVaultAuthority));
    assert!(VaultError::WrongVaultAuthority.belongs_to(ErrorFamily::Delegation));
    assert_eq!(w, before);
    assert!(matches!(w.vault.slot, VaultSlot::Active(_)));
    assert_eq!(w.vault.lamports, RENT);
    assert_eq!(w.payer_token_account.amount, 4000);
    assert_eq!(reserve.position, 1000);
}

#[test]
fn nothing_can_be_done_with_a_closed_vault() {
    let project = key(21);
    let m = key(30);
    let vault = live_vault(1, vec![project], m);
    let mut reserve = Reserve::new(key(53));
    let mut d = deposit_accounts(vault, owner(), wallet(m, 100), m);
    assert_eq!(run_deposit(&mut d, &mut reserve, &program(), &project, 100), Ok(()));
    let mut w = withdraw_accounts(&d);
    assert_eq!(
        run_withdraw(&mut w, &mut reserve, &program(), &project, 100),
        Ok(Settlement::Closed { refund: RENT })
    );
    let mut again = deposit_accounts(w.vault.clone(), owner(), w.payer_token_account, m);
    assert_eq!(
        run_deposit(&mut again, &mut reserve, &program(), &project, 10),
        Err(VaultError::WrongVaultAuthority)
    );
    assert_eq!(
        run_withdraw(&mut w, &mut reserve, &program(), &project, 10),
        Err(VaultError::WrongVaultAuthority)
    );
    assert_eq!(w.vault.slot, VaultSlot::Closed);
    assert_eq!(reserve.position, 0);
}
