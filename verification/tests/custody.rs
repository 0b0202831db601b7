use escrow_contract::ledger::{move_into_custody, move_out_of_custody, swap};
use escrow_contract::{
    find_vault_account, find_vault_authority, initialize_escrow, Address, Cancel, CancelAccounts,
    EscrowAccount, Exchange, ExchangeAccounts, InitializeEscrow, InitializeEscrowAccounts, Ledger,
    SubstrateError, TokenAccount, TokenLedger,
};

fn addr(byte: u8) -> Address {
    Address::new([byte; 32])
}

const ALICE: u8 = 1;
const BOB: u8 = 2;
const MINT_X: u8 = 10;
const MINT_Y: u8 = 11;
const ALICE_X: u8 = 20;
const ALICE_Y: u8 = 21;
const BOB_X: u8 = 22;
const BOB_Y: u8 = 23;
const ESCROW: u8 = 30;
const VAULT: u8 = 31;
const AUTHORITY: u8 = 32;

fn token(mint: u8, owner: u8, amount: u64) -> Option<TokenAccount> {
    Some(TokenAccount { mint: addr(mint), owner: addr(owner), amount })
}

fn offer() -> InitializeEscrow {
    InitializeEscrow {
        vault_account: addr(VAULT),
        escrow_account: addr(ESCROW),
        initializer: addr(ALICE),
        initializer_nft_mint: addr(MINT_X),
        initializer_deposit_token_account: addr(ALICE_X),
        initializer_receive_mint: addr(MINT_Y),
        initializer_receive_token_account: addr(ALICE_Y),
    }
}

fn settlement() -> Exchange {
    Exchange {
        escrow_account: addr(ESCROW),
        vault_account: addr(VAULT),
        vault_authority: addr(AUTHORITY),
        initializer: addr(ALICE),
        taker: addr(BOB),
        initializer_deposit_token_account: addr(ALICE_X),
        initializer_receive_token_account: addr(ALICE_Y),
        taker_deposit_token_account: addr(BOB_Y),
        taker_receive_token_account: addr(BOB_X),
    }
}

fn cancellation() -> Cancel {
    Cancel {
        vault_account: addr(VAULT),
        escrow_account: addr(ESCROW),
        initializer_deposit_token_account: addr(ALICE_X),
        vault_authority: addr(AUTHORITY),
        initializer: addr(ALICE),
    }
}

fn wallets(alice_x: u64, bob_y: u64) -> TokenLedger {
    let mut tokens = TokenLedger::new();
    tokens.open_account(addr(ALICE_X), addr(MINT_X), addr(ALICE), alice_x).unwrap();
    tokens.open_account(addr(ALICE_Y), addr(MINT_Y), addr(ALICE), 40).unwrap();
    tokens.open_account(addr(BOB_X), addr(MINT_X), addr(BOB), 0).unwrap();
    tokens.open_account(addr(BOB_Y), addr(MINT_Y), addr(BOB), bob_y).unwrap();
    tokens
}

fn in_custody(bob_y: u64) -> TokenLedger {
    match move_into_custody(&wallets(1, bob_y), &offer(), addr(AUTHORITY)) {
        Ok(tokens) => tokens,
        Err(e) => panic!("{:?}", e),
    }
}

fn refusal(outcome: Result<TokenLedger, SubstrateError>) -> Option<SubstrateError> {
    outcome.err()
}

#[test]
fn deposit_opens_hands_over_and_fills_the_custody_account() {
    let before = wallets(3, 0);
    let after = move_into_custody(&before, &offer(), addr(AUTHORITY)).ok().unwrap();
    assert_eq!(after.account(&addr(VAULT)), token(MINT_X, AUTHORITY, 1));
    assert_eq!(after.account(&addr(ALICE_X)), token(MINT_X, ALICE, 2));
    assert_eq!(after.account(&addr(ALICE_Y)), token(MINT_Y, ALICE, 40));
    assert_eq!(before.account(&addr(VAULT)), None);
    assert_eq!(before.account(&addr(ALICE_X)), token(MINT_X, ALICE, 3));
}

#[test]
fn deposit_fails_as_its_first_failing_primitive() {
    let mut taken = wallets(1, 0);
    taken.open_account(addr(VAULT), addr(MINT_X), addr(BOB), 0).unwrap();
    assert_eq!(
        refusal(move_into_custody(&taken, &offer(), addr(AUTHORITY))),
        Some(SubstrateError::AccountAlreadyExists)
    );
    assert_eq!(
        refusal(move_into_custody(&wallets(0, 0), &offer(), addr(AUTHORITY))),
        Some(SubstrateError::InsufficientFunds)
    );
    let no_source = InitializeEscrow { initializer_deposit_token_account: addr(99), ..offer() };
    assert_eq!(
        refusal(move_into_custody(&wallets(1, 0), &no_source, addr(AUTHORITY))),
        Some(SubstrateError::AccountNotFound)
    );
    let wrong_kind = InitializeEscrow { initializer_deposit_token_account: addr(ALICE_Y), ..offer() };
    assert_eq!(
        refusal(move_into_custody(&wallets(1, 0), &wrong_kind, addr(AUTHORITY))),
        Some(SubstrateError::MintMismatch)
    );
    let mut funded = wallets(1, 0);
    funded.open_account(addr(98), addr(MINT_X), addr(BOB), 5).unwrap();
    let not_hers = InitializeEscrow { initializer_deposit_token_account: addr(98), ..offer() };
    assert_eq!(
        refusal(move_into_custody(&funded, &not_hers, addr(AUTHORITY))),
        Some(SubstrateError::OwnerMismatch)
    );
}

#[test]
fn swap_pays_releases_and_closes() {
    let before = in_custody(600);
    let after = swap(&before, &settlement(), 500).ok().unwrap();
    assert_eq!(after.account(&addr(VAULT)), None);
    assert_eq!(after.account(&addr(BOB_X)), token(MINT_X, BOB, 1));
    assert_eq!(after.account(&addr(BOB_Y)), token(MINT_Y, BOB, 100));
    assert_eq!(after.account(&addr(ALICE_Y)), token(MINT_Y, ALICE, 540));
    assert_eq!(after.account(&addr(ALICE_X)), token(MINT_X, ALICE, 0));
    assert_eq!(before.account(&addr(VAULT)), token(MINT_X, AUTHORITY, 1));
    assert_eq!(before.account(&addr(BOB_Y)), token(MINT_Y, BOB, 600));
}

#[test]
fn swap_fails_as_its_first_failing_primitive() {
    let tokens = in_custody(600);
    assert_eq!(refusal(swap(&tokens, &settlement(), 601)), Some(SubstrateError::InsufficientFunds));
    let by_alice = Exchange { taker: addr(ALICE), ..settlement() };
    assert_eq!(refusal(swap(&tokens, &by_alice, 500)), Some(SubstrateError::OwnerMismatch));
    let by_bob = Exchange { vault_authority: addr(BOB), ..settlement() };
    assert_eq!(refusal(swap(&tokens, &by_bob, 500)), Some(SubstrateError::OwnerMismatch));
    let wrong_kind = Exchange { taker_receive_token_account: addr(BOB_Y), ..settlement() };
    assert_eq!(refusal(swap(&tokens, &wrong_kind, 500)), Some(SubstrateError::MintMismatch));
    let nowhere = Exchange { taker_receive_token_account: addr(99), ..settlement() };
    assert_eq!(refusal(swap(&tokens, &nowhere, 500)), Some(SubstrateError::AccountNotFound));

    let mut crowded = wallets(2, 600);
    crowded.open_account(addr(VAULT), addr(MINT_X), addr(AUTHORITY), 2).unwrap();
    assert_eq!(refusal(swap(&crowded, &settlement(), 500)), Some(SubstrateError::NonEmptyAccount));
}

#[test]
fn return_gives_the_unit_back_and_closes() {
    let before = in_custody(600);
    let after = move_out_of_custody(&before, &cancellation()).ok().unwrap();
    assert_eq!(after.account(&addr(VAULT)), None);
    assert_eq!(after.account(&addr(ALICE_X)), token(MINT_X, ALICE, 1));
    assert_eq!(after.account(&addr(BOB_Y)), token(MINT_Y, BOB, 600));
    assert_eq!(before.account(&addr(VAULT)), token(MINT_X, AUTHORITY, 1));
    assert_eq!(before.account(&addr(ALICE_X)), token(MINT_X, ALICE, 0));
}

#[test]
fn return_fails_as_its_first_failing_primitive() {
    let tokens = in_custody(600);
    let by_alice = Cancel { vault_authority: addr(ALICE), ..cancellation() };
    assert_eq!(refusal(move_out_of_custody(&tokens, &by_alice)), Some(SubstrateError::OwnerMismatch));
    let elsewhere = Cancel { initializer_deposit_token_account: addr(ALICE_Y), ..cancellation() };
    assert_eq!(refusal(move_out_of_custody(&tokens, &elsewhere)), Some(SubstrateError::MintMismatch));
    assert_eq!(
        refusal(move_out_of_custody(&wallets(1, 0), &cancellation())),
        Some(SubstrateError::AccountNotFound)
    );
    let mut empty = wallets(1, 0);
    empty.open_account(addr(VAULT), addr(MINT_X), addr(AUTHORITY), 0).unwrap();
    assert_eq!(
        refusal(move_out_of_custody(&empty, &cancellation())),
        Some(SubstrateError::InsufficientFunds)
    );
}

#[test]
fn ledger_loads_what_it_holds_at_the_accounts() {
    let program = addr(200);
    let vault = find_vault_account(&program, &addr(ALICE), &addr(MINT_X)).unwrap().0;
    let authority = find_vault_authority(&program).unwrap().0;
    let mut ledger = Ledger::new(program);
    ledger.open_account(addr(ALICE_X), addr(MINT_X), addr(ALICE), 1).unwrap();
    ledger.open_account(addr(ALICE_Y), addr(MINT_Y), addr(ALICE), 40).unwrap();
    ledger.open_account(addr(BOB_Y), addr(MINT_Y), addr(BOB), 600).unwrap();
    let offer = InitializeEscrow { vault_account: vault, ..offer() };
    assert_eq!(
        ledger.load_initialize(&offer),
        InitializeEscrowAccounts {
            initializer_deposit_token_account: token(MINT_X, ALICE, 1),
            initializer_receive_token_account: token(MINT_Y, ALICE, 40),
        }
    );
    let settlement = Exchange { vault_account: vault, vault_authority: authority, ..settlement() };
    let cancellation = Cancel { vault_account: vault, vault_authority: authority, ..cancellation() };
    assert_eq!(
        ledger.load_cancel(&cancellation),
        CancelAccounts {
            escrow_account: None,
            vault_account: None,
            initializer_deposit_token_account: token(MINT_X, ALICE, 1),
        }
    );
    initialize_escrow(&mut ledger, &offer, 500).unwrap();
    let record = EscrowAccount {
        initializer_key: addr(ALICE),
        initializer_nft_mint: addr(MINT_X),
        initializer_deposit_token_account: addr(ALICE_X),
        initializer_receive_mint: addr(MINT_Y),
        initializer_receive_amount: 500,
        initializer_receive_token_account: addr(ALICE_Y),
    };
    let custody = Some(TokenAccount { mint: addr(MINT_X), owner: authority, amount: 1 });
    assert_eq!(
        ledger.load_cancel(&cancellation),
        CancelAccounts {
            escrow_account: Some(record),
            vault_account: custody,
            initializer_deposit_token_account: token(MINT_X, ALICE, 0),
        }
    );
    assert_eq!(
        ledger.load_exchange(&settlement),
        ExchangeAccounts {
            escrow_account: Some(record),
            vault_account: custody,
            initializer_deposit_token_account: token(MINT_X, ALICE, 0),
            initializer_receive_token_account: token(MINT_Y, ALICE, 40),
            taker_deposit_token_account: token(MINT_Y, BOB, 600),
            taker_receive_token_account: None,
        }
    );
}
