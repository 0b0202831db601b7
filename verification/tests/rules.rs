use escrow_contract::escrow::validate_custody;
use escrow_contract::{
    Address, AuthorityError, Cancel, CancelAccounts, CloseAccount, EscrowAccount, EscrowError,
    Exchange, ExchangeAccounts, InitializeEscrow, InitializeEscrowAccounts, SetAuthority,
    TokenAccount, Transfer, ValidationError,
};

fn addr(byte: u8) -> Address {
    Address::new([byte; 32])
}

const ALICE: u8 = 1;
const BOB: u8 = 2;
const MINT_X: u8 = 10;
const MINT_Y: u8 = 11;
const ALICE_X: u8 = 20;
const ALICE_Y: u8 = 21;
const BOB_X: u8 = 22;
const BOB_Y: u8 = 23;
const ESCROW: u8 = 30;
const VAULT: u8 = 31;
const AUTHORITY: u8 = 32;

fn token(mint: u8, owner: u8, amount: u64) -> Option<TokenAccount> {
    Some(TokenAccount { mint: addr(mint), owner: addr(owner), amount })
}

fn vault() -> Option<(Address, u8)> {
    Some((addr(VAULT), 254))
}

fn authority() -> Option<(Address, u8)> {
    Some((addr(AUTHORITY), 255))
}

fn refused(kind: ValidationError) -> Result<(), EscrowError> {
    Err(EscrowError::Validation(kind))
}

fn unauthorized(kind: AuthorityError) -> Result<(), EscrowError> {
    Err(EscrowError::Authority(kind))
}

fn offer() -> InitializeEscrow {
    InitializeEscrow {
        vault_account: addr(VAULT),
        escrow_account: addr(ESCROW),
        initializer: addr(ALICE),
        initializer_nft_mint: addr(MINT_X),
        initializer_deposit_token_account: addr(ALICE_X),
        initializer_receive_mint: addr(MINT_Y),
        initializer_receive_token_account: addr(ALICE_Y),
    }
}

fn offer_accounts() -> InitializeEscrowAccounts {
    InitializeEscrowAccounts {
        initializer_deposit_token_account: token(MINT_X, ALICE, 1),
        initializer_receive_token_account: token(MINT_Y, ALICE, 0),
    }
}

fn record() -> EscrowAccount {
    EscrowAccount {
        initializer_key: addr(ALICE),
        initializer_nft_mint: addr(MINT_X),
        initializer_deposit_token_account: addr(ALICE_X),
        initializer_receive_mint: addr(MINT_Y),
        initializer_receive_amount: 500,
        initializer_receive_token_account: addr(ALICE_Y),
    }
}

fn settlement() -> Exchange {
    Exchange {
        escrow_account: addr(ESCROW),
        vault_account: addr(VAULT),
        vault_authority: addr(AUTHORITY),
        initializer: addr(ALICE),
        taker: addr(BOB),
        initializer_deposit_token_account: addr(ALICE_X),
        initializer_receive_token_account: addr(ALICE_Y),
        taker_deposit_token_account: addr(BOB_Y),
        taker_receive_token_account: addr(BOB_X),
    }
}

fn settlement_accounts() -> ExchangeAccounts {
    ExchangeAccounts {
        escrow_account: Some(record()),
        vault_account: token(MINT_X, AUTHORITY, 1),
        initializer_deposit_token_account: token(MINT_X, ALICE, 0),
        initializer_receive_token_account: token(MINT_Y, ALICE, 0),
        taker_deposit_token_account: token(MINT_Y, BOB, 500),
        taker_receive_token_account: token(MINT_X, BOB, 0),
    }
}

fn cancellation() -> Cancel {
    Cancel {
        vault_account: addr(VAULT),
        escrow_account: addr(ESCROW),
        initializer_deposit_token_account: addr(ALICE_X),
        vault_authority: addr(AUTHORITY),
        initializer: addr(ALICE),
    }
}

fn cancellation_accounts() -> CancelAccounts {
    CancelAccounts {
        escrow_account: Some(record()),
        vault_account: token(MINT_X, AUTHORITY, 1),
        initializer_deposit_token_account: token(MINT_X, ALICE, 0),
    }
}

#[test]
fn record_takes_its_terms_from_the_accounts() {
    assert_eq!(offer().new_record(500), record());
    assert_eq!(offer().new_record(0).initializer_receive_amount, 0);
}

#[test]
fn initialization_instructions_name_the_right_accounts() {
    assert_eq!(
        offer().transfer_nft_context(),
        Transfer { from: addr(ALICE_X), to: addr(VAULT), authority: addr(ALICE) }
    );
    assert_eq!(
        offer().set_authority_context(),
        SetAuthority { account_or_mint: addr(VAULT), current_authority: addr(ALICE) }
    );
}

#[test]
fn cancellation_instructions_name_the_right_accounts() {
    assert_eq!(
        cancellation().transfer_nft_back_context(),
        Transfer { from: addr(VAULT), to: addr(ALICE_X), authority: addr(AUTHORITY) }
    );
    assert_eq!(
        cancellation().close_account_context(),
        CloseAccount { account: addr(VAULT), destination: addr(ALICE), authority: addr(AUTHORITY) }
    );
}

#[test]
fn settlement_instructions_name_the_right_accounts() {
    assert_eq!(
        settlement().transfer_to_initializer_context(),
        Transfer { from: addr(BOB_Y), to: addr(ALICE_Y), authority: addr(BOB) }
    );
    assert_eq!(
        settlement().transfer_to_taker_context(),
        Transfer { from: addr(VAULT), to: addr(BOB_X), authority: addr(AUTHORITY) }
    );
    assert_eq!(
        settlement().close_account_context(),
        CloseAccount { account: addr(VAULT), destination: addr(ALICE), authority: addr(AUTHORITY) }
    );
}

#[test]
fn initialization_rules_accept_a_proper_offer() {
    assert_eq!(offer().validate(&offer_accounts(), vault(), authority()), Ok(()));
}

#[test]
fn initialization_rules_in_order() {
    let ctx = offer();
    let ok = offer_accounts();
    let held = InitializeEscrowAccounts { initializer_deposit_token_account: None, ..ok };
    assert_eq!(ctx.validate(&held, None, None), refused(ValidationError::AccountNotFound));
    let held =
        InitializeEscrowAccounts { initializer_deposit_token_account: token(MINT_Y, BOB, 1), ..ok };
    assert_eq!(ctx.validate(&held, None, None), refused(ValidationError::MintMismatch));
    let held =
        InitializeEscrowAccounts { initializer_deposit_token_account: token(MINT_X, BOB, 1), ..ok };
    assert_eq!(ctx.validate(&held, None, None), refused(ValidationError::OwnerMismatch));
    let held = InitializeEscrowAccounts { initializer_receive_token_account: None, ..ok };
    assert_eq!(ctx.validate(&held, None, None), refused(ValidationError::AccountNotFound));
    let held =
        InitializeEscrowAccounts { initializer_receive_token_account: token(MINT_X, BOB, 1), ..ok };
    assert_eq!(ctx.validate(&held, None, None), refused(ValidationError::MintMismatch));
    let held =
        InitializeEscrowAccounts { initializer_receive_token_account: token(MINT_Y, BOB, 1), ..ok };
    assert_eq!(ctx.validate(&held, None, None), refused(ValidationError::OwnerMismatch));
    assert_eq!(ctx.validate(&ok, None, None), unauthorized(AuthorityError::Underivable));
    assert_eq!(
        ctx.validate(&ok, Some((addr(VAULT + 1), 254)), None),
        refused(ValidationError::AccountMismatch)
    );
    assert_eq!(ctx.validate(&ok, vault(), None), unauthorized(AuthorityError::Underivable));
    assert_eq!(
        ctx.validate(&ok, vault(), Some((addr(ALICE), 255))),
        unauthorized(AuthorityError::Impersonation)
    );
    assert_eq!(ctx.validate(&ok, vault(), Some((addr(ALICE), 0))), unauthorized(AuthorityError::Impersonation));
    assert_eq!(ctx.validate(&ok, vault(), Some((addr(BOB), 0))), Ok(()));
}

#[test]
fn custody_rules_in_order() {
    let held = token(MINT_X, AUTHORITY, 1);
    let check = |held, vault, authority| {
        validate_custody(&addr(VAULT), &addr(AUTHORITY), held, vault, authority)
    };
    assert_eq!(check(None, None, None), unauthorized(AuthorityError::Underivable));
    assert_eq!(
        check(None, Some((addr(VAULT + 1), 0)), None),
        refused(ValidationError::AccountMismatch)
    );
    assert_eq!(check(None, vault(), None), refused(ValidationError::AccountNotFound));
    assert_eq!(check(held, vault(), None), unauthorized(AuthorityError::Underivable));
    assert_eq!(
        check(held, vault(), Some((addr(ALICE), 255))),
        unauthorized(AuthorityError::Mismatch)
    );
    assert_eq!(
        check(token(MINT_X, ALICE, 1), vault(), authority()),
        unauthorized(AuthorityError::NotCustodian)
    );
    assert_eq!(check(held, vault(), authority()), Ok(()));
    assert_eq!(check(token(MINT_Y, AUTHORITY, 0), Some((addr(VAULT), 0)), Some((addr(AUTHORITY), 0))), Ok(()));
}

#[test]
fn cancellation_rules_accept_the_initializer() {
    assert_eq!(cancellation().validate(&cancellation_accounts(), vault(), authority()), Ok(()));
}

#[test]
fn cancellation_rules_in_order() {
    let ctx = cancellation();
    let ok = cancellation_accounts();
    let held = CancelAccounts { escrow_account: None, ..ok };
    assert_eq!(ctx.validate(&held, None, None), refused(ValidationError::RecordNotFound));
    let by_bob = Cancel { initializer: addr(BOB), ..ctx };
    assert_eq!(by_bob.validate(&ok, vault(), authority()), refused(ValidationError::InitializerMismatch));
    let elsewhere = Cancel { initializer_deposit_token_account: addr(ALICE_Y), ..ctx };
    assert_eq!(elsewhere.validate(&ok, vault(), authority()), refused(ValidationError::AccountMismatch));
    let held = CancelAccounts { initializer_deposit_token_account: None, ..ok };
    assert_eq!(ctx.validate(&held, vault(), authority()), refused(ValidationError::AccountNotFound));
    let held = CancelAccounts { initializer_deposit_token_account: token(MINT_X, BOB, 0), ..ok };
    assert_eq!(ctx.validate(&held, vault(), authority()), refused(ValidationError::OwnerMismatch));
    assert_eq!(ctx.validate(&ok, None, authority()), unauthorized(AuthorityError::Underivable));
    let held = CancelAccounts { vault_account: None, ..ok };
    assert_eq!(ctx.validate(&held, vault(), authority()), refused(ValidationError::AccountNotFound));
    let held = CancelAccounts { vault_account: token(MINT_X, ALICE, 1), ..ok };
    assert_eq!(ctx.validate(&held, vault(), authority()), unauthorized(AuthorityError::NotCustodian));
    let other = Cancel { vault_authority: addr(ALICE), ..ctx };
    assert_eq!(other.validate(&ok, vault(), authority()), unauthorized(AuthorityError::Mismatch));
}

#[test]
fn settlement_rules_accept_the_exact_amount() {
    let ctx = settlement();
    let ok = settlement_accounts();
    assert_eq!(ctx.validate(&ok, vault(), authority()), Ok(()));
    let more = ExchangeAccounts { taker_deposit_token_account: token(MINT_Y, BOB, u64::MAX), ..ok };
    assert_eq!(ctx.validate(&more, vault(), authority()), Ok(()));
    let less = ExchangeAccounts { taker_deposit_token_account: token(MINT_Y, BOB, 499), ..ok };
    assert_eq!(ctx.validate(&less, vault(), authority()), refused(ValidationError::InsufficientAmount));
}

#[test]
fn settlement_rules_in_order() {
    let ctx = settlement();
    let ok = settlement_accounts();
    let v = vault();
    let a = authority();
    let held = ExchangeAccounts { escrow_account: None, ..ok };
    assert_eq!(ctx.validate(&held, None, None), refused(ValidationError::RecordNotFound));
    let other = Exchange { initializer: addr(BOB), ..ctx };
    assert_eq!(other.validate(&ok, v, a), refused(ValidationError::InitializerMismatch));
    let other = Exchange { initializer_deposit_token_account: addr(BOB_X), ..ctx };
    assert_eq!(other.validate(&ok, v, a), refused(ValidationError::AccountMismatch));
    let other = Exchange { initializer_receive_token_account: addr(BOB_Y), ..ctx };
    assert_eq!(other.validate(&ok, v, a), refused(ValidationError::AccountMismatch));

    let held = ExchangeAccounts { initializer_deposit_token_account: None, ..ok };
    assert_eq!(ctx.validate(&held, v, a), refused(ValidationError::AccountNotFound));
    let held = ExchangeAccounts { initializer_deposit_token_account: token(MINT_X, BOB, 0), ..ok };
    assert_eq!(ctx.validate(&held, v, a), refused(ValidationError::OwnerMismatch));
    let held = ExchangeAccounts { initializer_receive_token_account: None, ..ok };
    assert_eq!(ctx.validate(&held, v, a), refused(ValidationError::AccountNotFound));
    let held = ExchangeAccounts { initializer_receive_token_account: token(MINT_Y, BOB, 0), ..ok };
    assert_eq!(ctx.validate(&held, v, a), refused(ValidationError::OwnerMismatch));
    let held = ExchangeAccounts { initializer_receive_token_account: token(MINT_X, ALICE, 0), ..ok };
    assert_eq!(ctx.validate(&held, v, a), refused(ValidationError::MintMismatch));

    let held = ExchangeAccounts { taker_deposit_token_account: None, ..ok };
    assert_eq!(ctx.validate(&held, v, a), refused(ValidationError::AccountNotFound));
    let held = ExchangeAccounts { taker_deposit_token_account: token(MINT_Y, ALICE, 0), ..ok };
    assert_eq!(ctx.validate(&held, v, a), refused(ValidationError::OwnerMismatch));
    let held = ExchangeAccounts { taker_deposit_token_account: token(MINT_X, BOB, 0), ..ok };
    assert_eq!(ctx.validate(&held, v, a), refused(ValidationError::MintMismatch));
    let held = ExchangeAccounts { taker_deposit_token_account: token(MINT_Y, BOB, 0), ..ok };
    assert_eq!(ctx.validate(&held, v, a), refused(ValidationError::InsufficientAmount));

    let held = ExchangeAccounts { taker_receive_token_account: None, ..ok };
    assert_eq!(ctx.validate(&held, v, a), refused(ValidationError::AccountNotFound));
    let held = ExchangeAccounts { taker_receive_token_account: token(MINT_X, ALICE, 0), ..ok };
    assert_eq!(ctx.validate(&held, v, a), refused(ValidationError::OwnerMismatch));
    let held = ExchangeAccounts { taker_receive_token_account: token(MINT_Y, BOB, 0), ..ok };
    assert_eq!(ctx.validate(&held, v, a), refused(ValidationError::MintMismatch));

    assert_eq!(ctx.validate(&ok, None, a), unauthorized(AuthorityError::Underivable));
    assert_eq!(ctx.validate(&ok, v, None), unauthorized(AuthorityError::Underivable));
    let held = ExchangeAccounts { vault_account: token(MINT_X, ALICE, 1), ..ok };
    assert_eq!(ctx.validate(&held, v, a), unauthorized(AuthorityError::NotCustodian));
    assert_eq!(
        ctx.validate(&ok, v, Some((addr(BOB), 255))),
        unauthorized(AuthorityError::Mismatch)
    );
    let by_authority = Exchange { taker: addr(AUTHORITY), ..ctx };
    let held = ExchangeAccounts {
        taker_deposit_token_account: token(MINT_Y, AUTHORITY, 500),
        taker_receive_token_account: token(MINT_X, AUTHORITY, 0),
        ..ok
    };
    assert_eq!(by_authority.validate(&held, v, a), unauthorized(AuthorityError::Impersonation));
}
