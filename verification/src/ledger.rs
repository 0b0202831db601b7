//! The escrow state machine: a ledger of asset accounts and escrow records,
//! and the three operations that create and resolve a trade.
//!
//! Each operation is one step of the machine. A step checks every rule first,
//! then works on a copy of the ledger, and puts the copy in place only when
//! every primitive has succeeded: an operation that fails leaves no trace.
use vstd::prelude::*;
use crate::address::Address;
use crate::authority::{find_vault_account, find_vault_authority, vault_account_pda, vault_authority_pda};
use crate::error::{EscrowError, SubstrateError};
use crate::escrow::{
    Cancel,
    CancelAccounts,
    EscrowAccount,
    Exchange,
    ExchangeAccounts,
    InitializeEscrow,
    InitializeEscrowAccounts,
};
use crate::table::AddressMap;
use crate::token::{
    close_account_step,
    open_account_step,
    set_authority_step,
    transfer_step,
    TokenAccount,
    TokenLedger,
    TokenState,
};

verus! {

/// A state of the escrow program `program_id`: the asset accounts and the
/// records of the active trades.
pub struct LedgerState {
    pub program_id: Address,
    pub tokens: TokenState,
    pub escrows: Map<Address, EscrowAccount>,
}

/// The asset movements of an initialization: the custody account is opened
/// for the initializer, handed to the custody authority, and receives one
/// unit of the offered asset.
pub open spec fn into_custody_step(tokens: TokenState, ctx: InitializeEscrow, authority: Address) -> Result<
    TokenState,
    SubstrateError,
> {
    let fresh = TokenAccount { mint: ctx.initializer_nft_mint, owner: ctx.initializer, amount: 0 };
    match open_account_step(tokens, ctx.vault_account, fresh) {
        Err(e) => Err(e),
        Ok(opened) => match set_authority_step(opened, ctx.set_authority(), authority) {
            Err(e) => Err(e),
            Ok(handed) => transfer_step(handed, ctx.transfer_nft(), 1),
        },
    }
}

/// The asset movements of a settlement: the taker pays the requested amount,
/// one unit leaves custody for the taker, and the custody account is closed.
pub open spec fn swap_step(tokens: TokenState, ctx: Exchange, amount: u64) -> Result<
    TokenState,
    SubstrateError,
> {
    match transfer_step(tokens, ctx.transfer_to_initializer(), amount) {
        Err(e) => Err(e),
        Ok(paid) => match transfer_step(paid, ctx.transfer_to_taker(), 1) {
            Err(e) => Err(e),
            Ok(released) => close_account_step(released, ctx.close_account()),
        },
    }
}

/// The asset movements of a cancellation: one unit leaves custody for the
/// initializer's account, and the custody account is closed.
pub open spec fn out_of_custody_step(tokens: TokenState, ctx: Cancel) -> Result<TokenState, SubstrateError> {
    match transfer_step(tokens, ctx.transfer_nft_back(), 1) {
        Err(e) => Err(e),
        Ok(returned) => close_account_step(returned, ctx.close_account()),
    }
}

impl LedgerState {
    /// The state of a program without accounts and records.
    pub open spec fn empty(program_id: Address) -> LedgerState {
        LedgerState { program_id, tokens: Map::empty(), escrows: Map::empty() }
    }

    /// The asset account at `address`, if there is one.
    pub open spec fn token(self, address: Address) -> Option<TokenAccount> {
        if self.tokens.contains_key(address) {
            Some(self.tokens[address])
        } else {
            None
        }
    }

    /// The escrow record at `address`, if there is one.
    pub open spec fn escrow(self, address: Address) -> Option<EscrowAccount> {
        if self.escrows.contains_key(address) {
            Some(self.escrows[address])
        } else {
            None
        }
    }

    /// The custody authority of this program, with its bump seed.
    pub open spec fn authority(self) -> Option<(Address, u8)> {
        vault_authority_pda(self.program_id)
    }

    /// The custody account of the trade that `record` describes, with its
    /// bump seed.
    pub open spec fn custody(self, record: EscrowAccount) -> Option<(Address, u8)> {
        vault_account_pda(self.program_id, record.initializer_key, record.initializer_nft_mint)
    }

    /// The address of the custody authority, where one can be derived.
    pub open spec fn authority_address(self) -> Address {
        self.authority().unwrap().0
    }

    /// The address of the custody account of the trade that `record`
    /// describes, where one can be derived.
    pub open spec fn custody_address(self, record: EscrowAccount) -> Address {
        self.custody(record).unwrap().0
    }

    /// The custody account of the trade of a record that may be missing.
    pub open spec fn custody_of(self, record: Option<EscrowAccount>) -> Option<(Address, u8)> {
        match record {
            Some(record) => self.custody(record),
            None => None,
        }
    }

    /// What the ledger holds at the accounts of an initialization.
    pub open spec fn held_initialize(self, ctx: InitializeEscrow) -> InitializeEscrowAccounts {
        InitializeEscrowAccounts {
            initializer_deposit_token_account: self.token(ctx.initializer_deposit_token_account),
            initializer_receive_token_account: self.token(ctx.initializer_receive_token_account),
        }
    }

    /// What the ledger holds at the accounts of a cancellation.
    pub open spec fn held_cancel(self, ctx: Cancel) -> CancelAccounts {
        CancelAccounts {
            escrow_account: self.escrow(ctx.escrow_account),
            vault_account: self.token(ctx.vault_account),
            initializer_deposit_token_account: self.token(ctx.initializer_deposit_token_account),
        }
    }

    /// What the ledger holds at the accounts of a settlement.
    pub open spec fn held_exchange(self, ctx: Exchange) -> ExchangeAccounts {
        ExchangeAccounts {
            escrow_account: self.escrow(ctx.escrow_account),
            vault_account: self.token(ctx.vault_account),
            initializer_deposit_token_account: self.token(ctx.initializer_deposit_token_account),
            initializer_receive_token_account: self.token(ctx.initializer_receive_token_account),
            taker_deposit_token_account: self.token(ctx.taker_deposit_token_account),
            taker_receive_token_account: self.token(ctx.taker_receive_token_account),
        }
    }

    /// Opening an asset account outside any trade.
    pub open spec fn open_account_step(self, address: Address, account: TokenAccount) -> Result<
        LedgerState,
        EscrowError,
    > {
        match open_account_step(self.tokens, address, account) {
            Err(e) => Err(EscrowError::Substrate(e)),
            Ok(tokens) => Ok(LedgerState { tokens, ..self }),
        }
    }

    /// Initialization: the asset goes into custody and the record is written.
    pub open spec fn initialize_step(self, ctx: InitializeEscrow, receive_amount: u64) -> Result<
        LedgerState,
        EscrowError,
    > {
        let vault = vault_account_pda(self.program_id, ctx.initializer, ctx.initializer_nft_mint);
        match ctx.validation(self.held_initialize(ctx), vault, self.authority()) {
            Err(e) => Err(e),
            Ok(()) => match into_custody_step(self.tokens, ctx, self.authority_address()) {
                Err(e) => Err(EscrowError::Substrate(e)),
                Ok(tokens) => if self.escrows.contains_key(ctx.escrow_account) {
                    Err(EscrowError::Substrate(SubstrateError::AccountAlreadyExists))
                } else {
                    Ok(
                        LedgerState {
                            tokens,
                            escrows: self.escrows.insert(
                                ctx.escrow_account,
                                ctx.record(receive_amount),
                            ),
                            ..self
                        },
                    )
                },
            },
        }
    }

    /// Settlement: payment and release happen together, and the record and
    /// the custody account are destroyed.
    pub open spec fn exchange_step(self, ctx: Exchange) -> Result<LedgerState, EscrowError> {
        let held = self.held_exchange(ctx);
        match ctx.validation(held, self.custody_of(held.escrow_account), self.authority()) {
            Err(e) => Err(e),
            Ok(()) => match swap_step(
                self.tokens,
                ctx,
                held.escrow_account.unwrap().initializer_receive_amount,
            ) {
                Err(e) => Err(EscrowError::Substrate(e)),
                Ok(tokens) => Ok(
                    LedgerState { tokens, escrows: self.escrows.remove(ctx.escrow_account), ..self },
                ),
            },
        }
    }

    /// Cancellation: the asset returns to the initializer, and the record and
    /// the custody account are destroyed.
    pub open spec fn cancel_step(self, ctx: Cancel) -> Result<LedgerState, EscrowError> {
        let held = self.held_cancel(ctx);
        match ctx.validation(held, self.custody_of(held.escrow_account), self.authority()) {
            Err(e) => Err(e),
            Ok(()) => match out_of_custody_step(self.tokens, ctx) {
                Err(e) => Err(EscrowError::Substrate(e)),
                Ok(tokens) => Ok(
                    LedgerState { tokens, escrows: self.escrows.remove(ctx.escrow_account), ..self },
                ),
            },
        }
    }

    /// The trade of `record` is backed: its custody account exists, belongs
    /// to the custody authority and to nobody else, and holds exactly the one
    /// unit of the offered asset.
    pub open spec fn backed(self, record: EscrowAccount) -> bool {
        &&& self.authority() is Some
        &&& self.custody(record) is Some
        &&& self.tokens.contains_key(self.custody_address(record))
        &&& self.tokens[self.custody_address(record)] == (TokenAccount {
            mint: record.initializer_nft_mint,
            owner: self.authority_address(),
            amount: 1,
        })
        &&& record.initializer_key != self.authority_address()
    }

    /// Every active trade is backed, and no two trades share a custody
    /// account.
    pub open spec fn wf(self) -> bool {
        &&& forall|e: Address| #[trigger] self.escrows.contains_key(e) ==> self.backed(self.escrows[e])
        &&& forall|e1: Address, e2: Address|
            #![trigger self.escrows.contains_key(e1), self.escrows.contains_key(e2)]
            self.escrows.contains_key(e1) && self.escrows.contains_key(e2) && e1 != e2
                ==> self.custody_address(self.escrows[e1]) != self.custody_address(
                self.escrows[e2],
            )
    }
}

/// What an operation owes: on success the ledger is the next state, on
/// failure it is unchanged and the error is the one that the step names.
pub open spec fn stepped(
    step: Result<LedgerState, EscrowError>,
    before: LedgerState,
    after: LedgerState,
    outcome: Result<(), EscrowError>,
) -> bool {
    match step {
        Ok(next) => outcome is Ok && after == next,
        Err(e) => outcome == Err::<(), EscrowError>(e) && after == before,
    }
}

/// The ledger of an escrow program, held in memory.
///
/// It can only be changed by opening an account and by the three escrow
/// operations, so every trade on record stays backed by its custody account.
pub struct Ledger {
    program_id: Address,
    tokens: TokenLedger,
    escrows: AddressMap<EscrowAccount>,
}

impl Ledger {
    #[verifier::type_invariant]
    spec fn inv(&self) -> bool {
        self@.wf()
    }

    /// The state of the ledger.
    pub closed spec fn view(&self) -> LedgerState {
        LedgerState { program_id: self.program_id, tokens: self.tokens@, escrows: self.escrows@ }
    }

    /// The ledger of the escrow program `program_id`, without accounts and
    /// records.
    pub fn new(program_id: Address) -> (ledger: Ledger)
        ensures
            ledger@ == LedgerState::empty(program_id),
            ledger@.wf(),
    {
        Ledger { program_id, tokens: TokenLedger::new(), escrows: AddressMap::new() }
    }

    /// The identity of the escrow program.
    pub fn program_id(&self) -> (program_id: Address)
        ensures
            program_id == self@.program_id,
            self@.wf(),
    {
        proof {
            use_type_invariant(self);
        }
        self.program_id
    }

    /// The asset account at `address`, if there is one.
    pub fn token_account(&self, address: &Address) -> (account: Option<TokenAccount>)
        ensures
            account == self@.token(*address),
            self@.wf(),
    {
        proof {
            use_type_invariant(self);
        }
        self.tokens.account(address)
    }

    /// The escrow record at `address`, if there is one.
    pub fn escrow_account(&self, address: &Address) -> (record: Option<EscrowAccount>)
        ensures
            record == self@.escrow(*address),
            self@.wf(),
    {
        proof {
            use_type_invariant(self);
        }
        self.escrows.get(address)
    }

    /// Opens an asset account at `address` that holds `amount` units of
    /// `mint` for `owner`. Refused where an account exists at `address`.
    pub fn open_account(&mut self, address: Address, mint: Address, owner: Address, amount: u64) -> (outcome:
        Result<(), EscrowError>)
        ensures
            stepped(
                old(self)@.open_account_step(address, (TokenAccount { mint, owner, amount })),
                old(self)@,
                final(self)@,
                outcome,
            ),
            final(self)@.wf(),
    {
        proof {
            use_type_invariant(&*self);
            lemma_open_account_keeps_wf(self@, address, TokenAccount { mint, owner, amount });
        }
        let mut tokens = self.tokens.duplicate();
        match tokens.open_account(address, mint, owner, amount) {
            Err(e) => Err(EscrowError::Substrate(e)),
            Ok(()) => {
                let escrows = self.escrows.duplicate();
                *self = Ledger { program_id: self.program_id, tokens, escrows };
                Ok(())
            },
        }
    }

    /// What the ledger holds at the accounts of an initialization.
    pub fn load_initialize(&self, ctx: &InitializeEscrow) -> (held: InitializeEscrowAccounts)
        ensures
            held == self@.held_initialize(*ctx),
    {
        proof {
            use_type_invariant(self);
        }
        InitializeEscrowAccounts {
            initializer_deposit_token_account: self.tokens.account(
                &ctx.initializer_deposit_token_account,
            ),
            initializer_receive_token_account: self.tokens.account(
                &ctx.initializer_receive_token_account,
            ),
        }
    }

    /// What the ledger holds at the accounts of a cancellation.
    pub fn load_cancel(&self, ctx: &Cancel) -> (held: CancelAccounts)
        ensures
            held == self@.held_cancel(*ctx),
    {
        proof {
            use_type_invariant(self);
        }
        CancelAccounts {
            escrow_account: self.escrows.get(&ctx.escrow_account),
            vault_account: self.tokens.account(&ctx.vault_account),
            initializer_deposit_token_account: self.tokens.account(
                &ctx.initializer_deposit_token_account,
            ),
        }
    }

    /// What the ledger holds at the accounts of a settlement.
    pub fn load_exchange(&self, ctx: &Exchange) -> (held: ExchangeAccounts)
        ensures
            held == self@.held_exchange(*ctx),
    {
        proof {
            use_type_invariant(self);
        }
        ExchangeAccounts {
            escrow_account: self.escrows.get(&ctx.escrow_account),
            vault_account: self.tokens.account(&ctx.vault_account),
            initializer_deposit_token_account: self.tokens.account(
                &ctx.initializer_deposit_token_account,
            ),
            initializer_receive_token_account: self.tokens.account(
                &ctx.initializer_receive_token_account,
            ),
            taker_deposit_token_account: self.tokens.account(&ctx.taker_deposit_token_account),
            taker_receive_token_account: self.tokens.account(&ctx.taker_receive_token_account),
        }
    }
}

/// Moves the offered asset into custody: on a copy of `tokens`, opens the
/// custody account for the initializer, hands it to `authority` and deposits
/// one unit. Returns the copy if every primitive succeeded.
pub fn move_into_custody(tokens: &TokenLedger, ctx: &InitializeEscrow, authority: Address) -> (outcome:
    Result<TokenLedger, SubstrateError>)
    ensures
        match into_custody_step(tokens@, *ctx, authority) {
            Ok(next) => outcome matches Ok(after) && after@ == next,
            Err(e) => outcome matches Err(refusal) && refusal == e,
        },
{
    let mut work = tokens.duplicate();
    match work.open_account(ctx.vault_account, ctx.initializer_nft_mint, ctx.initializer, 0) {
        Err(e) => {
            return Err(e);
        },
        Ok(()) => {},
    }
    match work.set_authority(&ctx.set_authority_context(), authority) {
        Err(e) => {
            return Err(e);
        },
        Ok(()) => {},
    }
    match work.transfer(&ctx.transfer_nft_context(), 1) {
        Err(e) => Err(e),
        Ok(()) => Ok(work),
    }
}

/// Swaps payment for asset: on a copy of `tokens`, moves `amount` from the
/// taker to the initializer and one unit from custody to the taker, and
/// closes the custody account. Returns the copy if every primitive succeeded.
pub fn swap(tokens: &TokenLedger, ctx: &Exchange, amount: u64) -> (outcome: Result<
    TokenLedger,
    SubstrateError,
>)
    ensures
        match swap_step(tokens@, *ctx, amount) {
            Ok(next) => outcome matches Ok(after) && after@ == next,
            Err(e) => outcome matches Err(refusal) && refusal == e,
        },
{
    let mut work = tokens.duplicate();
    match work.transfer(&ctx.transfer_to_initializer_context(), amount) {
        Err(e) => {
            return Err(e);
        },
        Ok(()) => {},
    }
    match work.transfer(&ctx.transfer_to_taker_context(), 1) {
        Err(e) => {
            return Err(e);
        },
        Ok(()) => {},
    }
    match work.close_account(&ctx.close_account_context()) {
        Err(e) => Err(e),
        Ok(()) => Ok(work),
    }
}

/// Moves the asset back out of custody: on a copy of `tokens`, moves one unit
/// from custody to the account of the deposit and closes the custody account.
/// Returns the copy if every primitive succeeded.
pub fn move_out_of_custody(tokens: &TokenLedger, ctx: &Cancel) -> (outcome: Result<
    TokenLedger,
    SubstrateError,
>)
    ensures
        match out_of_custody_step(tokens@, *ctx) {
            Ok(next) => outcome matches Ok(after) && after@ == next,
            Err(e) => outcome matches Err(refusal) && refusal == e,
        },
{
    let mut work = tokens.duplicate();
    match work.transfer(&ctx.transfer_nft_back_context(), 1) {
        Err(e) => {
            return Err(e);
        },
        Ok(()) => {},
    }
    match work.close_account(&ctx.close_account_context()) {
        Err(e) => Err(e),
        Ok(()) => Ok(work),
    }
}

/// Opens a trade: the initializer's asset goes into a fresh custody account
/// under the custody authority, and the terms are put on record.
///
/// Either all of it happens or nothing does.
pub fn initialize_escrow(ledger: &mut Ledger, ctx: &InitializeEscrow, receive_amount: u64) -> (outcome:
    Result<(), EscrowError>)
    ensures
        stepped(
            old(ledger)@.initialize_step(*ctx, receive_amount),
            old(ledger)@,
            final(ledger)@,
            outcome,
        ),
        final(ledger)@.wf(),
{
    proof {
        use_type_invariant(&*ledger);
        lemma_initialize_keeps_wf(ledger@, *ctx, receive_amount);
    }
    let held = ledger.load_initialize(ctx);
    let vault = find_vault_account(&ledger.program_id, &ctx.initializer, &ctx.initializer_nft_mint);
    let authority = find_vault_authority(&ledger.program_id);
    match ctx.validate(&held, vault, authority) {
        Err(e) => {
            return Err(e);
        },
        Ok(()) => {},
    }
    let vault_authority = authority.unwrap().0;
    let tokens = match move_into_custody(&ledger.tokens, ctx, vault_authority) {
        Ok(tokens) => tokens,
        Err(e) => {
            return Err(EscrowError::Substrate(e));
        },
    };
    if ledger.escrows.get(&ctx.escrow_account).is_some() {
        return Err(EscrowError::Substrate(SubstrateError::AccountAlreadyExists));
    }
    let mut escrows = ledger.escrows.duplicate();
    escrows.insert(ctx.escrow_account, ctx.new_record(receive_amount));
    *ledger = Ledger { program_id: ledger.program_id, tokens, escrows };
    Ok(())
}

/// Settles a trade: the taker pays the requested amount to the initializer
/// and receives the asset from custody; the record and the custody account
/// are destroyed.
///
/// Either all of it happens or nothing does.
pub fn exchange(ledger: &mut Ledger, ctx: &Exchange) -> (outcome: Result<(), EscrowError>)
    ensures
        stepped(old(ledger)@.exchange_step(*ctx), old(ledger)@, final(ledger)@, outcome),
        final(ledger)@.wf(),
{
    proof {
        use_type_invariant(&*ledger);
        lemma_exchange_keeps_wf(ledger@, *ctx);
    }
    let held = ledger.load_exchange(ctx);
    let vault = match held.escrow_account {
        Some(record) => find_vault_account(
            &ledger.program_id,
            &record.initializer_key,
            &record.initializer_nft_mint,
        ),
        None => None,
    };
    let authority = find_vault_authority(&ledger.program_id);
    match ctx.validate(&held, vault, authority) {
        Err(e) => {
            return Err(e);
        },
        Ok(()) => {},
    }
    let amount = held.escrow_account.unwrap().initializer_receive_amount;
    let tokens = match swap(&ledger.tokens, ctx, amount) {
        Ok(tokens) => tokens,
        Err(e) => {
            return Err(EscrowError::Substrate(e));
        },
    };
    let mut escrows = ledger.escrows.duplicate();
    escrows.remove(&ctx.escrow_account);
    *ledger = Ledger { program_id: ledger.program_id, tokens, escrows };
    Ok(())
}

/// Cancels a trade: the asset returns from custody to the initializer's
/// account; the record and the custody account are destroyed. Only the
/// initializer on record can do this.
///
/// Either all of it happens or nothing does.
pub fn cancel(ledger: &mut Ledger, ctx: &Cancel) -> (outcome: Result<(), EscrowError>)
    ensures
        stepped(old(ledger)@.cancel_step(*ctx), old(ledger)@, final(ledger)@, outcome),
        final(ledger)@.wf(),
{
    proof {
        use_type_invariant(&*ledger);
        lemma_cancel_keeps_wf(ledger@, *ctx);
    }
    let held = ledger.load_cancel(ctx);
    let vault = match held.escrow_account {
        Some(record) => find_vault_account(
            &ledger.program_id,
            &record.initializer_key,
            &record.initializer_nft_mint,
        ),
        None => None,
    };
    let authority = find_vault_authority(&ledger.program_id);
    match ctx.validate(&held, vault, authority) {
        Err(e) => {
            return Err(e);
        },
        Ok(()) => {},
    }
    let tokens = match move_out_of_custody(&ledger.tokens, ctx) {
        Ok(tokens) => tokens,
        Err(e) => {
            return Err(EscrowError::Substrate(e));
        },
    };
    let mut escrows = ledger.escrows.duplicate();
    escrows.remove(&ctx.escrow_account);
    *ledger = Ledger { program_id: ledger.program_id, tokens, escrows };
    Ok(())
}

/// Opening an account keeps every active trade backed.
pub proof fn lemma_open_account_keeps_wf(s: LedgerState, address: Address, account: TokenAccount)
    requires
        s.wf(),
    ensures
        s.open_account_step(address, account) matches Ok(next) ==> next.wf(),
{
    if let Ok(next) = s.open_account_step(address, account) {
        assert forall|e: Address| #[trigger] next.escrows.contains_key(e) implies next.backed(
            next.escrows[e],
        ) by {
            assert(s.backed(s.escrows[e]));
        }
    }
}

/// Initialization keeps every active trade backed, the new one included.
pub proof fn lemma_initialize_keeps_wf(s: LedgerState, ctx: InitializeEscrow, receive_amount: u64)
    requires
        s.wf(),
    ensures
        s.initialize_step(ctx, receive_amount) matches Ok(next) ==> next.wf(),
{
    if let Ok(next) = s.initialize_step(ctx, receive_amount) {
        let record = ctx.record(receive_amount);
        assert(next.backed(record));
        assert forall|e: Address| #[trigger] next.escrows.contains_key(e) implies next.backed(
            next.escrows[e],
        ) by {
            if e != ctx.escrow_account {
                assert(s.backed(s.escrows[e]));
            }
        }
        assert forall|e1: Address, e2: Address|
            #![trigger next.escrows.contains_key(e1), next.escrows.contains_key(e2)]
            next.escrows.contains_key(e1) && next.escrows.contains_key(e2) && e1
                != e2 implies next.custody_address(next.escrows[e1]) != next.custody_address(
            next.escrows[e2],
        ) by {
            if e1 != ctx.escrow_account {
                assert(s.backed(s.escrows[e1]));
            }
            if e2 != ctx.escrow_account {
                assert(s.backed(s.escrows[e2]));
            }
        }
    }
}

/// Settlement keeps every other active trade backed.
pub proof fn lemma_exchange_keeps_wf(s: LedgerState, ctx: Exchange)
    requires
        s.wf(),
    ensures
        s.exchange_step(ctx) matches Ok(next) ==> next.wf(),
{
    if let Ok(next) = s.exchange_step(ctx) {
        assert(s.backed(s.escrows[ctx.escrow_account]));
        assert forall|e: Address| #[trigger] next.escrows.contains_key(e) implies next.backed(
            next.escrows[e],
        ) by {
            assert(s.escrows.contains_key(e) && s.escrows.contains_key(ctx.escrow_account));
            assert(s.backed(s.escrows[e]));
        }
    }
}

/// Cancellation keeps every other active trade backed.
pub proof fn lemma_cancel_keeps_wf(s: LedgerState, ctx: Cancel)
    requires
        s.wf(),
    ensures
        s.cancel_step(ctx) matches Ok(next) ==> next.wf(),
{
    if let Ok(next) = s.cancel_step(ctx) {
        assert(s.backed(s.escrows[ctx.escrow_account]));
        assert forall|e: Address| #[trigger] next.escrows.contains_key(e) implies next.backed(
            next.escrows[e],
        ) by {
            assert(s.escrows.contains_key(e) && s.escrows.contains_key(ctx.escrow_account));
            assert(s.backed(s.escrows[e]));
        }
    }
}

} // verus!
