//! What holds of every step of the escrow state machine.
use vstd::prelude::*;
use crate::address::Address;
use crate::error::{EscrowError, SubstrateError, ValidationError};
use crate::escrow::{Cancel, Exchange, InitializeEscrow};
use crate::ledger::LedgerState;
use crate::token::TokenAccount;

verus! {

/// The units that `address` holds in `tokens`; nothing where no account
/// exists there.
pub open spec fn balance(tokens: Map<Address, TokenAccount>, address: Address) -> int {
    if tokens.contains_key(address) {
        tokens[address].amount as int
    } else {
        0
    }
}

/// `amount` where the two addresses are the same, else nothing.
pub open spec fn at(address: Address, target: Address, amount: int) -> int {
    if address == target {
        amount
    } else {
        0
    }
}

/// Between `before` and `after` only balances changed, and only at accounts
/// other than `closed`, which is gone: no other account appeared or
/// disappeared, changed owner or changed asset kind.
pub open spec fn same_accounts_but(
    before: Map<Address, TokenAccount>,
    after: Map<Address, TokenAccount>,
    closed: Address,
) -> bool {
    &&& !after.contains_key(closed)
    &&& forall|x: Address|
        x != closed ==> (#[trigger] after.contains_key(x) <==> before.contains_key(x))
    &&& forall|x: Address| #[trigger]
        after.contains_key(x) ==> after[x].mint == before[x].mint && after[x].owner
            == before[x].owner
}

/// Records are written once: whatever step the machine takes, a record that
/// is there before and after holds the same terms, the requested amount among
/// them. Only an initialization adds a record, and it adds the one it was
/// asked for; a settlement or a cancellation removes its own record and no
/// other; opening an account touches none.
pub proof fn law_records_are_immutable(
    s: LedgerState,
    initialize: InitializeEscrow,
    receive_amount: u64,
    settle: Exchange,
    cancel: Cancel,
    address: Address,
    account: TokenAccount,
)
    ensures
        s.initialize_step(initialize, receive_amount) matches Ok(next) ==> {
            &&& !s.escrows.contains_key(initialize.escrow_account)
            &&& next.escrows == s.escrows.insert(
                initialize.escrow_account,
                initialize.record(receive_amount),
            )
        },
        s.exchange_step(settle) matches Ok(next) ==> {
            &&& s.escrows.contains_key(settle.escrow_account)
            &&& next.escrows == s.escrows.remove(settle.escrow_account)
        },
        s.cancel_step(cancel) matches Ok(next) ==> {
            &&& s.escrows.contains_key(cancel.escrow_account)
            &&& next.escrows == s.escrows.remove(cancel.escrow_account)
        },
        s.open_account_step(address, account) matches Ok(next) ==> next.escrows == s.escrows,
{
}

/// Custody exclusivity: after every successful initialization the custody
/// account is the one derived for the trade, it holds the one unit of the
/// offered asset, and its owner is the derived custody authority, never the
/// initializer.
pub proof fn law_custody_exclusivity(s: LedgerState, ctx: InitializeEscrow, receive_amount: u64)
    ensures
        s.initialize_step(ctx, receive_amount) matches Ok(next) ==> {
            &&& next.escrow(ctx.escrow_account) == Some(ctx.record(receive_amount))
            &&& next.custody(ctx.record(receive_amount)) is Some
            &&& next.custody_address(ctx.record(receive_amount)) == ctx.vault_account
            &&& next.authority() is Some
            &&& next.token(ctx.vault_account) == Some(
                TokenAccount {
                    mint: ctx.initializer_nft_mint,
                    owner: next.authority_address(),
                    amount: 1,
                },
            )
            &&& next.authority_address() != ctx.initializer
        },
{
}

/// When an initialization succeeds, and what it does: it succeeds exactly
/// when the rules hold, no account exists at the custody address, the deposit
/// account holds a unit and no record exists at the record's address. Then
/// one unit has moved from the deposit account into the new custody account,
/// the record is written with the requested amount as given, and nothing else
/// has changed.
pub proof fn law_initialize_effect(s: LedgerState, ctx: InitializeEscrow, receive_amount: u64)
    ensures
        s.initialize_step(ctx, receive_amount) is Ok <==> {
            &&& ctx.accepts(
                s.held_initialize(ctx),
                s.custody(ctx.record(receive_amount)),
                s.authority(),
            )
            &&& !s.tokens.contains_key(ctx.vault_account)
            &&& s.tokens[ctx.initializer_deposit_token_account].amount >= 1
            &&& !s.escrows.contains_key(ctx.escrow_account)
        },
        s.initialize_step(ctx, receive_amount) matches Ok(next) ==> {
            &&& next.program_id == s.program_id
            &&& next.escrows == s.escrows.insert(ctx.escrow_account, ctx.record(receive_amount))
            &&& next.escrows[ctx.escrow_account].initializer_receive_amount == receive_amount
            &&& next.tokens == s.tokens.insert(
                ctx.initializer_deposit_token_account,
                TokenAccount {
                    amount: (s.tokens[ctx.initializer_deposit_token_account].amount - 1) as u64,
                    ..s.tokens[ctx.initializer_deposit_token_account]
                },
            ).insert(
                ctx.vault_account,
                TokenAccount {
                    mint: ctx.initializer_nft_mint,
                    owner: s.authority_address(),
                    amount: 1,
                },
            )
        },
{
    if let Ok(next) = s.initialize_step(ctx, receive_amount) {
        assert(next.tokens =~= s.tokens.insert(
            ctx.initializer_deposit_token_account,
            TokenAccount {
                amount: (s.tokens[ctx.initializer_deposit_token_account].amount - 1) as u64,
                ..s.tokens[ctx.initializer_deposit_token_account]
            },
        ).insert(
            ctx.vault_account,
            TokenAccount {
                mint: ctx.initializer_nft_mint,
                owner: s.authority_address(),
                amount: 1,
            },
        ));
    }
}

/// Exactly-once resolution, after a settlement: once a trade is settled, a
/// cancellation and a second settlement of the same record both fail, the
/// record being gone.
pub proof fn law_settled_is_final(s: LedgerState, settle: Exchange, cancel: Cancel, again: Exchange)
    requires
        cancel.escrow_account == settle.escrow_account,
        again.escrow_account == settle.escrow_account,
    ensures
        s.exchange_step(settle) matches Ok(next) ==> {
            &&& next.escrow(settle.escrow_account) is None
            &&& next.cancel_step(cancel) == Err::<LedgerState, EscrowError>(
                EscrowError::Validation(ValidationError::RecordNotFound),
            )
            &&& next.exchange_step(again) == Err::<LedgerState, EscrowError>(
                EscrowError::Validation(ValidationError::RecordNotFound),
            )
        },
{
}

/// Exactly-once resolution, after a cancellation: once a trade is cancelled,
/// a settlement and a second cancellation of the same record both fail, the
/// record being gone.
pub proof fn law_cancelled_is_final(s: LedgerState, cancel: Cancel, settle: Exchange, again: Cancel)
    requires
        settle.escrow_account == cancel.escrow_account,
        again.escrow_account == cancel.escrow_account,
    ensures
        s.cancel_step(cancel) matches Ok(next) ==> {
            &&& next.escrow(cancel.escrow_account) is None
            &&& next.exchange_step(settle) == Err::<LedgerState, EscrowError>(
                EscrowError::Validation(ValidationError::RecordNotFound),
            )
            &&& next.cancel_step(again) == Err::<LedgerState, EscrowError>(
                EscrowError::Validation(ValidationError::RecordNotFound),
            )
        },
{
}

/// Resolution needs a record: where no record is stored at the address
/// given, settlement and cancellation both fail.
pub proof fn law_no_record_no_resolution(s: LedgerState, settle: Exchange, cancel: Cancel)
    ensures
        !s.escrows.contains_key(settle.escrow_account) ==> s.exchange_step(settle) == Err::<
            LedgerState,
            EscrowError,
        >(EscrowError::Validation(ValidationError::RecordNotFound)),
        !s.escrows.contains_key(cancel.escrow_account) ==> s.cancel_step(cancel) == Err::<
            LedgerState,
            EscrowError,
        >(EscrowError::Validation(ValidationError::RecordNotFound)),
{
}

/// Atomic swap: in a settlement that succeeds, payment and release are both
/// made. Exactly the requested amount has left the taker's offering account
/// and reached the initializer's receiving account, exactly one unit has
/// left custody and reached the taker's receiving account, the custody
/// account is closed and the record destroyed; nothing else has changed. (A
/// settlement that fails has no next state: the ledger stays as it was.)
pub proof fn law_atomic_swap(s: LedgerState, ctx: Exchange)
    requires
        s.wf(),
    ensures
        s.exchange_step(ctx) matches Ok(next) ==> {
            let amount = s.escrows[ctx.escrow_account].initializer_receive_amount as int;
            &&& next.program_id == s.program_id
            &&& next.escrows == s.escrows.remove(ctx.escrow_account)
            &&& s.token(ctx.vault_account) == Some(
                TokenAccount {
                    mint: s.escrows[ctx.escrow_account].initializer_nft_mint,
                    owner: s.authority_address(),
                    amount: 1,
                },
            )
            &&& same_accounts_but(s.tokens, next.tokens, ctx.vault_account)
            &&& forall|x: Address| #[trigger]
                next.tokens.contains_key(x) ==> balance(next.tokens, x) == balance(s.tokens, x)
                    - at(x, ctx.taker_deposit_token_account, amount) + at(
                    x,
                    ctx.initializer_receive_token_account,
                    amount,
                ) + at(x, ctx.taker_receive_token_account, 1)
        },
{
    if let Ok(next) = s.exchange_step(ctx) {
        assert(s.backed(s.escrows[ctx.escrow_account]));
    }
}

/// When a settlement is owed: on a ledger where every trade is backed, a
/// settlement succeeds exactly when the rules hold (the taker's offering
/// account holding at least the requested amount is one of them) and each
/// receiving account can hold what it is to receive.
pub proof fn law_exchange_succeeds(s: LedgerState, ctx: Exchange)
    requires
        s.wf(),
    ensures
        s.exchange_step(ctx) is Ok <==> {
            let held = s.held_exchange(ctx);
            let amount = s.escrows[ctx.escrow_account].initializer_receive_amount as int;
            &&& ctx.accepts(held, s.custody_of(held.escrow_account), s.authority())
            &&& balance(s.tokens, ctx.initializer_receive_token_account) - at(
                ctx.initializer_receive_token_account,
                ctx.taker_deposit_token_account,
                amount,
            ) + amount <= u64::MAX
            &&& balance(s.tokens, ctx.taker_receive_token_account) - at(
                ctx.taker_receive_token_account,
                ctx.taker_deposit_token_account,
                amount,
            ) + at(ctx.taker_receive_token_account, ctx.initializer_receive_token_account, amount)
                + 1 <= u64::MAX
        },
{
    let held = s.held_exchange(ctx);
    if ctx.accepts(held, s.custody_of(held.escrow_account), s.authority()) {
        assert(s.backed(s.escrows[ctx.escrow_account]));
    }
}

/// Amount enforcement: a settlement whose taker offers less than the
/// requested amount fails on a rule, and a settlement is refused for the
/// amount only where the taker offers less. One that succeeds has taken
/// exactly the requested amount from the offering account, whatever more it
/// holds.
pub proof fn law_amount_enforcement(s: LedgerState, ctx: Exchange)
    requires
        s.wf(),
    ensures
        s.escrows.contains_key(ctx.escrow_account) && balance(
            s.tokens,
            ctx.taker_deposit_token_account,
        ) < s.escrows[ctx.escrow_account].initializer_receive_amount ==> s.exchange_step(ctx) matches Err(
            EscrowError::Validation(_),
        ),
        s.exchange_step(ctx) == Err::<LedgerState, EscrowError>(
            EscrowError::Validation(ValidationError::InsufficientAmount),
        ) ==> s.escrows.contains_key(ctx.escrow_account) && balance(
            s.tokens,
            ctx.taker_deposit_token_account,
        ) < s.escrows[ctx.escrow_account].initializer_receive_amount,
        s.exchange_step(ctx) matches Ok(next) ==> {
            let amount = s.escrows[ctx.escrow_account].initializer_receive_amount as int;
            &&& balance(s.tokens, ctx.taker_deposit_token_account) >= amount
            &&& balance(next.tokens, ctx.taker_deposit_token_account) == balance(
                s.tokens,
                ctx.taker_deposit_token_account,
            ) - amount + at(
                ctx.taker_deposit_token_account,
                ctx.initializer_receive_token_account,
                amount,
            ) + at(ctx.taker_deposit_token_account, ctx.taker_receive_token_account, 1)
        },
{
    law_atomic_swap(s, ctx);
}

/// Cancellation authorization: a cancellation by anyone but the initializer
/// on record fails on that rule. (A cancellation that fails has no next
/// state: record and custody account stay as they were.)
pub proof fn law_cancellation_authorization(s: LedgerState, ctx: Cancel)
    requires
        s.escrows.contains_key(ctx.escrow_account),
        s.escrows[ctx.escrow_account].initializer_key != ctx.initializer,
    ensures
        s.cancel_step(ctx) == Err::<LedgerState, EscrowError>(
            EscrowError::Validation(ValidationError::InitializerMismatch),
        ),
{
}

/// What a cancellation does: the one unit in custody is back in the account
/// that it was deposited from, the custody account is closed and the record
/// destroyed; nothing else has changed.
pub proof fn law_cancel_effect(s: LedgerState, ctx: Cancel)
    requires
        s.wf(),
    ensures
        s.cancel_step(ctx) matches Ok(next) ==> {
            &&& ctx.initializer == s.escrows[ctx.escrow_account].initializer_key
            &&& ctx.initializer_deposit_token_account
                == s.escrows[ctx.escrow_account].initializer_deposit_token_account
            &&& next.program_id == s.program_id
            &&& next.escrows == s.escrows.remove(ctx.escrow_account)
            &&& same_accounts_but(s.tokens, next.tokens, ctx.vault_account)
            &&& forall|x: Address| #[trigger]
                next.tokens.contains_key(x) ==> balance(next.tokens, x) == balance(s.tokens, x)
                    + at(x, ctx.initializer_deposit_token_account, 1)
        },
{
    if let Ok(next) = s.cancel_step(ctx) {
        assert(s.backed(s.escrows[ctx.escrow_account]));
    }
}

/// When a cancellation is owed: on a ledger where every trade is backed, a
/// cancellation succeeds exactly when the rules hold and the account of the
/// deposit holds the offered asset kind and can hold one unit more. The
/// rules ask nothing of anybody but the initializer on record: nobody else
/// has a say in it.
pub proof fn law_cancel_succeeds(s: LedgerState, ctx: Cancel)
    requires
        s.wf(),
    ensures
        s.cancel_step(ctx) is Ok <==> {
            let held = s.held_cancel(ctx);
            &&& ctx.accepts(held, s.custody_of(held.escrow_account), s.authority())
            &&& s.tokens[ctx.initializer_deposit_token_account].mint
                == s.escrows[ctx.escrow_account].initializer_nft_mint
            &&& s.tokens[ctx.initializer_deposit_token_account].amount < u64::MAX
        },
{
    let held = s.held_cancel(ctx);
    if ctx.accepts(held, s.custody_of(held.escrow_account), s.authority()) {
        assert(s.backed(s.escrows[ctx.escrow_account]));
    }
}

/// The failures of the asset ledger that no operation on a backed ledger
/// meets once the rules hold: custody is never short, never in the wrong
/// hands, and never fails to close.
pub proof fn law_custody_never_fails(s: LedgerState, settle: Exchange, cancel: Cancel)
    requires
        s.wf(),
    ensures
        s.exchange_step(settle) matches Err(EscrowError::Substrate(e)) ==> e
            == SubstrateError::Overflow,
        s.cancel_step(cancel) matches Err(EscrowError::Substrate(e)) ==> e
            == SubstrateError::Overflow || e == SubstrateError::MintMismatch,
{
    if s.escrows.contains_key(settle.escrow_account) {
        assert(s.backed(s.escrows[settle.escrow_account]));
    }
    if s.escrows.contains_key(cancel.escrow_account) {
        assert(s.backed(s.escrows[cancel.escrow_account]));
    }
}

} // verus!
