//! The asset ledger: accounts that hold units of one asset kind each, and the
//! primitives that create them, move assets between them, hand them to
//! another owner and close them.
//!
//! Every primitive either takes effect as a whole or leaves the ledger as it
//! was. The authority named in an instruction is taken as authenticated.
use vstd::prelude::*;
use crate::address::Address;
use crate::error::SubstrateError;
use crate::table::AddressMap;

verus! {

/// An account that holds `amount` units of the asset kind `mint` for `owner`.
#[derive(Clone, Copy, Debug, PartialEq, Eq)]
pub struct TokenAccount {
    pub mint: Address,
    pub owner: Address,
    pub amount: u64,
}

/// Moves assets from `from` to `to`, on the word of `authority`.
#[derive(Clone, Copy, Debug, PartialEq, Eq)]
pub struct Transfer {
    pub from: Address,
    pub to: Address,
    pub authority: Address,
}

/// Reassigns the owner of `account_or_mint`, on the word of its current owner.
#[derive(Clone, Copy, Debug, PartialEq, Eq)]
pub struct SetAuthority {
    pub account_or_mint: Address,
    pub current_authority: Address,
}

/// Closes `account`, on the word of `authority`; what backed the account goes
/// to `destination`.
#[derive(Clone, Copy, Debug, PartialEq, Eq)]
pub struct CloseAccount {
    pub account: Address,
    pub destination: Address,
    pub authority: Address,
}

/// The accounts of an asset ledger, by address.
pub type TokenState = Map<Address, TokenAccount>;

/// Opening an account at `address`: refused where one exists.
pub open spec fn open_account_step(tokens: TokenState, address: Address, account: TokenAccount) -> Result<
    TokenState,
    SubstrateError,
> {
    if tokens.contains_key(address) {
        Err(SubstrateError::AccountAlreadyExists)
    } else {
        Ok(tokens.insert(address, account))
    }
}

/// Reassigning the owner of an account to `new_authority`.
pub open spec fn set_authority_step(tokens: TokenState, ix: SetAuthority, new_authority: Address) -> Result<
    TokenState,
    SubstrateError,
> {
    if !tokens.contains_key(ix.account_or_mint) {
        Err(SubstrateError::AccountNotFound)
    } else if tokens[ix.account_or_mint].owner != ix.current_authority {
        Err(SubstrateError::OwnerMismatch)
    } else {
        Ok(
            tokens.insert(
                ix.account_or_mint,
                TokenAccount { owner: new_authority, ..tokens[ix.account_or_mint] },
            ),
        )
    }
}

/// Moving `amount` units from one account to another. A transfer from an
/// account to itself changes nothing.
pub open spec fn transfer_step(tokens: TokenState, ix: Transfer, amount: u64) -> Result<
    TokenState,
    SubstrateError,
> {
    if !tokens.contains_key(ix.from) || !tokens.contains_key(ix.to) {
        Err(SubstrateError::AccountNotFound)
    } else if tokens[ix.from].amount < amount {
        Err(SubstrateError::InsufficientFunds)
    } else if tokens[ix.from].mint != tokens[ix.to].mint {
        Err(SubstrateError::MintMismatch)
    } else if tokens[ix.from].owner != ix.authority {
        Err(SubstrateError::OwnerMismatch)
    } else if ix.from == ix.to {
        Ok(tokens)
    } else if tokens[ix.to].amount + amount > u64::MAX {
        Err(SubstrateError::Overflow)
    } else {
        Ok(
            tokens.insert(
                ix.from,
                TokenAccount { amount: (tokens[ix.from].amount - amount) as u64, ..tokens[ix.from] },
            ).insert(
                ix.to,
                TokenAccount { amount: (tokens[ix.to].amount + amount) as u64, ..tokens[ix.to] },
            ),
        )
    }
}

/// Closing an empty account.
pub open spec fn close_account_step(tokens: TokenState, ix: CloseAccount) -> Result<
    TokenState,
    SubstrateError,
> {
    if !tokens.contains_key(ix.account) {
        Err(SubstrateError::AccountNotFound)
    } else if tokens[ix.account].owner != ix.authority {
        Err(SubstrateError::OwnerMismatch)
    } else if tokens[ix.account].amount != 0 {
        Err(SubstrateError::NonEmptyAccount)
    } else {
        Ok(tokens.remove(ix.account))
    }
}

/// What a primitive owes: on success the ledger is the next state, on failure
/// it is unchanged and the error is the one that the step names.
pub open spec fn applied(
    step: Result<TokenState, SubstrateError>,
    before: TokenState,
    after: TokenState,
    outcome: Result<(), SubstrateError>,
) -> bool {
    match step {
        Ok(next) => outcome is Ok && after == next,
        Err(e) => outcome == Err::<(), SubstrateError>(e) && after == before,
    }
}

/// An asset ledger held in memory.
pub struct TokenLedger {
    accounts: AddressMap<TokenAccount>,
}

impl TokenLedger {
    /// The accounts, by address.
    pub closed spec fn view(&self) -> TokenState {
        self.accounts@
    }

    /// A ledger without accounts.
    pub fn new() -> (ledger: TokenLedger)
        ensures
            ledger@ == Map::<Address, TokenAccount>::empty(),
    {
        TokenLedger { accounts: AddressMap::new() }
    }

    /// A ledger with the same accounts.
    pub fn duplicate(&self) -> (copy: TokenLedger)
        ensures
            copy@ == self@,
    {
        TokenLedger { accounts: self.accounts.duplicate() }
    }

    /// The account at `address`, if there is one.
    pub fn account(&self, address: &Address) -> (account: Option<TokenAccount>)
        ensures
            account == (if self@.contains_key(*address) {
                Some(self@[*address])
            } else {
                None
            }),
    {
        self.accounts.get(address)
    }

    /// Opens an account at `address` that holds `amount` units of `mint` for
    /// `owner`.
    pub fn open_account(&mut self, address: Address, mint: Address, owner: Address, amount: u64) -> (outcome:
        Result<(), SubstrateError>)
        ensures
            applied(
                open_account_step(old(self)@, address, (TokenAccount { mint, owner, amount })),
                old(self)@,
                final(self)@,
                outcome,
            ),
    {
        if self.accounts.get(&address).is_some() {
            return Err(SubstrateError::AccountAlreadyExists);
        }
        self.accounts.insert(address, TokenAccount { mint, owner, amount });
        Ok(())
    }

    /// Hands the account that `ix` names to `new_authority`.
    pub fn set_authority(&mut self, ix: &SetAuthority, new_authority: Address) -> (outcome: Result<
        (),
        SubstrateError,
    >)
        ensures
            applied(set_authority_step(old(self)@, *ix, new_authority), old(self)@, final(self)@, outcome),
    {
        let account = match self.accounts.get(&ix.account_or_mint) {
            Some(account) => account,
            None => {
                return Err(SubstrateError::AccountNotFound);
            },
        };
        if account.owner != ix.current_authority {
            return Err(SubstrateError::OwnerMismatch);
        }
        self.accounts.insert(
            ix.account_or_mint,
            TokenAccount { mint: account.mint, owner: new_authority, amount: account.amount },
        );
        Ok(())
    }

    /// Moves `amount` units as `ix` says.
    pub fn transfer(&mut self, ix: &Transfer, amount: u64) -> (outcome: Result<(), SubstrateError>)
        ensures
            applied(transfer_step(old(self)@, *ix, amount), old(self)@, final(self)@, outcome),
    {
        let from = match self.accounts.get(&ix.from) {
            Some(account) => account,
            None => {
                return Err(SubstrateError::AccountNotFound);
            },
        };
        let to = match self.accounts.get(&ix.to) {
            Some(account) => account,
            None => {
                return Err(SubstrateError::AccountNotFound);
            },
        };
        if from.amount < amount {
            return Err(SubstrateError::InsufficientFunds);
        }
        if from.mint != to.mint {
            return Err(SubstrateError::MintMismatch);
        }
        if from.owner != ix.authority {
            return Err(SubstrateError::OwnerMismatch);
        }
        if ix.from == ix.to {
            return Ok(());
        }
        if to.amount > u64::MAX - amount {
            return Err(SubstrateError::Overflow);
        }
        self.accounts.insert(
            ix.from,
            TokenAccount { mint: from.mint, owner: from.owner, amount: from.amount - amount },
        );
        self.accounts.insert(
            ix.to,
            TokenAccount { mint: to.mint, owner: to.owner, amount: to.amount + amount },
        );
        Ok(())
    }

    /// Closes the account that `ix` names.
    pub fn close_account(&mut self, ix: &CloseAccount) -> (outcome: Result<(), SubstrateError>)
        ensures
            applied(close_account_step(old(self)@, *ix), old(self)@, final(self)@, outcome),
    {
        let account = match self.accounts.get(&ix.account) {
            Some(account) => account,
            None => {
                return Err(SubstrateError::AccountNotFound);
            },
        };
        if account.owner != ix.authority {
            return Err(SubstrateError::OwnerMismatch);
        }
        if account.amount != 0 {
            return Err(SubstrateError::NonEmptyAccount);
        }
        self.accounts.remove(&ix.account);
        Ok(())
    }
}

} // verus!
