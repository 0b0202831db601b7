//! The escrow record, the accounts that each operation is given, and the
//! rules that those accounts must meet before anything is moved.
//!
//! Every check of an operation is made here, on plain values, before the
//! ledger is touched. The derived addresses are arguments: the caller derives
//! them, and the rules compare what was supplied with what was derived.
use vstd::prelude::*;
use crate::address::Address;
use crate::error::{AuthorityError, EscrowError, ValidationError};
use crate::token::{CloseAccount, SetAuthority, TokenAccount, Transfer};

verus! {

/// The terms of one active trade.
///
/// A record is written once, by initialization, and never changed; settlement
/// or cancellation destroys it.
#[derive(Clone, Copy, Debug, PartialEq, Eq)]
pub struct EscrowAccount {
    /// The party that created the escrow.
    pub initializer_key: Address,
    /// The asset kind placed in custody.
    pub initializer_nft_mint: Address,
    /// The account from which the asset was deposited, and to which a
    /// cancellation returns it.
    pub initializer_deposit_token_account: Address,
    /// The asset kind that the initializer wants in return.
    pub initializer_receive_mint: Address,
    /// How much of it settles the trade.
    pub initializer_receive_amount: u64,
    /// The account into which the taker's payment is delivered.
    pub initializer_receive_token_account: Address,
}

/// The accounts of an initialization.
#[derive(Clone, Copy, Debug, PartialEq, Eq)]
pub struct InitializeEscrow {
    /// The custody account to create.
    pub vault_account: Address,
    /// Where the record is to be written.
    pub escrow_account: Address,
    /// The acting party.
    pub initializer: Address,
    /// The asset kind offered.
    pub initializer_nft_mint: Address,
    /// The account that holds the offered asset.
    pub initializer_deposit_token_account: Address,
    /// The asset kind requested.
    pub initializer_receive_mint: Address,
    /// The account that is to receive the payment.
    pub initializer_receive_token_account: Address,
}

/// The accounts of a cancellation.
#[derive(Clone, Copy, Debug, PartialEq, Eq)]
pub struct Cancel {
    /// The custody account of the trade.
    pub vault_account: Address,
    /// The record of the trade.
    pub escrow_account: Address,
    /// The account to which the asset returns.
    pub initializer_deposit_token_account: Address,
    /// The custody authority.
    pub vault_authority: Address,
    /// The acting party.
    pub initializer: Address,
}

/// The accounts of a settlement.
#[derive(Clone, Copy, Debug, PartialEq, Eq)]
pub struct Exchange {
    /// The record of the trade.
    pub escrow_account: Address,
    /// The custody account of the trade.
    pub vault_account: Address,
    /// The custody authority.
    pub vault_authority: Address,
    /// The party that created the escrow.
    pub initializer: Address,
    /// The acting party.
    pub taker: Address,
    /// The account from which the asset was deposited.
    pub initializer_deposit_token_account: Address,
    /// The account that receives the taker's payment.
    pub initializer_receive_token_account: Address,
    /// The account from which the taker pays.
    pub taker_deposit_token_account: Address,
    /// The account that receives the asset released from custody.
    pub taker_receive_token_account: Address,
}

/// What the ledger holds at the accounts of an initialization.
#[derive(Clone, Copy, Debug, PartialEq, Eq)]
pub struct InitializeEscrowAccounts {
    pub initializer_deposit_token_account: Option<TokenAccount>,
    pub initializer_receive_token_account: Option<TokenAccount>,
}

/// What the ledger holds at the accounts of a cancellation.
#[derive(Clone, Copy, Debug, PartialEq, Eq)]
pub struct CancelAccounts {
    pub escrow_account: Option<EscrowAccount>,
    pub vault_account: Option<TokenAccount>,
    pub initializer_deposit_token_account: Option<TokenAccount>,
}

/// What the ledger holds at the accounts of a settlement.
#[derive(Clone, Copy, Debug, PartialEq, Eq)]
pub struct ExchangeAccounts {
    pub escrow_account: Option<EscrowAccount>,
    pub vault_account: Option<TokenAccount>,
    pub initializer_deposit_token_account: Option<TokenAccount>,
    pub initializer_receive_token_account: Option<TokenAccount>,
    pub taker_deposit_token_account: Option<TokenAccount>,
    pub taker_receive_token_account: Option<TokenAccount>,
}

impl InitializeEscrow {
    /// The record that an initialization with these accounts writes.
    pub open spec fn record(self, receive_amount: u64) -> EscrowAccount {
        EscrowAccount {
            initializer_key: self.initializer,
            initializer_nft_mint: self.initializer_nft_mint,
            initializer_deposit_token_account: self.initializer_deposit_token_account,
            initializer_receive_mint: self.initializer_receive_mint,
            initializer_receive_amount: receive_amount,
            initializer_receive_token_account: self.initializer_receive_token_account,
        }
    }

    /// The deposit: from the initializer's account into custody.
    pub open spec fn transfer_nft(self) -> Transfer {
        Transfer {
            from: self.initializer_deposit_token_account,
            to: self.vault_account,
            authority: self.initializer,
        }
    }

    /// The hand-over of the custody account by the initializer.
    pub open spec fn set_authority(self) -> SetAuthority {
        SetAuthority { account_or_mint: self.vault_account, current_authority: self.initializer }
    }

    /// The rules of an initialization: the account of the deposit holds the
    /// offered asset kind for the initializer, the receiving account holds
    /// the requested asset kind for the initializer, the custody account is
    /// the derived one, and the initializer is not the custody authority.
    pub open spec fn accepts(
        self,
        held: InitializeEscrowAccounts,
        vault: Option<(Address, u8)>,
        authority: Option<(Address, u8)>,
    ) -> bool {
        &&& held.initializer_deposit_token_account matches Some(deposit) && deposit.mint
            == self.initializer_nft_mint && deposit.owner == self.initializer
        &&& held.initializer_receive_token_account matches Some(receive) && receive.mint
            == self.initializer_receive_mint && receive.owner == self.initializer
        &&& vault matches Some((address, _)) && address == self.vault_account
        &&& authority matches Some((address, _)) && address != self.initializer
    }

    /// The first rule that an initialization breaks, if it breaks one.
    ///
    /// `vault` and `authority` are the derived custody account and custody
    /// authority, each `None` where the derivation found no address.
    pub open spec fn validation(
        self,
        held: InitializeEscrowAccounts,
        vault: Option<(Address, u8)>,
        authority: Option<(Address, u8)>,
    ) -> Result<(), EscrowError> {
        let deposit = held.initializer_deposit_token_account;
        let receive = held.initializer_receive_token_account;
        if deposit is None {
            Err(EscrowError::Validation(ValidationError::AccountNotFound))
        } else if deposit->0.mint != self.initializer_nft_mint {
            Err(EscrowError::Validation(ValidationError::MintMismatch))
        } else if deposit->0.owner != self.initializer {
            Err(EscrowError::Validation(ValidationError::OwnerMismatch))
        } else if receive is None {
            Err(EscrowError::Validation(ValidationError::AccountNotFound))
        } else if receive->0.mint != self.initializer_receive_mint {
            Err(EscrowError::Validation(ValidationError::MintMismatch))
        } else if receive->0.owner != self.initializer {
            Err(EscrowError::Validation(ValidationError::OwnerMismatch))
        } else if vault is None {
            Err(EscrowError::Authority(AuthorityError::Underivable))
        } else if vault.unwrap().0 != self.vault_account {
            Err(EscrowError::Validation(ValidationError::AccountMismatch))
        } else if authority is None {
            Err(EscrowError::Authority(AuthorityError::Underivable))
        } else if authority.unwrap().0 == self.initializer {
            Err(EscrowError::Authority(AuthorityError::Impersonation))
        } else {
            Ok(())
        }
    }

    /// The record that an initialization with these accounts writes.
    pub fn new_record(&self, receive_amount: u64) -> (record: EscrowAccount)
        ensures
            record == self.record(receive_amount),
    {
        EscrowAccount {
            initializer_key: self.initializer,
            initializer_nft_mint: self.initializer_nft_mint,
            initializer_deposit_token_account: self.initializer_deposit_token_account,
            initializer_receive_mint: self.initializer_receive_mint,
            initializer_receive_amount: receive_amount,
            initializer_receive_token_account: self.initializer_receive_token_account,
        }
    }

    /// The instruction that deposits the asset into custody.
    pub fn transfer_nft_context(&self) -> (ix: Transfer)
        ensures
            ix == self.transfer_nft(),
    {
        Transfer {
            from: self.initializer_deposit_token_account,
            to: self.vault_account,
            authority: self.initializer,
        }
    }

    /// The instruction by which the initializer gives up the custody account.
    pub fn set_authority_context(&self) -> (ix: SetAuthority)
        ensures
            ix == self.set_authority(),
    {
        SetAuthority { account_or_mint: self.vault_account, current_authority: self.initializer }
    }

    /// Checks the accounts of an initialization against the rules.
    pub fn validate(
        &self,
        held: &InitializeEscrowAccounts,
        vault: Option<(Address, u8)>,
        authority: Option<(Address, u8)>,
    ) -> (outcome: Result<(), EscrowError>)
        ensures
            outcome == self.validation(*held, vault, authority),
            outcome is Ok <==> self.accepts(*held, vault, authority),
    {
        let deposit = match held.initializer_deposit_token_account {
            Some(account) => account,
            None => {
                return Err(EscrowError::Validation(ValidationError::AccountNotFound));
            },
        };
        if deposit.mint != self.initializer_nft_mint {
            return Err(EscrowError::Validation(ValidationError::MintMismatch));
        }
        if deposit.owner != self.initializer {
            return Err(EscrowError::Validation(ValidationError::OwnerMismatch));
        }
        let receive = match held.initializer_receive_token_account {
            Some(account) => account,
            None => {
                return Err(EscrowError::Validation(ValidationError::AccountNotFound));
            },
        };
        if receive.mint != self.initializer_receive_mint {
            return Err(EscrowError::Validation(ValidationError::MintMismatch));
        }
        if receive.owner != self.initializer {
            return Err(EscrowError::Validation(ValidationError::OwnerMismatch));
        }
        let vault_address = match vault {
            Some((address, _)) => address,
            None => {
                return Err(EscrowError::Authority(AuthorityError::Underivable));
            },
        };
        if vault_address != self.vault_account {
            return Err(EscrowError::Validation(ValidationError::AccountMismatch));
        }
        let vault_authority = match authority {
            Some((address, _)) => address,
            None => {
                return Err(EscrowError::Authority(AuthorityError::Underivable));
            },
        };
        if vault_authority == self.initializer {
            return Err(EscrowError::Authority(AuthorityError::Impersonation));
        }
        Ok(())
    }
}

impl Cancel {
    /// The return of the asset: from custody to the initializer's account.
    pub open spec fn transfer_nft_back(self) -> Transfer {
        Transfer {
            from: self.vault_account,
            to: self.initializer_deposit_token_account,
            authority: self.vault_authority,
        }
    }

    /// The closing of the custody account in favour of the initializer.
    pub open spec fn close_account(self) -> CloseAccount {
        CloseAccount {
            account: self.vault_account,
            destination: self.initializer,
            authority: self.vault_authority,
        }
    }

    /// The rules of a cancellation: the record exists and names the acting
    /// party as its initializer and the supplied account as the account of
    /// the deposit, that account is the initializer's, and custody is in
    /// order.
    pub open spec fn accepts(
        self,
        held: CancelAccounts,
        vault: Option<(Address, u8)>,
        authority: Option<(Address, u8)>,
    ) -> bool {
        &&& held.escrow_account matches Some(record) && record.initializer_key == self.initializer
            && record.initializer_deposit_token_account == self.initializer_deposit_token_account
        &&& held.initializer_deposit_token_account matches Some(deposit) && deposit.owner
            == self.initializer
        &&& custody_accepts(
            self.vault_account,
            self.vault_authority,
            held.vault_account,
            vault,
            authority,
        )
    }

    /// The first rule that a cancellation breaks, if it breaks one.
    ///
    /// `vault` and `authority` are the derived custody account and custody
    /// authority, each `None` where the derivation found no address.
    pub open spec fn validation(
        self,
        held: CancelAccounts,
        vault: Option<(Address, u8)>,
        authority: Option<(Address, u8)>,
    ) -> Result<(), EscrowError> {
        let escrow = held.escrow_account;
        let deposit = held.initializer_deposit_token_account;
        if escrow is None {
            Err(EscrowError::Validation(ValidationError::RecordNotFound))
        } else if escrow->0.initializer_key != self.initializer {
            Err(EscrowError::Validation(ValidationError::InitializerMismatch))
        } else if escrow->0.initializer_deposit_token_account
            != self.initializer_deposit_token_account {
            Err(EscrowError::Validation(ValidationError::AccountMismatch))
        } else if deposit is None {
            Err(EscrowError::Validation(ValidationError::AccountNotFound))
        } else if deposit->0.owner != self.initializer {
            Err(EscrowError::Validation(ValidationError::OwnerMismatch))
        } else {
            custody_validation(
                self.vault_account,
                self.vault_authority,
                held.vault_account,
                vault,
                authority,
            )
        }
    }

    /// The instruction that returns the asset to the initializer.
    pub fn transfer_nft_back_context(&self) -> (ix: Transfer)
        ensures
            ix == self.transfer_nft_back(),
    {
        Transfer {
            from: self.vault_account,
            to: self.initializer_deposit_token_account,
            authority: self.vault_authority,
        }
    }

    /// The instruction that closes the custody account.
    pub fn close_account_context(&self) -> (ix: CloseAccount)
        ensures
            ix == self.close_account(),
    {
        CloseAccount {
            account: self.vault_account,
            destination: self.initializer,
            authority: self.vault_authority,
        }
    }

    /// Checks the accounts of a cancellation against the rules.
    pub fn validate(
        &self,
        held: &CancelAccounts,
        vault: Option<(Address, u8)>,
        authority: Option<(Address, u8)>,
    ) -> (outcome: Result<(), EscrowError>)
        ensures
            outcome == self.validation(*held, vault, authority),
            outcome is Ok <==> self.accepts(*held, vault, authority),
    {
        let escrow = match held.escrow_account {
            Some(record) => record,
            None => {
                return Err(EscrowError::Validation(ValidationError::RecordNotFound));
            },
        };
        if escrow.initializer_key != self.initializer {
            return Err(EscrowError::Validation(ValidationError::InitializerMismatch));
        }
        if escrow.initializer_deposit_token_account != self.initializer_deposit_token_account {
            return Err(EscrowError::Validation(ValidationError::AccountMismatch));
        }
        let deposit = match held.initializer_deposit_token_account {
            Some(account) => account,
            None => {
                return Err(EscrowError::Validation(ValidationError::AccountNotFound));
            },
        };
        if deposit.owner != self.initializer {
            return Err(EscrowError::Validation(ValidationError::OwnerMismatch));
        }
        validate_custody(
            &self.vault_account,
            &self.vault_authority,
            held.vault_account,
            vault,
            authority,
        )
    }
}

impl Exchange {
    /// The payment: from the taker's account to the initializer's.
    pub open spec fn transfer_to_initializer(self) -> Transfer {
        Transfer {
            from: self.taker_deposit_token_account,
            to: self.initializer_receive_token_account,
            authority: self.taker,
        }
    }

    /// The release: from custody to the taker's account.
    pub open spec fn transfer_to_taker(self) -> Transfer {
        Transfer {
            from: self.vault_account,
            to: self.taker_receive_token_account,
            authority: self.vault_authority,
        }
    }

    /// The closing of the custody account in favour of the initializer.
    pub open spec fn close_account(self) -> CloseAccount {
        CloseAccount {
            account: self.vault_account,
            destination: self.initializer,
            authority: self.vault_authority,
        }
    }

    /// The rules of a settlement: the record exists and names the supplied
    /// initializer and the supplied accounts of the initializer, which are
    /// the initializer's; the receiving one holds the requested asset kind.
    /// The taker's offering account is the taker's and holds at least the
    /// requested amount of the requested asset kind. The taker's receiving
    /// account is the taker's and holds the offered asset kind. Custody is in
    /// order, and the taker is not the custody authority.
    pub open spec fn accepts(
        self,
        held: ExchangeAccounts,
        vault: Option<(Address, u8)>,
        authority: Option<(Address, u8)>,
    ) -> bool {
        &&& held.escrow_account matches Some(record) && {
            &&& record.initializer_key == self.initializer
            &&& record.initializer_deposit_token_account == self.initializer_deposit_token_account
            &&& record.initializer_receive_token_account == self.initializer_receive_token_account
            &&& held.initializer_receive_token_account matches Some(receive) && receive.owner
                == self.initializer && receive.mint == record.initializer_receive_mint
            &&& held.taker_deposit_token_account matches Some(offered) && offered.owner
                == self.taker && offered.mint == record.initializer_receive_mint && offered.amount
                >= record.initializer_receive_amount
            &&& held.taker_receive_token_account matches Some(wanted) && wanted.owner == self.taker
                && wanted.mint == record.initializer_nft_mint
        }
        &&& held.initializer_deposit_token_account matches Some(deposit) && deposit.owner
            == self.initializer
        &&& custody_accepts(
            self.vault_account,
            self.vault_authority,
            held.vault_account,
            vault,
            authority,
        )
        &&& self.taker != self.vault_authority
    }

    /// The first rule that a settlement breaks, if it breaks one.
    ///
    /// `vault` and `authority` are the derived custody account and custody
    /// authority, each `None` where the derivation found no address.
    pub open spec fn validation(
        self,
        held: ExchangeAccounts,
        vault: Option<(Address, u8)>,
        authority: Option<(Address, u8)>,
    ) -> Result<(), EscrowError> {
        let escrow = held.escrow_account;
        let deposit = held.initializer_deposit_token_account;
        let receive = held.initializer_receive_token_account;
        let offered = held.taker_deposit_token_account;
        let wanted = held.taker_receive_token_account;
        if escrow is None {
            Err(EscrowError::Validation(ValidationError::RecordNotFound))
        } else if escrow->0.initializer_key != self.initializer {
            Err(EscrowError::Validation(ValidationError::InitializerMismatch))
        } else if escrow->0.initializer_deposit_token_account
            != self.initializer_deposit_token_account {
            Err(EscrowError::Validation(ValidationError::AccountMismatch))
        } else if escrow->0.initializer_receive_token_account
            != self.initializer_receive_token_account {
            Err(EscrowError::Validation(ValidationError::AccountMismatch))
        } else if deposit is None {
            Err(EscrowError::Validation(ValidationError::AccountNotFound))
        } else if deposit->0.owner != self.initializer {
            Err(EscrowError::Validation(ValidationError::OwnerMismatch))
        } else if receive is None {
            Err(EscrowError::Validation(ValidationError::AccountNotFound))
        } else if receive->0.owner != self.initializer {
            Err(EscrowError::Validation(ValidationError::OwnerMismatch))
        } else if receive->0.mint != escrow->0.initializer_receive_mint {
            Err(EscrowError::Validation(ValidationError::MintMismatch))
        } else if offered is None {
            Err(EscrowError::Validation(ValidationError::AccountNotFound))
        } else if offered->0.owner != self.taker {
            Err(EscrowError::Validation(ValidationError::OwnerMismatch))
        } else if offered->0.mint != escrow->0.initializer_receive_mint {
            Err(EscrowError::Validation(ValidationError::MintMismatch))
        } else if offered->0.amount < escrow->0.initializer_receive_amount {
            Err(EscrowError::Validation(ValidationError::InsufficientAmount))
        } else if wanted is None {
            Err(EscrowError::Validation(ValidationError::AccountNotFound))
        } else if wanted->0.owner != self.taker {
            Err(EscrowError::Validation(ValidationError::OwnerMismatch))
        } else if wanted->0.mint != escrow->0.initializer_nft_mint {
            Err(EscrowError::Validation(ValidationError::MintMismatch))
        } else {
            match custody_validation(
                self.vault_account,
                self.vault_authority,
                held.vault_account,
                vault,
                authority,
            ) {
                Err(e) => Err(e),
                Ok(()) => if authority.unwrap().0 == self.taker {
                    Err(EscrowError::Authority(AuthorityError::Impersonation))
                } else {
                    Ok(())
                },
            }
        }
    }

    /// The instruction that pays the initializer.
    pub fn transfer_to_initializer_context(&self) -> (ix: Transfer)
        ensures
            ix == self.transfer_to_initializer(),
    {
        Transfer {
            from: self.taker_deposit_token_account,
            to: self.initializer_receive_token_account,
            authority: self.taker,
        }
    }

    /// The instruction that releases the asset to the taker.
    pub fn transfer_to_taker_context(&self) -> (ix: Transfer)
        ensures
            ix == self.transfer_to_taker(),
    {
        Transfer {
            from: self.vault_account,
            to: self.taker_receive_token_account,
            authority: self.vault_authority,
        }
    }

    /// The instruction that closes the custody account.
    pub fn close_account_context(&self) -> (ix: CloseAccount)
        ensures
            ix == self.close_account(),
    {
        CloseAccount {
            account: self.vault_account,
            destination: self.initializer,
            authority: self.vault_authority,
        }
    }

    /// Checks the accounts of a settlement against the rules.
    pub fn validate(
        &self,
        held: &ExchangeAccounts,
        vault: Option<(Address, u8)>,
        authority: Option<(Address, u8)>,
    ) -> (outcome: Result<(), EscrowError>)
        ensures
            outcome == self.validation(*held, vault, authority),
            outcome is Ok <==> self.accepts(*held, vault, authority),
    {
        let escrow = match held.escrow_account {
            Some(record) => record,
            None => {
                return Err(EscrowError::Validation(ValidationError::RecordNotFound));
            },
        };
        if escrow.initializer_key != self.initializer {
            return Err(EscrowError::Validation(ValidationError::InitializerMismatch));
        }
        if escrow.initializer_deposit_token_account != self.initializer_deposit_token_account {
            return Err(EscrowError::Validation(ValidationError::AccountMismatch));
        }
        if escrow.initializer_receive_token_account != self.initializer_receive_token_account {
            return Err(EscrowError::Validation(ValidationError::AccountMismatch));
        }
        let deposit = match held.initializer_deposit_token_account {
            Some(account) => account,
            None => {
                return Err(EscrowError::Validation(ValidationError::AccountNotFound));
            },
        };
        if deposit.owner != self.initializer {
            return Err(EscrowError::Validation(ValidationError::OwnerMismatch));
        }
        let receive = match held.initializer_receive_token_account {
            Some(account) => account,
            None => {
                return Err(EscrowError::Validation(ValidationError::AccountNotFound));
            },
        };
        if receive.owner != self.initializer {
            return Err(EscrowError::Validation(ValidationError::OwnerMismatch));
        }
        if receive.mint != escrow.initializer_receive_mint {
            return Err(EscrowError::Validation(ValidationError::MintMismatch));
        }
        let offered = match held.taker_deposit_token_account {
            Some(account) => account,
            None => {
                return Err(EscrowError::Validation(ValidationError::AccountNotFound));
            },
        };
        if offered.owner != self.taker {
            return Err(EscrowError::Validation(ValidationError::OwnerMismatch));
        }
        if offered.mint != escrow.initializer_receive_mint {
            return Err(EscrowError::Validation(ValidationError::MintMismatch));
        }
        if offered.amount < escrow.initializer_receive_amount {
            return Err(EscrowError::Validation(ValidationError::InsufficientAmount));
        }
        let wanted = match held.taker_receive_token_account {
            Some(account) => account,
            None => {
                return Err(EscrowError::Validation(ValidationError::AccountNotFound));
            },
        };
        if wanted.owner != self.taker {
            return Err(EscrowError::Validation(ValidationError::OwnerMismatch));
        }
        if wanted.mint != escrow.initializer_nft_mint {
            return Err(EscrowError::Validation(ValidationError::MintMismatch));
        }
        match validate_custody(
            &self.vault_account,
            &self.vault_authority,
            held.vault_account,
            vault,
            authority,
        ) {
            Err(e) => {
                return Err(e);
            },
            Ok(()) => {},
        }
        match authority {
            Some((address, _)) => {
                if address == self.taker {
                    return Err(EscrowError::Authority(AuthorityError::Impersonation));
                }
            },
            None => {},
        }
        Ok(())
    }
}

/// The rules on custody: the custody account supplied is the derived one and
/// exists, the custody authority supplied is the derived one and owns it.
pub open spec fn custody_accepts(
    vault_account: Address,
    vault_authority: Address,
    held: Option<TokenAccount>,
    vault: Option<(Address, u8)>,
    authority: Option<(Address, u8)>,
) -> bool {
    &&& vault matches Some((address, _)) && address == vault_account
    &&& authority matches Some((address, _)) && address == vault_authority
    &&& held matches Some(custody) && custody.owner == vault_authority
}

/// The first rule on custody that the supplied accounts break, if they break
/// one: the custody account supplied is the derived one and exists, the
/// custody authority supplied is the derived one and owns it.
pub open spec fn custody_validation(
    vault_account: Address,
    vault_authority: Address,
    held: Option<TokenAccount>,
    vault: Option<(Address, u8)>,
    authority: Option<(Address, u8)>,
) -> Result<(), EscrowError> {
    if vault is None {
        Err(EscrowError::Authority(AuthorityError::Underivable))
    } else if vault.unwrap().0 != vault_account {
        Err(EscrowError::Validation(ValidationError::AccountMismatch))
    } else if held is None {
        Err(EscrowError::Validation(ValidationError::AccountNotFound))
    } else if authority is None {
        Err(EscrowError::Authority(AuthorityError::Underivable))
    } else if authority.unwrap().0 != vault_authority {
        Err(EscrowError::Authority(AuthorityError::Mismatch))
    } else if held->0.owner != authority.unwrap().0 {
        Err(EscrowError::Authority(AuthorityError::NotCustodian))
    } else {
        Ok(())
    }
}

/// Checks the custody account and the custody authority that an operation was
/// given against the derived ones.
pub fn validate_custody(
    vault_account: &Address,
    vault_authority: &Address,
    held: Option<TokenAccount>,
    vault: Option<(Address, u8)>,
    authority: Option<(Address, u8)>,
) -> (outcome: Result<(), EscrowError>)
    ensures
        outcome == custody_validation(*vault_account, *vault_authority, held, vault, authority),
        outcome is Ok <==> custody_accepts(*vault_account, *vault_authority, held, vault, authority),
{
    let vault_address = match vault {
        Some((address, _)) => address,
        None => {
            return Err(EscrowError::Authority(AuthorityError::Underivable));
        },
    };
    if vault_address != *vault_account {
        return Err(EscrowError::Validation(ValidationError::AccountMismatch));
    }
    let custody = match held {
        Some(account) => account,
        None => {
            return Err(EscrowError::Validation(ValidationError::AccountNotFound));
        },
    };
    let derived_authority = match authority {
        Some((address, _)) => address,
        None => {
            return Err(EscrowError::Authority(AuthorityError::Underivable));
        },
    };
    if derived_authority != *vault_authority {
        return Err(EscrowError::Authority(AuthorityError::Mismatch));
    }
    if custody.owner != derived_authority {
        return Err(EscrowError::Authority(AuthorityError::NotCustodian));
    }
    Ok(())
}

} // verus!
