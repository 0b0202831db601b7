//! Why an escrow operation is refused.
use vstd::prelude::*;

verus! {

/// A supplied account or identity is not what the protocol or the escrow
/// record requires.
#[derive(Clone, Copy, Debug, PartialEq, Eq, Structural)]
pub enum ValidationError {
    /// No escrow record is stored at the given address.
    RecordNotFound,
    /// A supplied asset account does not exist.
    AccountNotFound,
    /// A supplied asset account holds another asset kind than required.
    MintMismatch,
    /// A supplied asset account is not owned by the party it must belong to.
    OwnerMismatch,
    /// The supplied initializer is not the one that the record names.
    InitializerMismatch,
    /// A supplied account is not the one that the record or the derivation
    /// names.
    AccountMismatch,
    /// The taker's offering account holds less than the requested amount.
    InsufficientAmount,
}

/// The custody authority is not what it has to be.
#[derive(Clone, Copy, Debug, PartialEq, Eq, Structural)]
pub enum AuthorityError {
    /// No address can be derived from the seeds.
    Underivable,
    /// The supplied custody authority is not the derived one.
    Mismatch,
    /// The custody account is not owned by the derived custody authority.
    NotCustodian,
    /// The acting party presents the custody authority as its own identity.
    Impersonation,
}

/// A primitive of the asset ledger failed.
#[derive(Clone, Copy, Debug, PartialEq, Eq, Structural)]
pub enum SubstrateError {
    /// An account or a record already exists at the address.
    AccountAlreadyExists,
    /// No asset account exists at the address.
    AccountNotFound,
    /// The two accounts of a transfer hold different asset kinds.
    MintMismatch,
    /// The authority given is not the owner of the account.
    OwnerMismatch,
    /// The source account holds less than the amount to move.
    InsufficientFunds,
    /// The destination account cannot hold the amount in 64 bits.
    Overflow,
    /// An account that still holds assets cannot be closed.
    NonEmptyAccount,
}

/// The error of an escrow operation. After any of them the ledger is as it
/// was before the operation.
#[derive(Clone, Copy, Debug, PartialEq, Eq, Structural)]
pub enum EscrowError {
    Validation(ValidationError),
    Authority(AuthorityError),
    Substrate(SubstrateError),
}

} // verus!
