//! The reasons for which the ledger turns a call down.

use vstd::prelude::*;

verus! {

/// Why a call was rejected. A rejected call changes nothing.
#[derive(Debug, PartialEq, Eq)]
pub enum PSP22Error {
    /// A reason of the host's own; no ledger operation produces it.
    Custom(String),
    /// The account to debit holds less than the requested amount.
    InsufficientBalance,
    /// The spender's allowance is less than the requested amount.
    InsufficientAllowance,
    /// The recipient, or the spender of an allowance, is the zero identifier.
    ZeroRecipientAddress,
    /// The sender, or the owner of an allowance, is the zero identifier.
    ZeroSenderAddress,
    /// The recipient may not receive funds.
    SafeTransferCheckFailed(String),
}

/// The mathematical value of a [`PSP22Error`]: the same variants, their text
/// as a sequence of characters.
pub ghost enum Rejection {
    Custom(Seq<char>),
    InsufficientBalance,
    InsufficientAllowance,
    ZeroRecipientAddress,
    ZeroSenderAddress,
    SafeTransferCheckFailed(Seq<char>),
}

impl View for PSP22Error {
    type V = Rejection;

    open spec fn view(&self) -> Rejection {
        match self {
            PSP22Error::Custom(text) => Rejection::Custom(text@),
            PSP22Error::InsufficientBalance => Rejection::InsufficientBalance,
            PSP22Error::InsufficientAllowance => Rejection::InsufficientAllowance,
            PSP22Error::ZeroRecipientAddress => Rejection::ZeroRecipientAddress,
            PSP22Error::ZeroSenderAddress => Rejection::ZeroSenderAddress,
            PSP22Error::SafeTransferCheckFailed(text) => Rejection::SafeTransferCheckFailed(text@),
        }
    }
}

/// The text given when the recipient is a contract account.
pub open spec fn contract_recipient_reason() -> Seq<char> {
    "Recipient is a contract and does not implement safe transfer behavior"@
}

impl Rejection {
    /// The rejection of a transfer whose recipient is a contract account.
    pub open spec fn contract_recipient() -> Rejection {
        Rejection::SafeTransferCheckFailed(contract_recipient_reason())
    }
}

impl PSP22Error {
    /// The error returned when the recipient of a transfer is a contract account.
    pub fn contract_recipient() -> (error: PSP22Error)
        ensures
            error@ == Rejection::contract_recipient(),
    {
        PSP22Error::SafeTransferCheckFailed(
            String::from_str("Recipient is a contract and does not implement safe transfer behavior"),
        )
    }
}

} // verus!
