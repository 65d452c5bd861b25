//! Notifications that a successful call hands back for the host to publish.

use vstd::prelude::*;
use crate::account::{AccountId, Balance};

verus! {

/// Units moved from one account to another. `from` is absent when the units
/// were created; `to` would be absent if they were destroyed.
#[derive(Clone, Copy, Debug, PartialEq, Eq)]
pub struct Transfer {
    pub from: Option<AccountId>,
    pub to: Option<AccountId>,
    pub value: Balance,
}

/// The allowance of `spender` over the funds of `owner` now stands at `value`.
#[derive(Clone, Copy, Debug, PartialEq, Eq)]
pub struct Approval {
    pub owner: AccountId,
    pub spender: AccountId,
    pub value: Balance,
}

} // verus!
