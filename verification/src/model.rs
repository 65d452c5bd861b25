//! The ledger as a mathematical state machine.
//!
//! A state is a total supply, a finite map of balances and a finite map of
//! allowances. Each operation is a function from a state and the call's
//! arguments to the rejection, if any, and to the state that follows.

use vstd::prelude::*;
use crate::account::AccountId;
use crate::error::Rejection;
use crate::sum::{amount_at, sum_of};

verus! {

/// What the ledger holds, as plain mathematics.
#[verifier::ext_equal]
pub ghost struct LedgerState {
    /// The number of units in existence, fixed when the ledger is created.
    pub total_supply: nat,
    /// What each account owns. A missing account owns nothing.
    pub balances: Map<AccountId, nat>,
    /// What each spender may still move out of each owner's balance, keyed by
    /// (owner, spender). A missing pair allows nothing.
    pub allowances: Map<(AccountId, AccountId), nat>,
}

/// One call of a ledger operation, with everything the host supplies.
pub ghost enum Call {
    Transfer { caller: AccountId, to: AccountId, value: nat, to_is_contract: bool },
    TransferFrom {
        caller: AccountId,
        from: AccountId,
        to: AccountId,
        value: nat,
        to_is_contract: bool,
    },
    Approve { caller: AccountId, spender: AccountId, value: nat },
    IncreaseAllowance { caller: AccountId, spender: AccountId, added_value: nat },
    DecreaseAllowance { caller: AccountId, spender: AccountId, subtracted_value: nat },
}

impl LedgerState {
    /// The balance of `owner`.
    pub open spec fn balance_of(self, owner: AccountId) -> nat {
        amount_at(self.balances, owner)
    }

    /// What `spender` may still move out of the balance of `owner`.
    pub open spec fn allowance(self, owner: AccountId, spender: AccountId) -> nat {
        amount_at(self.allowances, (owner, spender))
    }

    /// The sum of all balances.
    pub open spec fn circulating(self) -> nat {
        sum_of(self.balances)
    }

    /// The conservation law: the balances add up to the total supply.
    pub open spec fn conserved(self) -> bool {
        &&& self.balances.dom().finite()
        &&& self.circulating() == self.total_supply
    }

    /// The state of a new ledger: `creator` owns the whole supply.
    pub open spec fn genesis(creator: AccountId, total_supply: nat) -> LedgerState {
        LedgerState {
            total_supply,
            balances: Map::<AccountId, nat>::empty().insert(creator, total_supply),
            allowances: Map::empty(),
        }
    }

    /// This state with the balance of `owner` set to `amount`.
    pub open spec fn with_balance(self, owner: AccountId, amount: nat) -> LedgerState {
        LedgerState { balances: self.balances.insert(owner, amount), ..self }
    }

    /// This state with the allowance of `spender` over `owner` set to `amount`.
    pub open spec fn with_allowance(
        self,
        owner: AccountId,
        spender: AccountId,
        amount: nat,
    ) -> LedgerState {
        LedgerState { allowances: self.allowances.insert((owner, spender), amount), ..self }
    }

    /// This state after `value` units left `from` and then arrived at `to`.
    pub open spec fn moved(self, from: AccountId, to: AccountId, value: nat) -> LedgerState
        recommends
            self.balance_of(from) >= value,
    {
        let debited = self.with_balance(from, (self.balance_of(from) - value) as nat);
        debited.with_balance(to, debited.balance_of(to) + value)
    }

    /// The first check that a transfer from `from` to `to` fails, if any.
    pub open spec fn transfer_rejection(
        self,
        from: AccountId,
        to: AccountId,
        value: nat,
        to_is_contract: bool,
    ) -> Option<Rejection> {
        if self.balance_of(from) < value {
            Some(Rejection::InsufficientBalance)
        } else if from.is_zero() {
            Some(Rejection::ZeroSenderAddress)
        } else if to.is_zero() {
            Some(Rejection::ZeroRecipientAddress)
        } else if to_is_contract {
            Some(Rejection::contract_recipient())
        } else {
            None
        }
    }

    /// The state after a transfer was asked for: funds moved if it passed
    /// every check, nothing changed if not.
    pub open spec fn after_transfer(
        self,
        from: AccountId,
        to: AccountId,
        value: nat,
        to_is_contract: bool,
    ) -> LedgerState {
        if self.transfer_rejection(from, to, value, to_is_contract) is None {
            self.moved(from, to, value)
        } else {
            self
        }
    }

    /// The first check that a transfer by `spender` out of the balance of
    /// `from` fails, if any.
    pub open spec fn transfer_from_rejection(
        self,
        spender: AccountId,
        from: AccountId,
        to: AccountId,
        value: nat,
        to_is_contract: bool,
    ) -> Option<Rejection> {
        if self.allowance(from, spender) < value {
            Some(Rejection::InsufficientAllowance)
        } else {
            self.transfer_rejection(from, to, value, to_is_contract)
        }
    }

    /// The state after a transfer on behalf was asked for: allowance consumed
    /// and funds moved if it passed every check, nothing changed if not.
    pub open spec fn after_transfer_from(
        self,
        spender: AccountId,
        from: AccountId,
        to: AccountId,
        value: nat,
        to_is_contract: bool,
    ) -> LedgerState {
        if self.transfer_from_rejection(spender, from, to, value, to_is_contract) is None {
            self.with_allowance(
                from,
                spender,
                (self.allowance(from, spender) - value) as nat,
            ).moved(from, to, value)
        } else {
            self
        }
    }

    /// The state after `owner` set the allowance of `spender` to `value`.
    /// Nothing is checked, and the earlier allowance is discarded.
    pub open spec fn after_approve(
        self,
        owner: AccountId,
        spender: AccountId,
        value: nat,
    ) -> LedgerState {
        self.with_allowance(owner, spender, value)
    }

    /// The check that a raise of an allowance fails, if any.
    pub open spec fn increase_allowance_rejection(
        self,
        owner: AccountId,
        spender: AccountId,
    ) -> Option<Rejection> {
        if owner.is_zero() {
            Some(Rejection::ZeroSenderAddress)
        } else if spender.is_zero() {
            Some(Rejection::ZeroRecipientAddress)
        } else {
            None
        }
    }

    /// The state after `owner` asked to raise the allowance of `spender` by
    /// `added_value`.
    pub open spec fn after_increase_allowance(
        self,
        owner: AccountId,
        spender: AccountId,
        added_value: nat,
    ) -> LedgerState {
        if self.increase_allowance_rejection(owner, spender) is None {
            self.with_allowance(owner, spender, self.allowance(owner, spender) + added_value)
        } else {
            self
        }
    }

    /// The first check that a cut of an allowance fails, if any.
    pub open spec fn decrease_allowance_rejection(
        self,
        owner: AccountId,
        spender: AccountId,
        subtracted_value: nat,
    ) -> Option<Rejection> {
        if self.allowance(owner, spender) < subtracted_value {
            Some(Rejection::InsufficientAllowance)
        } else if owner.is_zero() {
            Some(Rejection::ZeroSenderAddress)
        } else if spender.is_zero() {
            Some(Rejection::ZeroRecipientAddress)
        } else {
            None
        }
    }

    /// The state after `owner` asked to cut the allowance of `spender` by
    /// `subtracted_value`.
    pub open spec fn after_decrease_allowance(
        self,
        owner: AccountId,
        spender: AccountId,
        subtracted_value: nat,
    ) -> LedgerState {
        if self.decrease_allowance_rejection(owner, spender, subtracted_value) is None {
            self.with_allowance(
                owner,
                spender,
                (self.allowance(owner, spender) - subtracted_value) as nat,
            )
        } else {
            self
        }
    }

    /// The check that `call` fails in this state, if any.
    pub open spec fn rejection(self, call: Call) -> Option<Rejection> {
        match call {
            Call::Transfer { caller, to, value, to_is_contract } => self.transfer_rejection(
                caller,
                to,
                value,
                to_is_contract,
            ),
            Call::TransferFrom {
                caller,
                from,
                to,
                value,
                to_is_contract,
            } => self.transfer_from_rejection(caller, from, to, value, to_is_contract),
            Call::Approve { .. } => None,
            Call::IncreaseAllowance {
                caller,
                spender,
                added_value,
            } => self.increase_allowance_rejection(caller, spender),
            Call::DecreaseAllowance {
                caller,
                spender,
                subtracted_value,
            } => self.decrease_allowance_rejection(caller, spender, subtracted_value),
        }
    }

    /// The state that follows `call`.
    pub open spec fn after(self, call: Call) -> LedgerState {
        match call {
            Call::Transfer { caller, to, value, to_is_contract } => self.after_transfer(
                caller,
                to,
                value,
                to_is_contract,
            ),
            Call::TransferFrom { caller, from, to, value, to_is_contract } => self.after_transfer_from(
                caller,
                from,
                to,
                value,
                to_is_contract,
            ),
            Call::Approve { caller, spender, value } => self.after_approve(caller, spender, value),
            Call::IncreaseAllowance {
                caller,
                spender,
                added_value,
            } => self.after_increase_allowance(caller, spender, added_value),
            Call::DecreaseAllowance {
                caller,
                spender,
                subtracted_value,
            } => self.after_decrease_allowance(caller, spender, subtracted_value),
        }
    }

    /// The state that follows a run of calls, made one after the other.
    pub open spec fn after_all(self, calls: Seq<Call>) -> LedgerState
        decreases calls.len(),
    {
        if calls.len() == 0 {
            self
        } else {
            self.after_all(calls.drop_last()).after(calls.last())
        }
    }
}

} // verus!
