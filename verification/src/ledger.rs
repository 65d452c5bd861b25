//! The ledger and the token protocol it implements.

use vstd::prelude::*;
use crate::account::{AccountId, Balance};
use crate::error::PSP22Error;
use crate::event::{Approval, Transfer};
use crate::laws::lemma_moved_conserves;
use crate::model::LedgerState;
use crate::sum::{lemma_sum_bounds_entry, lemma_sum_insert, sum_of};
use crate::table::{distinct_keys, map_of, Table};

verus! {

/// The token protocol: three queries and five operations on a ledger.
///
/// The host supplies with each operation the authenticated `caller`, and with
/// each transfer whether the recipient is a contract account. An operation
/// either passes every check, changes the state and hands back the event to
/// publish, or returns the first failed check's error and changes nothing.
pub trait PSP22: View<V = LedgerState> {
    /// The number of units in existence.
    fn total_supply(&self) -> (supply: Balance)
        ensures
            supply == self@.total_supply,
    ;

    /// The balance of `owner`, zero if the account was never credited.
    fn balance_of(&self, owner: AccountId) -> (balance: Balance)
        ensures
            balance == self@.balance_of(owner),
    ;

    /// What `spender` may still move out of the balance of `owner`, zero if
    /// never set.
    fn allowance(&self, owner: AccountId, spender: AccountId) -> (allowance: Balance)
        ensures
            allowance == self@.allowance(owner, spender),
    ;

    /// Moves `value` units from `caller` to `to`.
    fn transfer(
        &mut self,
        caller: AccountId,
        to: AccountId,
        value: Balance,
        to_is_contract: bool,
    ) -> (result: Result<Transfer, PSP22Error>)
        ensures
            final(self)@ == old(self)@.after_transfer(caller, to, value as nat, to_is_contract),
            match result {
                Ok(event) => {
                    &&& old(self)@.transfer_rejection(caller, to, value as nat, to_is_contract)
                        is None
                    &&& event == (Transfer { from: Some(caller), to: Some(to), value })
                },
                Err(error) => old(self)@.transfer_rejection(
                    caller,
                    to,
                    value as nat,
                    to_is_contract,
                ) == Some(error@),
            },
    ;

    /// Moves `value` units from `from` to `to` on the strength of the
    /// allowance that `from` gave `caller`, and consumes that much of it.
    fn transfer_from(
        &mut self,
        caller: AccountId,
        from: AccountId,
        to: AccountId,
        value: Balance,
        to_is_contract: bool,
    ) -> (result: Result<Transfer, PSP22Error>)
        ensures
            final(self)@ == old(self)@.after_transfer_from(
                caller,
                from,
                to,
                value as nat,
                to_is_contract,
            ),
            match result {
                Ok(event) => {
                    &&& old(self)@.transfer_from_rejection(
                        caller,
                        from,
                        to,
                        value as nat,
                        to_is_contract,
                    ) is None
                    &&& event == (Transfer { from: Some(from), to: Some(to), value })
                },
                Err(error) => old(self)@.transfer_from_rejection(
                    caller,
                    from,
                    to,
                    value as nat,
                    to_is_contract,
                ) == Some(error@),
            },
    ;

    /// Sets the allowance of `spender` over the funds of `caller` to `value`,
    /// whatever it was before.
    fn approve(&mut self, caller: AccountId, spender: AccountId, value: Balance) -> (result: Result<
        Approval,
        PSP22Error,
    >)
        ensures
            final(self)@ == old(self)@.after_approve(caller, spender, value as nat),
            result matches Ok(event) && event == (Approval { owner: caller, spender, value }),
    ;

    /// Raises the allowance of `spender` over the funds of `caller` by
    /// `added_value`. Unless the call is rejected, the raised allowance must
    /// not exceed the largest amount.
    fn increase_allowance(
        &mut self,
        caller: AccountId,
        spender: AccountId,
        added_value: Balance,
    ) -> (result: Result<Approval, PSP22Error>)
        requires
            old(self)@.increase_allowance_rejection(caller, spender) is None ==> old(
                self,
            )@.allowance(caller, spender) + added_value <= Balance::MAX,
        ensures
            final(self)@ == old(self)@.after_increase_allowance(
                caller,
                spender,
                added_value as nat,
            ),
            match result {
                Ok(event) => {
                    &&& old(self)@.increase_allowance_rejection(caller, spender) is None
                    &&& event.owner == caller
                    &&& event.spender == spender
                    &&& event.value == old(self)@.allowance(caller, spender) + added_value
                },
                Err(error) => old(self)@.increase_allowance_rejection(caller, spender) == Some(
                    error@,
                ),
            },
    ;

    /// Cuts the allowance of `spender` over the funds of `caller` by
    /// `subtracted_value`.
    fn decrease_allowance(
        &mut self,
        caller: AccountId,
        spender: AccountId,
        subtracted_value: Balance,
    ) -> (result: Result<Approval, PSP22Error>)
        ensures
            final(self)@ == old(self)@.after_decrease_allowance(
                caller,
                spender,
                subtracted_value as nat,
            ),
            match result {
                Ok(event) => {
                    &&& old(self)@.decrease_allowance_rejection(
                        caller,
                        spender,
                        subtracted_value as nat,
                    ) is None
                    &&& event.owner == caller
                    &&& event.spender == spender
                    &&& event.value == old(self)@.allowance(caller, spender) - subtracted_value
                },
                Err(error) => old(self)@.decrease_allowance_rejection(
                    caller,
                    spender,
                    subtracted_value as nat,
                ) == Some(error@),
            },
    ;
}

/// A ledger of a fixed supply of units. Its balances always add up to the
/// total supply.
pub struct Psp22Ink {
    total_supply: Balance,
    balances: Table<AccountId>,
    allowances: Table<(AccountId, AccountId)>,
}

impl View for Psp22Ink {
    type V = LedgerState;

    closed spec fn view(&self) -> LedgerState {
        LedgerState {
            total_supply: self.total_supply as nat,
            balances: self.balances@,
            allowances: self.allowances@,
        }
    }
}

impl Default for Psp22Ink {
    /// The ledger of no units.
    fn default() -> (ledger: Self)
        ensures
            ledger@ == (LedgerState {
                total_supply: 0,
                balances: Map::empty(),
                allowances: Map::empty(),
            }),
            ledger@.conserved(),
    {
        Psp22Ink { total_supply: 0, balances: Table::new(), allowances: Table::new() }
    }
}

impl Psp22Ink {
    #[verifier::type_invariant]
    spec fn supply_is_conserved(self) -> bool {
        self@.conserved()
    }

    /// Creates the ledger: `caller` receives `total_supply` units, which is
    /// reported as a transfer from nobody.
    pub fn new(caller: AccountId, total_supply: Balance) -> (created: (Self, Transfer))
        ensures
            created.0@ == LedgerState::genesis(caller, total_supply as nat),
            created.0@.conserved(),
            created.1 == (Transfer { from: None, to: Some(caller), value: total_supply }),
    {
        let mut balances = Table::new();
        balances.set(caller, total_supply);
        proof {
            lemma_sum_insert(Map::<AccountId, nat>::empty(), caller, total_supply as nat);
        }
        let ledger = Psp22Ink { total_supply, balances, allowances: Table::new() };
        (ledger, Transfer { from: None, to: Some(caller), value: total_supply })
    }

    /// The ledger that holds exactly the given balances and allowances, if
    /// no key occurs twice in either list and the balances add up to
    /// `total_supply`.
    pub fn restore(
        total_supply: Balance,
        balances: Vec<(AccountId, Balance)>,
        allowances: Vec<((AccountId, AccountId), Balance)>,
    ) -> (restored: Option<Self>)
        ensures
            restored is Some <==> {
                &&& distinct_keys(balances@)
                &&& distinct_keys(allowances@)
                &&& sum_of(map_of(balances@)) == total_supply
            },
            restored matches Some(ledger) ==> ledger@ == (LedgerState {
                total_supply: total_supply as nat,
                balances: map_of(balances@),
                allowances: map_of(allowances@),
            }) && ledger@.conserved(),
    {
        let balances = match Table::from_entries(balances) {
            Some(table) => table,
            None => {
                return None;
            },
        };
        let allowances = match Table::from_entries(allowances) {
            Some(table) => table,
            None => {
                return None;
            },
        };
        proof {
            balances.lemma_view_finite();
        }
        match balances.total() {
            Some(sum) => {
                if sum == total_supply {
                    Some(Psp22Ink { total_supply, balances, allowances })
                } else {
                    None
                }
            },
            None => None,
        }
    }

    /// The stored balances, one entry for each account ever written.
    pub fn balance_entries(&self) -> (entries: &Vec<(AccountId, Balance)>)
        ensures
            distinct_keys(entries@),
            map_of(entries@) == self@.balances,
    {
        self.balances.entries()
    }

    /// The stored allowances, one entry for each (owner, spender) ever written.
    pub fn allowance_entries(&self) -> (entries: &Vec<((AccountId, AccountId), Balance)>)
        ensures
            distinct_keys(entries@),
            map_of(entries@) == self@.allowances,
    {
        self.allowances.entries()
    }

    /// Raises an allowance as `increase_allowance` does, for any arguments:
    /// where the call would pass its checks but the raised allowance would
    /// exceed the largest amount, the call fails, which `None` reports, and
    /// nothing changes.
    pub fn checked_increase_allowance(
        &mut self,
        caller: AccountId,
        spender: AccountId,
        added_value: Balance,
    ) -> (outcome: Option<Result<Approval, PSP22Error>>)
        ensures
            outcome is None <==> {
                &&& old(self)@.increase_allowance_rejection(caller, spender) is None
                &&& old(self)@.allowance(caller, spender) + added_value > Balance::MAX
            },
            outcome is None ==> final(self)@ == old(self)@,
            outcome is Some ==> final(self)@ == old(self)@.after_increase_allowance(
                caller,
                spender,
                added_value as nat,
            ),
            match outcome {
                Some(Ok(event)) => {
                    &&& old(self)@.increase_allowance_rejection(caller, spender) is None
                    &&& event.owner == caller
                    &&& event.spender == spender
                    &&& event.value == old(self)@.allowance(caller, spender) + added_value
                },
                Some(Err(error)) => old(self)@.increase_allowance_rejection(caller, spender)
                    == Some(error@),
                None => true,
            },
            final(self)@.conserved(),
    {
        proof {
            use_type_invariant(&*self);
        }
        let fits = caller.is_zero() || spender.is_zero() || self.allowance(
            caller,
            spender,
        ).checked_add(added_value).is_some();
        if fits {
            Some(self.increase_allowance(caller, spender, added_value))
        } else {
            None
        }
    }

    fn set_allowance(&mut self, owner: AccountId, spender: AccountId, amount: Balance)
        ensures
            final(self)@ == old(self)@.with_allowance(owner, spender, amount as nat),
            final(self)@.conserved(),
    {
        proof {
            use_type_invariant(&*self);
        }
        let mut ledger = Psp22Ink::default();
        core::mem::swap(self, &mut ledger);
        let Psp22Ink { total_supply, balances, mut allowances } = ledger;
        allowances.set((owner, spender), amount);
        *self = Psp22Ink { total_supply, balances, allowances };
    }

    fn move_funds(&mut self, from: AccountId, to: AccountId, value: Balance)
        requires
            old(self)@.balance_of(from) >= value,
        ensures
            final(self)@ == old(self)@.moved(from, to, value as nat),
            final(self)@.conserved(),
    {
        proof {
            use_type_invariant(&*self);
            lemma_moved_conserves(self@, from, to, value as nat);
        }
        let mut ledger = Psp22Ink::default();
        core::mem::swap(self, &mut ledger);
        let Psp22Ink { total_supply, mut balances, allowances } = ledger;
        let from_balance = balances.get(&from);
        balances.set(from, from_balance - value);
        let to_balance = balances.get(&to);
        balances.set(to, to_balance + value);
        *self = Psp22Ink { total_supply, balances, allowances };
    }
}

impl PSP22 for Psp22Ink {
    /// The supply reported is the sum of all balances.
    fn total_supply(&self) -> (supply: Balance)
        ensures
            self@.conserved(),
    {
        proof {
            use_type_invariant(self);
        }
        self.total_supply
    }

    /// No account holds more than the total supply.
    fn balance_of(&self, owner: AccountId) -> (balance: Balance)
        ensures
            balance <= self@.total_supply,
    {
        proof {
            use_type_invariant(self);
            lemma_sum_bounds_entry(self@.balances, owner);
        }
        self.balances.get(&owner)
    }

    fn allowance(&self, owner: AccountId, spender: AccountId) -> (allowance: Balance) {
        self.allowances.get(&(owner, spender))
    }

    /// Whatever the outcome, the balances still add up to the total supply.
    fn transfer(
        &mut self,
        caller: AccountId,
        to: AccountId,
        value: Balance,
        to_is_contract: bool,
    ) -> (result: Result<Transfer, PSP22Error>)
        ensures
            final(self)@.conserved(),
    {
        proof {
            use_type_invariant(&*self);
        }
        let from = caller;
        let from_balance = self.balance_of(from);
        if from_balance < value {
            return Err(PSP22Error::InsufficientBalance);
        }
        if from.is_zero() {
            return Err(PSP22Error::ZeroSenderAddress);
        }
        if to.is_zero() {
            return Err(PSP22Error::ZeroRecipientAddress);
        }
        if to_is_contract {
            return Err(PSP22Error::contract_recipient());
        }
        self.move_funds(from, to, value);
        Ok(Transfer { from: Some(from), to: Some(to), value })
    }

    /// Whatever the outcome, the balances still add up to the total supply.
    fn transfer_from(
        &mut self,
        caller: AccountId,
        from: AccountId,
        to: AccountId,
        value: Balance,
        to_is_contract: bool,
    ) -> (result: Result<Transfer, PSP22Error>)
        ensures
            final(self)@.conserved(),
    {
        proof {
            use_type_invariant(&*self);
        }
        let allowance = self.allowance(from, caller);
        if allowance < value {
            return Err(PSP22Error::InsufficientAllowance);
        }
        let from_balance = self.balance_of(from);
        if from_balance < value {
            return Err(PSP22Error::InsufficientBalance);
        }
        if from.is_zero() {
            return Err(PSP22Error::ZeroSenderAddress);
        }
        if to.is_zero() {
            return Err(PSP22Error::ZeroRecipientAddress);
        }
        if to_is_contract {
            return Err(PSP22Error::contract_recipient());
        }
        self.set_allowance(from, caller, allowance - value);
        self.move_funds(from, to, value);
        Ok(Transfer { from: Some(from), to: Some(to), value })
    }

    /// Whatever the outcome, the balances still add up to the total supply.
    fn approve(&mut self, caller: AccountId, spender: AccountId, value: Balance) -> (result: Result<
        Approval,
        PSP22Error,
    >)
        ensures
            final(self)@.conserved(),
    {
        proof {
            use_type_invariant(&*self);
        }
        let owner = caller;
        self.set_allowance(owner, spender, value);
        Ok(Approval { owner, spender, value })
    }

    /// Whatever the outcome, the balances still add up to the total supply.
    fn increase_allowance(
        &mut self,
        caller: AccountId,
        spender: AccountId,
        added_value: Balance,
    ) -> (result: Result<Approval, PSP22Error>)
        ensures
            final(self)@.conserved(),
    {
        proof {
            use_type_invariant(&*self);
        }
        let owner = caller;
        let allowance = self.allowance(owner, spender);
        if owner.is_zero() {
            return Err(PSP22Error::ZeroSenderAddress);
        }
        if spender.is_zero() {
            return Err(PSP22Error::ZeroRecipientAddress);
        }
        self.set_allowance(owner, spender, allowance + added_value);
        Ok(Approval { owner, spender, value: allowance + added_value })
    }

    /// Whatever the outcome, the balances still add up to the total supply.
    fn decrease_allowance(
        &mut self,
        caller: AccountId,
        spender: AccountId,
        subtracted_value: Balance,
    ) -> (result: Result<Approval, PSP22Error>)
        ensures
            final(self)@.conserved(),
    {
        proof {
            use_type_invariant(&*self);
        }
        let owner = caller;
        let allowance = self.allowance(owner, spender);
        if allowance < subtracted_value {
            return Err(PSP22Error::InsufficientAllowance);
        }
        if owner.is_zero() {
            return Err(PSP22Error::ZeroSenderAddress);
        }
        if spender.is_zero() {
            return Err(PSP22Error::ZeroRecipientAddress);
        }
        self.set_allowance(owner, spender, allowance - subtracted_value);
        Ok(Approval { owner, spender, value: allowance - subtracted_value })
    }
}

} // verus!
