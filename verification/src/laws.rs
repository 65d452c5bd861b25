//! What holds of the ledger's state machine, whatever calls are made.

use vstd::prelude::*;
use crate::account::AccountId;
use crate::error::Rejection;
use crate::model::{Call, LedgerState};
use crate::sum::{lemma_sum_bounds_entry, lemma_sum_insert};

verus! {

/// Moving funds that the sender has neither creates nor destroys units, and
/// the balance credited never exceeds the total supply.
pub proof fn lemma_moved_conserves(state: LedgerState, from: AccountId, to: AccountId, value: nat)
    requires
        state.conserved(),
        state.balance_of(from) >= value,
    ensures
        state.moved(from, to, value).conserved(),
        state.moved(from, to, value).balance_of(to) <= state.total_supply,
{
    let debited = state.with_balance(from, (state.balance_of(from) - value) as nat);
    lemma_sum_insert(state.balances, from, (state.balance_of(from) - value) as nat);
    lemma_sum_bounds_entry(debited.balances, to);
    lemma_sum_insert(debited.balances, to, debited.balance_of(to) + value);
}

/// A new ledger obeys the conservation law.
pub proof fn lemma_genesis_conserved(creator: AccountId, total_supply: nat)
    ensures
        LedgerState::genesis(creator, total_supply).conserved(),
{
    lemma_sum_insert(Map::<AccountId, nat>::empty(), creator, total_supply);
}

/// Conservation, one call at a time: no call, accepted or rejected, changes
/// the total supply or the sum of all balances.
pub proof fn lemma_call_conserves(state: LedgerState, call: Call)
    requires
        state.conserved(),
    ensures
        state.after(call).conserved(),
        state.after(call).total_supply == state.total_supply,
{
    match call {
        Call::Transfer { caller, to, value, to_is_contract } => {
            if state.transfer_rejection(caller, to, value, to_is_contract) is None {
                lemma_moved_conserves(state, caller, to, value);
            }
        },
        Call::TransferFrom { caller, from, to, value, to_is_contract } => {
            if state.transfer_from_rejection(caller, from, to, value, to_is_contract) is None {
                let spent = state.with_allowance(
                    from,
                    caller,
                    (state.allowance(from, caller) - value) as nat,
                );
                lemma_moved_conserves(spent, from, to, value);
            }
        },
        _ => {},
    }
}

/// Conservation: after any run of calls on a ledger whose balances add up to
/// its total supply, they still do, and the total supply is what it was.
pub proof fn lemma_conservation(state: LedgerState, calls: Seq<Call>)
    requires
        state.conserved(),
    ensures
        state.after_all(calls).conserved(),
        state.after_all(calls).circulating() == state.total_supply,
        state.after_all(calls).total_supply == state.total_supply,
    decreases calls.len(),
{
    if calls.len() > 0 {
        lemma_conservation(state, calls.drop_last());
        lemma_call_conserves(state.after_all(calls.drop_last()), calls.last());
    }
}

/// In every state that a new ledger can reach, the balances add up to the
/// supply it was created with.
pub proof fn lemma_reachable_states_conserve(
    creator: AccountId,
    total_supply: nat,
    calls: Seq<Call>,
)
    ensures
        LedgerState::genesis(creator, total_supply).after_all(calls).circulating() == total_supply,
{
    lemma_genesis_conserved(creator, total_supply);
    lemma_conservation(LedgerState::genesis(creator, total_supply), calls);
}

/// In every state that a new ledger can reach, each balance lies between
/// zero and the total supply, and no allowance is negative.
pub proof fn lemma_amounts_in_range(
    creator: AccountId,
    total_supply: nat,
    calls: Seq<Call>,
    owner: AccountId,
    spender: AccountId,
)
    ensures
        0 <= LedgerState::genesis(creator, total_supply).after_all(calls).balance_of(owner)
            <= total_supply,
        0 <= LedgerState::genesis(creator, total_supply).after_all(calls).allowance(owner, spender),
{
    lemma_genesis_conserved(creator, total_supply);
    lemma_conservation(LedgerState::genesis(creator, total_supply), calls);
    lemma_sum_bounds_entry(
        LedgerState::genesis(creator, total_supply).after_all(calls).balances,
        owner,
    );
}

/// An accepted call only ever takes away what is there: the debited balance
/// and the consumed or cut allowance cover the amount, so no subtraction
/// goes below zero.
pub proof fn lemma_debits_are_covered(state: LedgerState, call: Call)
    requires
        state.rejection(call) is None,
    ensures
        call matches Call::Transfer { caller, value, .. } ==> state.balance_of(caller) >= value,
        call matches Call::TransferFrom { caller, from, value, .. } ==> state.balance_of(from)
            >= value && state.allowance(from, caller) >= value,
        call matches Call::DecreaseAllowance { caller, spender, subtracted_value }
            ==> state.allowance(caller, spender) >= subtracted_value,
{
}

/// A rejected call changes nothing.
pub proof fn lemma_rejected_call_changes_nothing(state: LedgerState, call: Call)
    requires
        state.rejection(call) is Some,
    ensures
        state.after(call) == state,
{
}

/// An accepted transfer between two different accounts takes exactly `value`
/// from the sender and gives exactly `value` to the recipient; between an
/// account and itself it leaves the balance as it was. No other balance moves.
pub proof fn lemma_transfer_moves_exactly(
    state: LedgerState,
    from: AccountId,
    to: AccountId,
    value: nat,
    to_is_contract: bool,
    other: AccountId,
)
    requires
        state.transfer_rejection(from, to, value, to_is_contract) is None,
        other != from,
        other != to,
    ensures
        from != to ==> state.after_transfer(from, to, value, to_is_contract).balance_of(from)
            == state.balance_of(from) - value,
        from != to ==> state.after_transfer(from, to, value, to_is_contract).balance_of(to)
            == state.balance_of(to) + value,
        from == to ==> state.after_transfer(from, to, value, to_is_contract).balance_of(from)
            == state.balance_of(from),
        state.after_transfer(from, to, value, to_is_contract).balance_of(other) == state.balance_of(
            other,
        ),
        state.after_transfer(from, to, value, to_is_contract).allowances == state.allowances,
{
}

/// A transfer or a transfer on behalf whose sender or recipient is the zero
/// identifier is never accepted.
pub proof fn lemma_zero_identity_never_accepted(
    state: LedgerState,
    spender: AccountId,
    from: AccountId,
    to: AccountId,
    value: nat,
    to_is_contract: bool,
)
    requires
        from.is_zero() || to.is_zero(),
    ensures
        state.transfer_rejection(from, to, value, to_is_contract) is Some,
        state.transfer_from_rejection(spender, from, to, value, to_is_contract) is Some,
        state.after_transfer(from, to, value, to_is_contract) == state,
        state.after_transfer_from(spender, from, to, value, to_is_contract) == state,
{
}

/// Where the funds suffice, a transfer from the zero identifier is rejected
/// as coming from the zero sender, and one from another account to the zero
/// identifier as going to the zero recipient.
pub proof fn lemma_zero_identity_rejection_in_transfer(
    state: LedgerState,
    from: AccountId,
    to: AccountId,
    value: nat,
    to_is_contract: bool,
)
    requires
        state.balance_of(from) >= value,
    ensures
        from.is_zero() ==> state.transfer_rejection(from, to, value, to_is_contract) == Some(
            Rejection::ZeroSenderAddress,
        ),
        !from.is_zero() && to.is_zero() ==> state.transfer_rejection(
            from,
            to,
            value,
            to_is_contract,
        ) == Some(Rejection::ZeroRecipientAddress),
{
}

/// Where allowance and funds suffice, a transfer on behalf out of the zero
/// identifier is rejected as coming from the zero sender, and one out of
/// another account to the zero identifier as going to the zero recipient.
pub proof fn lemma_zero_identity_rejection_in_transfer_from(
    state: LedgerState,
    spender: AccountId,
    from: AccountId,
    to: AccountId,
    value: nat,
    to_is_contract: bool,
)
    requires
        state.allowance(from, spender) >= value,
        state.balance_of(from) >= value,
    ensures
        from.is_zero() ==> state.transfer_from_rejection(spender, from, to, value, to_is_contract)
            == Some(Rejection::ZeroSenderAddress),
        !from.is_zero() && to.is_zero() ==> state.transfer_from_rejection(
            spender,
            from,
            to,
            value,
            to_is_contract,
        ) == Some(Rejection::ZeroRecipientAddress),
{
}

/// No transfer and no transfer on behalf changes the balance of the zero
/// identifier.
pub proof fn lemma_zero_identity_balance_is_fixed(state: LedgerState, call: Call, zero: AccountId)
    requires
        zero.is_zero(),
    ensures
        state.after(call).balance_of(zero) == state.balance_of(zero),
{
    match call {
        Call::Transfer { caller, to, value, to_is_contract } => {
            if state.transfer_rejection(caller, to, value, to_is_contract) is None {
                lemma_not_zero_differs(caller, zero);
                lemma_not_zero_differs(to, zero);
            }
        },
        Call::TransferFrom { caller, from, to, value, to_is_contract } => {
            if state.transfer_from_rejection(caller, from, to, value, to_is_contract) is None {
                lemma_not_zero_differs(from, zero);
                lemma_not_zero_differs(to, zero);
            }
        },
        _ => {},
    }
}

/// An identifier that is not zero differs from one that is.
pub proof fn lemma_not_zero_differs(account: AccountId, zero: AccountId)
    requires
        !account.is_zero(),
        zero.is_zero(),
    ensures
        account != zero,
{
}

/// Allowance consumption: an accepted transfer on behalf lowers the allowance
/// that `from` gave `spender` by exactly `value`, which it covered, and leaves
/// every other allowance as it was.
pub proof fn lemma_transfer_from_consumes_allowance(
    state: LedgerState,
    spender: AccountId,
    from: AccountId,
    to: AccountId,
    value: nat,
    to_is_contract: bool,
)
    requires
        state.transfer_from_rejection(spender, from, to, value, to_is_contract) is None,
    ensures
        state.allowance(from, spender) >= value,
        state.after_transfer_from(spender, from, to, value, to_is_contract).allowance(from, spender)
            == state.allowance(from, spender) - value,
        forall|owner: AccountId, other: AccountId|
            (owner, other) != (from, spender) ==> state.after_transfer_from(
                spender,
                from,
                to,
                value,
                to_is_contract,
            ).allowance(owner, other) == state.allowance(owner, other),
{
}

/// Approve overwrites: after two approvals of the same spender only the
/// second counts, as if the first had never been made.
pub proof fn lemma_approve_overwrites(
    state: LedgerState,
    owner: AccountId,
    spender: AccountId,
    first: nat,
    second: nat,
)
    ensures
        state.after_approve(owner, spender, first).after_approve(owner, spender, second).allowance(
            owner,
            spender,
        ) == second,
        state.after_approve(owner, spender, first).after_approve(owner, spender, second)
            == state.after_approve(owner, spender, second),
{
    assert(state.allowances.insert((owner, spender), first).insert((owner, spender), second)
        =~= state.allowances.insert((owner, spender), second));
}

/// An accepted raise adds exactly `added_value` to the allowance, an accepted
/// cut takes exactly `subtracted_value` from it, and neither touches a balance.
pub proof fn lemma_allowance_changes_exactly(
    state: LedgerState,
    owner: AccountId,
    spender: AccountId,
    amount: nat,
)
    ensures
        state.increase_allowance_rejection(owner, spender) is None
            ==> state.after_increase_allowance(owner, spender, amount).allowance(owner, spender)
            == state.allowance(owner, spender) + amount,
        state.decrease_allowance_rejection(owner, spender, amount) is None
            ==> state.after_decrease_allowance(owner, spender, amount).allowance(owner, spender)
            == state.allowance(owner, spender) - amount,
        state.after_increase_allowance(owner, spender, amount).balances == state.balances,
        state.after_decrease_allowance(owner, spender, amount).balances == state.balances,
        state.after_approve(owner, spender, amount).balances == state.balances,
{
}

} // verus!
