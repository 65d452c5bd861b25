use psp22_ink::{AccountId, Approval, Balance, PSP22Error, Psp22Ink, Transfer, PSP22};

const REASON: &str = "Recipient is a contract and does not implement safe transfer behavior";

fn account(tag: u8) -> AccountId {
    AccountId([tag; 32])
}

fn zero() -> AccountId {
    AccountId([0; 32])
}

fn sum_of_balances(ledger: &Psp22Ink) -> Balance {
    ledger.balance_entries().iter().map(|entry| entry.1).sum()
}

#[test]
fn new_credits_the_whole_supply_to_the_creator() {
    let a = account(1);
    let (ledger, minted) = Psp22Ink::new(a, 1000);
    assert_eq!(ledger.total_supply(), 1000);
    assert_eq!(ledger.balance_of(a), 1000);
    assert_eq!(ledger.balance_of(account(2)), 0);
    assert_eq!(ledger.allowance(a, account(2)), 0);
    assert_eq!(minted, Transfer { from: None, to: Some(a), value: 1000 });
}

#[test]
fn new_with_no_supply() {
    let a = account(1);
    let (ledger, minted) = Psp22Ink::new(a, 0);
    assert_eq!(ledger.total_supply(), 0);
    assert_eq!(ledger.balance_of(a), 0);
    assert_eq!(minted, Transfer { from: None, to: Some(a), value: 0 });
}

#[test]
fn new_with_the_largest_supply() {
    let a = account(1);
    let b = account(2);
    let (mut ledger, _) = Psp22Ink::new(a, Balance::MAX);
    assert_eq!(ledger.balance_of(a), Balance::MAX);
    assert_eq!(
        ledger.transfer(a, b, Balance::MAX, false),
        Ok(Transfer { from: Some(a), to: Some(b), value: Balance::MAX })
    );
    assert_eq!(ledger.balance_of(a), 0);
    assert_eq!(ledger.balance_of(b), Balance::MAX);
    assert_eq!(ledger.total_supply(), Balance::MAX);
}

#[test]
fn default_ledger_is_empty() {
    let ledger = Psp22Ink::default();
    assert_eq!(ledger.total_supply(), 0);
    assert_eq!(ledger.balance_of(account(1)), 0);
    assert!(ledger.balance_entries().is_empty());
    assert!(ledger.allowance_entries().is_empty());
}

#[test]
fn transfer_then_transfer_on_behalf() {
    let (a, b, c, d) = (account(1), account(2), account(3), account(4));
    let (mut ledger, _) = Psp22Ink::new(a, 1000);
    assert_eq!(ledger.balance_of(a), 1000);
    assert_eq!(ledger.total_supply(), 1000);

    let moved = ledger.transfer(a, b, 300, false);
    assert_eq!(moved, Ok(Transfer { from: Some(a), to: Some(b), value: 300 }));
    assert_eq!(ledger.balance_of(a), 700);
    assert_eq!(ledger.balance_of(b), 300);

    let approved = ledger.approve(a, c, 100);
    assert_eq!(approved, Ok(Approval { owner: a, spender: c, value: 100 }));
    let moved = ledger.transfer_from(c, a, d, 60, false);
    assert_eq!(moved, Ok(Transfer { from: Some(a), to: Some(d), value: 60 }));
    assert_eq!(ledger.allowance(a, c), 40);
    assert_eq!(ledger.balance_of(a), 640);
    assert_eq!(ledger.balance_of(d), 60);
    assert_eq!(ledger.balance_of(b), 300);
    assert_eq!(ledger.total_supply(), 1000);
    assert_eq!(sum_of_balances(&ledger), 1000);
}

#[test]
fn transfer_without_funds_changes_nothing() {
    let (a, b, e) = (account(1), account(2), account(5));
    let (mut ledger, _) = Psp22Ink::new(a, 1000);
    ledger.transfer(a, b, 300, false).unwrap();
    assert_eq!(ledger.balance_of(e), 0);
    assert_eq!(ledger.transfer(e, b, 1, false), Err(PSP22Error::InsufficientBalance));
    assert_eq!(ledger.balance_of(e), 0);
    assert_eq!(ledger.balance_of(b), 300);
    assert_eq!(ledger.balance_of(a), 700);
    assert_eq!(sum_of_balances(&ledger), 1000);
}

#[test]
fn balance_is_checked_before_the_recipient() {
    let (a, b) = (account(1), account(2));
    let (mut ledger, _) = Psp22Ink::new(a, 1000);
    ledger.transfer(a, b, 5, false).unwrap();
    assert_eq!(ledger.balance_of(b), 5);
    assert_eq!(ledger.transfer(b, zero(), 10, false), Err(PSP22Error::InsufficientBalance));
    assert_eq!(ledger.balance_of(b), 5);
    assert_eq!(ledger.balance_of(zero()), 0);
}

#[test]
fn balance_is_checked_before_the_sender() {
    let (a, b) = (account(1), account(2));
    let (mut ledger, _) = Psp22Ink::new(a, 1000);
    assert_eq!(ledger.transfer(zero(), b, 1, false), Err(PSP22Error::InsufficientBalance));
    assert_eq!(ledger.transfer(zero(), b, 0, false), Err(PSP22Error::ZeroSenderAddress));
}

#[test]
fn sender_is_checked_before_the_recipient() {
    let (mut ledger, _) = Psp22Ink::new(zero(), 1000);
    assert_eq!(ledger.balance_of(zero()), 1000);
    assert_eq!(ledger.transfer(zero(), zero(), 10, false), Err(PSP22Error::ZeroSenderAddress));
    assert_eq!(ledger.transfer(zero(), zero(), 10, true), Err(PSP22Error::ZeroSenderAddress));
    assert_eq!(ledger.transfer(zero(), account(2), 10, false), Err(PSP22Error::ZeroSenderAddress));
    assert_eq!(ledger.balance_of(zero()), 1000);
    assert_eq!(ledger.balance_of(account(2)), 0);
}

#[test]
fn transfer_to_the_zero_identifier_is_rejected() {
    let a = account(1);
    let (mut ledger, _) = Psp22Ink::new(a, 1000);
    assert_eq!(ledger.transfer(a, zero(), 10, false), Err(PSP22Error::ZeroRecipientAddress));
    assert_eq!(ledger.transfer(a, zero(), 0, false), Err(PSP22Error::ZeroRecipientAddress));
    assert_eq!(ledger.transfer(a, zero(), 10, true), Err(PSP22Error::ZeroRecipientAddress));
    assert_eq!(ledger.balance_of(a), 1000);
    assert_eq!(ledger.balance_of(zero()), 0);
}

#[test]
fn transfer_to_a_contract_is_rejected() {
    let (a, b) = (account(1), account(2));
    let (mut ledger, _) = Psp22Ink::new(a, 1000);
    assert_eq!(
        ledger.transfer(a, b, 10, true),
        Err(PSP22Error::SafeTransferCheckFailed(REASON.to_string()))
    );
    assert_eq!(ledger.balance_of(a), 1000);
    assert_eq!(ledger.balance_of(b), 0);
    assert!(ledger.transfer(a, b, 10, false).is_ok());
}

#[test]
fn contract_recipient_error_carries_the_reason() {
    assert_eq!(
        PSP22Error::contract_recipient(),
        PSP22Error::SafeTransferCheckFailed(REASON.to_string())
    );
}

#[test]
fn custom_error_is_no_ledger_error() {
    let custom = PSP22Error::Custom("closed".to_string());
    assert_ne!(custom, PSP22Error::InsufficientBalance);
    assert_ne!(custom, PSP22Error::SafeTransferCheckFailed("closed".to_string()));
    assert_eq!(custom, PSP22Error::Custom("closed".to_string()));
}

#[test]
fn transfer_to_oneself_keeps_the_balance() {
    let a = account(1);
    let (mut ledger, _) = Psp22Ink::new(a, 1000);
    assert_eq!(
        ledger.transfer(a, a, 400, false),
        Ok(Transfer { from: Some(a), to: Some(a), value: 400 })
    );
    assert_eq!(ledger.balance_of(a), 1000);
    assert_eq!(ledger.transfer(a, a, 1000, false).map(|event| event.value), Ok(1000));
    assert_eq!(ledger.balance_of(a), 1000);
    assert_eq!(ledger.transfer(a, a, 1001, false), Err(PSP22Error::InsufficientBalance));
    assert_eq!(sum_of_balances(&ledger), 1000);
}

#[test]
fn transfer_of_nothing_is_accepted() {
    let (a, b) = (account(1), account(2));
    let (mut ledger, _) = Psp22Ink::new(a, 1000);
    assert_eq!(
        ledger.transfer(b, a, 0, false),
        Ok(Transfer { from: Some(b), to: Some(a), value: 0 })
    );
    assert_eq!(ledger.balance_of(a), 1000);
    assert_eq!(ledger.balance_of(b), 0);
}

#[test]
fn transfer_of_the_whole_balance() {
    let (a, b) = (account(1), account(2));
    let (mut ledger, _) = Psp22Ink::new(a, 1000);
    assert!(ledger.transfer(a, b, 1000, false).is_ok());
    assert_eq!(ledger.balance_of(a), 0);
    assert_eq!(ledger.balance_of(b), 1000);
    assert_eq!(ledger.transfer(a, b, 1, false), Err(PSP22Error::InsufficientBalance));
}

#[test]
fn transfer_from_checks_in_order() {
    let (a, b, c) = (account(1), account(2), account(3));
    let (mut ledger, _) = Psp22Ink::new(a, 100);

    // No allowance at all: the allowance fails first, whatever else is wrong.
    assert_eq!(ledger.transfer_from(c, a, b, 1, false), Err(PSP22Error::InsufficientAllowance));
    assert_eq!(ledger.transfer_from(c, zero(), zero(), 1, true), Err(PSP22Error::InsufficientAllowance));

    // Allowance suffices, balance does not.
    ledger.approve(a, c, 500).unwrap();
    assert_eq!(ledger.transfer_from(c, a, b, 101, false), Err(PSP22Error::InsufficientBalance));
    assert_eq!(ledger.transfer_from(c, a, zero(), 101, true), Err(PSP22Error::InsufficientBalance));
    ledger.approve(zero(), c, 500).unwrap();
    assert_eq!(ledger.transfer_from(c, zero(), b, 1, false), Err(PSP22Error::InsufficientBalance));

    // Both suffice: sender, then recipient, then the contract check.
    assert_eq!(ledger.transfer_from(c, zero(), zero(), 0, true), Err(PSP22Error::ZeroSenderAddress));
    assert_eq!(ledger.transfer_from(c, a, zero(), 10, true), Err(PSP22Error::ZeroRecipientAddress));
    assert_eq!(
        ledger.transfer_from(c, a, b, 10, true),
        Err(PSP22Error::SafeTransferCheckFailed(REASON.to_string()))
    );

    // Nothing was consumed or moved by the rejected calls.
    assert_eq!(ledger.allowance(a, c), 500);
    assert_eq!(ledger.balance_of(a), 100);
    assert_eq!(ledger.balance_of(b), 0);
    assert_eq!(ledger.transfer_from(c, a, b, 10, false).map(|event| event.value), Ok(10));
    assert_eq!(ledger.allowance(a, c), 490);
}

#[test]
fn transfer_from_consumes_exactly_the_value() {
    let (a, b, c, d) = (account(1), account(2), account(3), account(4));
    let (mut ledger, _) = Psp22Ink::new(a, 1000);
    ledger.approve(a, c, 100).unwrap();
    ledger.approve(a, d, 70).unwrap();
    ledger.approve(b, c, 30).unwrap();
    assert!(ledger.transfer_from(c, a, b, 25, false).is_ok());
    assert_eq!(ledger.allowance(a, c), 75);
    assert_eq!(ledger.allowance(a, d), 70);
    assert_eq!(ledger.allowance(b, c), 30);
    assert_eq!(ledger.allowance(c, a), 0);
    assert!(ledger.transfer_from(c, a, b, 75, false).is_ok());
    assert_eq!(ledger.allowance(a, c), 0);
    assert_eq!(ledger.transfer_from(c, a, b, 1, false), Err(PSP22Error::InsufficientAllowance));
    assert_eq!(ledger.balance_of(a), 900);
    assert_eq!(ledger.balance_of(b), 100);
    assert_eq!(sum_of_balances(&ledger), 1000);
}

#[test]
fn transfer_from_by_the_owner_needs_an_allowance_too() {
    let (a, b) = (account(1), account(2));
    let (mut ledger, _) = Psp22Ink::new(a, 1000);
    assert_eq!(ledger.transfer_from(a, a, b, 1, false), Err(PSP22Error::InsufficientAllowance));
    ledger.approve(a, a, 10).unwrap();
    assert!(ledger.transfer_from(a, a, b, 10, false).is_ok());
    assert_eq!(ledger.allowance(a, a), 0);
    assert_eq!(ledger.balance_of(b), 10);
}

#[test]
fn transfer_from_to_the_sender_keeps_the_balance() {
    let (a, c) = (account(1), account(3));
    let (mut ledger, _) = Psp22Ink::new(a, 1000);
    ledger.approve(a, c, 100).unwrap();
    assert!(ledger.transfer_from(c, a, a, 40, false).is_ok());
    assert_eq!(ledger.balance_of(a), 1000);
    assert_eq!(ledger.allowance(a, c), 60);
}

#[test]
fn approve_overwrites() {
    let (a, c) = (account(1), account(3));
    let (mut ledger, _) = Psp22Ink::new(a, 1000);
    assert_eq!(ledger.approve(a, c, 100), Ok(Approval { owner: a, spender: c, value: 100 }));
    assert_eq!(ledger.allowance(a, c), 100);
    assert_eq!(ledger.approve(a, c, 30), Ok(Approval { owner: a, spender: c, value: 30 }));
    assert_eq!(ledger.allowance(a, c), 30);
    assert_eq!(ledger.approve(a, c, 0), Ok(Approval { owner: a, spender: c, value: 0 }));
    assert_eq!(ledger.allowance(a, c), 0);
    assert_eq!(ledger.allowance(c, a), 0);
}

#[test]
fn approve_checks_nothing() {
    let a = account(1);
    let (mut ledger, _) = Psp22Ink::new(a, 10);
    assert_eq!(
        ledger.approve(zero(), zero(), Balance::MAX),
        Ok(Approval { owner: zero(), spender: zero(), value: Balance::MAX })
    );
    assert_eq!(ledger.allowance(zero(), zero()), Balance::MAX);
    assert_eq!(
        ledger.approve(a, zero(), 5000),
        Ok(Approval { owner: a, spender: zero(), value: 5000 })
    );
    assert_eq!(ledger.allowance(a, zero()), 5000);
    assert_eq!(ledger.balance_of(a), 10);
}

#[test]
fn increase_allowance_adds() {
    let (a, c) = (account(1), account(3));
    let (mut ledger, _) = Psp22Ink::new(a, 1000);
    assert_eq!(ledger.increase_allowance(a, c, 10), Ok(Approval { owner: a, spender: c, value: 10 }));
    assert_eq!(ledger.increase_allowance(a, c, 32), Ok(Approval { owner: a, spender: c, value: 42 }));
    assert_eq!(ledger.allowance(a, c), 42);
    assert_eq!(ledger.increase_allowance(a, c, 0), Ok(Approval { owner: a, spender: c, value: 42 }));
    assert_eq!(ledger.allowance(a, c), 42);
}

#[test]
fn increase_allowance_rejects_the_zero_identifier() {
    let (a, c) = (account(1), account(3));
    let (mut ledger, _) = Psp22Ink::new(a, 1000);
    assert_eq!(ledger.increase_allowance(zero(), c, 10), Err(PSP22Error::ZeroSenderAddress));
    assert_eq!(ledger.increase_allowance(zero(), zero(), 10), Err(PSP22Error::ZeroSenderAddress));
    assert_eq!(ledger.increase_allowance(a, zero(), 10), Err(PSP22Error::ZeroRecipientAddress));
    assert_eq!(ledger.allowance(zero(), c), 0);
    assert_eq!(ledger.allowance(a, zero()), 0);
}

#[test]
fn increase_allowance_up_to_the_largest_amount() {
    let (a, c) = (account(1), account(3));
    let (mut ledger, _) = Psp22Ink::new(a, 1000);
    ledger.approve(a, c, Balance::MAX - 1).unwrap();
    assert_eq!(
        ledger.increase_allowance(a, c, 1),
        Ok(Approval { owner: a, spender: c, value: Balance::MAX })
    );
    assert_eq!(ledger.allowance(a, c), Balance::MAX);
    assert_eq!(
        ledger.increase_allowance(a, c, 0),
        Ok(Approval { owner: a, spender: c, value: Balance::MAX })
    );
}

#[test]
fn checked_increase_allowance_fails_beyond_the_largest_amount() {
    let (a, c) = (account(1), account(3));
    let (mut ledger, _) = Psp22Ink::new(a, 1000);
    ledger.approve(a, c, Balance::MAX - 1).unwrap();
    assert_eq!(ledger.checked_increase_allowance(a, c, 2), None);
    assert_eq!(ledger.checked_increase_allowance(a, c, Balance::MAX), None);
    assert_eq!(ledger.allowance(a, c), Balance::MAX - 1);
    assert_eq!(
        ledger.checked_increase_allowance(a, c, 1),
        Some(Ok(Approval { owner: a, spender: c, value: Balance::MAX }))
    );
    assert_eq!(ledger.allowance(a, c), Balance::MAX);
    assert_eq!(ledger.checked_increase_allowance(a, c, 1), None);
    assert_eq!(
        ledger.checked_increase_allowance(a, c, 0),
        Some(Ok(Approval { owner: a, spender: c, value: Balance::MAX }))
    );
    assert_eq!(ledger.allowance(a, c), Balance::MAX);
}

#[test]
fn checked_increase_allowance_adds() {
    let (a, c) = (account(1), account(3));
    let (mut ledger, _) = Psp22Ink::new(a, 1000);
    assert_eq!(
        ledger.checked_increase_allowance(a, c, 10),
        Some(Ok(Approval { owner: a, spender: c, value: 10 }))
    );
    assert_eq!(
        ledger.checked_increase_allowance(a, c, 32),
        Some(Ok(Approval { owner: a, spender: c, value: 42 }))
    );
    assert_eq!(ledger.allowance(a, c), 42);
}

#[test]
fn a_rejected_raise_is_rejected_before_any_addition() {
    let (a, c) = (account(1), account(3));
    let (mut ledger, _) = Psp22Ink::new(a, 1000);
    ledger.approve(zero(), c, Balance::MAX).unwrap();
    ledger.approve(a, zero(), Balance::MAX).unwrap();
    assert_eq!(
        ledger.checked_increase_allowance(zero(), c, Balance::MAX),
        Some(Err(PSP22Error::ZeroSenderAddress))
    );
    assert_eq!(
        ledger.checked_increase_allowance(a, zero(), Balance::MAX),
        Some(Err(PSP22Error::ZeroRecipientAddress))
    );
    assert_eq!(ledger.increase_allowance(zero(), c, Balance::MAX), Err(PSP22Error::ZeroSenderAddress));
    assert_eq!(ledger.increase_allowance(a, zero(), Balance::MAX), Err(PSP22Error::ZeroRecipientAddress));
    assert_eq!(ledger.allowance(zero(), c), Balance::MAX);
    assert_eq!(ledger.allowance(a, zero()), Balance::MAX);
}

#[test]
fn decrease_allowance_subtracts() {
    let (a, c) = (account(1), account(3));
    let (mut ledger, _) = Psp22Ink::new(a, 1000);
    ledger.approve(a, c, 100).unwrap();
    assert_eq!(ledger.decrease_allowance(a, c, 58), Ok(Approval { owner: a, spender: c, value: 42 }));
    assert_eq!(ledger.allowance(a, c), 42);
    assert_eq!(ledger.decrease_allowance(a, c, 0), Ok(Approval { owner: a, spender: c, value: 42 }));
    assert_eq!(ledger.decrease_allowance(a, c, 42), Ok(Approval { owner: a, spender: c, value: 0 }));
    assert_eq!(ledger.allowance(a, c), 0);
}

#[test]
fn decrease_allowance_checks_in_order() {
    let (a, c) = (account(1), account(3));
    let (mut ledger, _) = Psp22Ink::new(a, 1000);
    ledger.approve(a, c, 100).unwrap();
    assert_eq!(ledger.decrease_allowance(a, c, 101), Err(PSP22Error::InsufficientAllowance));
    assert_eq!(ledger.decrease_allowance(zero(), zero(), 1), Err(PSP22Error::InsufficientAllowance));
    assert_eq!(ledger.decrease_allowance(zero(), zero(), 0), Err(PSP22Error::ZeroSenderAddress));
    assert_eq!(ledger.decrease_allowance(zero(), c, 0), Err(PSP22Error::ZeroSenderAddress));
    assert_eq!(ledger.decrease_allowance(a, zero(), 0), Err(PSP22Error::ZeroRecipientAddress));
    ledger.approve(a, zero(), 7).unwrap();
    assert_eq!(ledger.decrease_allowance(a, zero(), 7), Err(PSP22Error::ZeroRecipientAddress));
    assert_eq!(ledger.allowance(a, zero()), 7);
    assert_eq!(ledger.allowance(a, c), 100);
}

#[test]
fn allowances_do_not_limit_the_owner() {
    let (a, b, c) = (account(1), account(2), account(3));
    let (mut ledger, _) = Psp22Ink::new(a, 1000);
    ledger.approve(a, c, 100).unwrap();
    assert!(ledger.transfer(a, b, 1000, false).is_ok());
    assert_eq!(ledger.allowance(a, c), 100);
    assert_eq!(ledger.transfer_from(c, a, b, 1, false), Err(PSP22Error::InsufficientBalance));
    assert_eq!(ledger.allowance(a, c), 100);
}

#[test]
fn balances_add_up_after_many_calls() {
    let accounts: Vec<AccountId> = (1..=6).map(account).collect();
    let (mut ledger, _) = Psp22Ink::new(accounts[0], 1_000_000);
    let mut seed: u64 = 7;
    for round in 0..400u64 {
        seed = seed.wrapping_mul(6364136223846793005).wrapping_add(1442695040888963407);
        let from = accounts[(seed >> 33) as usize % 6];
        let to = accounts[(seed >> 40) as usize % 6];
        let spender = accounts[(seed >> 47) as usize % 6];
        let value = ((seed >> 12) % 5000) as Balance;
        match round % 4 {
            0 => {
                let _ = ledger.transfer(from, to, value, false);
            }
            1 => {
                let _ = ledger.approve(from, spender, value);
            }
            2 => {
                let _ = ledger.transfer_from(spender, from, to, value, false);
            }
            _ => {
                let _ = ledger.transfer(from, to, value, seed % 3 == 0);
            }
        }
        assert_eq!(sum_of_balances(&ledger), 1_000_000);
        assert_eq!(ledger.total_supply(), 1_000_000);
    }
    let total: Balance = accounts.iter().map(|account| ledger.balance_of(*account)).sum();
    assert_eq!(total, 1_000_000);
}

#[test]
fn restore_brings_a_ledger_back() {
    let (a, b, c) = (account(1), account(2), account(3));
    let (mut ledger, _) = Psp22Ink::new(a, 1000);
    ledger.transfer(a, b, 300, false).unwrap();
    ledger.approve(a, c, 100).unwrap();
    ledger.approve(b, c, 5).unwrap();

    let balances = ledger.balance_entries().clone();
    let allowances = ledger.allowance_entries().clone();
    assert_eq!(balances.len(), 2);
    assert!(balances.contains(&(a, 700)));
    assert!(balances.contains(&(b, 300)));
    assert_eq!(allowances.len(), 2);
    assert!(allowances.contains(&((a, c), 100)));
    assert!(allowances.contains(&((b, c), 5)));

    let mut again = Psp22Ink::restore(ledger.total_supply(), balances, allowances).unwrap();
    assert_eq!(again.total_supply(), 1000);
    assert_eq!(again.balance_of(a), 700);
    assert_eq!(again.balance_of(b), 300);
    assert_eq!(again.balance_of(c), 0);
    assert_eq!(again.allowance(a, c), 100);
    assert_eq!(again.allowance(b, c), 5);
    assert_eq!(again.allowance(c, a), 0);
    assert!(again.transfer_from(c, a, b, 100, false).is_ok());
    assert_eq!(again.balance_of(b), 400);
}

#[test]
fn restore_rejects_balances_that_do_not_add_up() {
    let (a, b) = (account(1), account(2));
    assert!(Psp22Ink::restore(1000, vec![(a, 700), (b, 299)], vec![]).is_none());
    assert!(Psp22Ink::restore(1000, vec![(a, 700), (b, 301)], vec![]).is_none());
    assert!(Psp22Ink::restore(1000, vec![], vec![]).is_none());
    assert!(Psp22Ink::restore(0, vec![], vec![]).is_some());
    assert!(Psp22Ink::restore(0, vec![(a, 0)], vec![]).is_some());
    assert!(Psp22Ink::restore(1000, vec![(a, 700), (b, 300)], vec![]).is_some());
}

#[test]
fn restore_rejects_a_sum_beyond_the_largest_amount() {
    let (a, b, c) = (account(1), account(2), account(3));
    assert!(Psp22Ink::restore(0, vec![(a, Balance::MAX), (b, 1)], vec![]).is_none());
    assert!(Psp22Ink::restore(Balance::MAX, vec![(a, Balance::MAX), (b, 1)], vec![]).is_none());
    assert!(Psp22Ink::restore(5, vec![(a, Balance::MAX), (b, 3), (c, 3)], vec![]).is_none());
    assert!(Psp22Ink::restore(Balance::MAX, vec![(a, Balance::MAX - 1), (b, 1)], vec![]).is_some());
}

#[test]
fn restore_rejects_a_repeated_key() {
    let (a, b, c) = (account(1), account(2), account(3));
    assert!(Psp22Ink::restore(10, vec![(a, 5), (a, 5)], vec![]).is_none());
    assert!(Psp22Ink::restore(10, vec![(a, 5), (b, 0), (a, 5)], vec![]).is_none());
    assert!(Psp22Ink::restore(5, vec![(a, 5)], vec![((a, b), 1), ((a, b), 1)]).is_none());
    assert!(Psp22Ink::restore(5, vec![(a, 5)], vec![((a, b), 1), ((b, a), 1), ((a, c), 1)]).is_some());
}
