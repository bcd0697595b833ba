//! The laws the ledger obeys, stated over the transition functions that the
//! executable operations in `model` are specified against, and proved once
//! and for all.

use vstd::prelude::*;

use crate::model::{
    deposit_outcome, deposit_step, deposited, withdraw_outcome, withdraw_step, withdrawn, Account,
    BankError, Deposit, Money, Withdrawal,
};

verus! {

/// One balance-affecting operation, as the ledger linearizes them.
pub enum LedgerOp {
    Deposit(Deposit),
    Withdraw(Withdrawal),
}

/// The account mapping after one operation has been applied; a failing
/// operation leaves it untouched.
pub open spec fn ledger_step(accounts: Map<u128, Account>, op: LedgerOp) -> Map<u128, Account> {
    match op {
        LedgerOp::Deposit(deposit) => deposit_step(
            accounts,
            deposit.account_id,
            deposit.deposit_value,
        ),
        LedgerOp::Withdraw(withdrawal) => withdraw_step(
            accounts,
            withdrawal.account_id,
            withdrawal.withdrawal_value,
        ),
    }
}

/// The account mapping after a whole sequence of operations, applied in
/// order.
pub open spec fn run_ops(accounts: Map<u128, Account>, ops: Seq<LedgerOp>) -> Map<u128, Account>
    decreases ops.len(),
{
    if ops.len() == 0 {
        accounts
    } else {
        run_ops(ledger_step(accounts, ops[0]), ops.drop_first())
    }
}

/// Balance non-negativity: whatever sequence of deposits and withdrawals is
/// applied — in particular after each single step of it — every account's
/// balance is at least zero.
pub proof fn law_balance_nonnegativity(
    accounts: Map<u128, Account>,
    ops: Seq<LedgerOp>,
    account_id: u128,
)
    requires
        run_ops(accounts, ops).contains_key(account_id),
    ensures
        run_ops(accounts, ops)[account_id].balance.amount >= 0,
{
}

/// The other half of balance non-negativity: a withdrawal that would
/// overdraw the account is rejected as `InsufficientFunds` and leaves the
/// whole mapping — in particular the balance — unchanged.
pub proof fn law_overdraw_rejected(accounts: Map<u128, Account>, account_id: u128, value: Money)
    requires
        accounts.contains_key(account_id),
        accounts[account_id].balance.currency@ == value.currency@,
        value.amount > accounts[account_id].balance.amount,
    ensures
        withdraw_outcome(accounts, account_id, value) == Err::<Account, BankError>(
            BankError::InsufficientFunds,
        ),
        withdraw_step(accounts, account_id, value) == accounts,
{
}

/// Deposit additivity: a same-currency deposit of amount `D` against a
/// balance `B` succeeds and yields the balance `B + D`, both in the returned
/// account and in the stored one.
pub proof fn law_deposit_additivity(accounts: Map<u128, Account>, account_id: u128, value: Money)
    requires
        accounts.contains_key(account_id),
        accounts[account_id].balance.currency@ == value.currency@,
        accounts[account_id].balance.amount + value.amount <= u64::MAX,
    ensures
        deposit_outcome(accounts, account_id, value) == Ok::<Account, BankError>(
            deposited(accounts[account_id], value),
        ),
        deposited(accounts[account_id], value).balance.amount == accounts[account_id].balance.amount
            + value.amount,
        deposit_step(accounts, account_id, value)[account_id].balance.amount
            == accounts[account_id].balance.amount + value.amount,
{
}

/// Withdrawal subtractivity: a same-currency withdrawal of amount `W <= B`
/// against a balance `B` succeeds and yields the balance `B - W`, both in
/// the returned account and in the stored one.
pub proof fn law_withdraw_subtractivity(accounts: Map<u128, Account>, account_id: u128, value: Money)
    requires
        accounts.contains_key(account_id),
        accounts[account_id].balance.currency@ == value.currency@,
        value.amount <= accounts[account_id].balance.amount,
    ensures
        withdraw_outcome(accounts, account_id, value) == Ok::<Account, BankError>(
            withdrawn(accounts[account_id], value),
        ),
        withdrawn(accounts[account_id], value).balance.amount == accounts[account_id].balance.amount
            - value.amount,
        withdraw_step(accounts, account_id, value)[account_id].balance.amount
            == accounts[account_id].balance.amount - value.amount,
{
}

/// Currency guard: a deposit or withdrawal whose currency differs from the
/// account's is rejected as `CurrencyMismatch` and leaves the mapping — in
/// particular the balance — unchanged.
pub proof fn law_currency_guard(accounts: Map<u128, Account>, account_id: u128, value: Money)
    requires
        accounts.contains_key(account_id),
        accounts[account_id].balance.currency@ != value.currency@,
    ensures
        deposit_outcome(accounts, account_id, value) == Err::<Account, BankError>(
            BankError::CurrencyMismatch,
        ),
        deposit_step(accounts, account_id, value) == accounts,
        withdraw_outcome(accounts, account_id, value) == Err::<Account, BankError>(
            BankError::CurrencyMismatch,
        ),
        withdraw_step(accounts, account_id, value) == accounts,
{
}

/// Concurrent withdrawal safety, as the linearization guarantee leaves it:
/// two same-currency withdrawals that each fit the starting balance but do
/// not both fit it compose, in either order, so that exactly the first
/// succeeds and the second fails with `InsufficientFunds`; no interleaving
/// lets both appear to succeed, and the balance stays non-negative.
pub proof fn law_concurrent_withdrawal_safety(
    accounts: Map<u128, Account>,
    account_id: u128,
    first: Money,
    second: Money,
)
    requires
        accounts.contains_key(account_id),
        first.currency@ == accounts[account_id].balance.currency@,
        second.currency@ == accounts[account_id].balance.currency@,
        first.amount <= accounts[account_id].balance.amount,
        second.amount <= accounts[account_id].balance.amount,
        first.amount + second.amount > accounts[account_id].balance.amount,
    ensures
        withdraw_outcome(accounts, account_id, first) is Ok,
        withdraw_outcome(
            withdraw_step(accounts, account_id, first),
            account_id,
            second,
        ) == Err::<Account, BankError>(BankError::InsufficientFunds),
        withdraw_step(
            withdraw_step(accounts, account_id, first),
            account_id,
            second,
        )[account_id].balance.amount == accounts[account_id].balance.amount - first.amount,
{
}

} // verus!
