//! The ledger's data model: holders, money, accounts, and the ledger state
//! itself. The balance-affecting operations are specified against the
//! transition functions `deposit_step` and `withdraw_step`, so that the laws
//! in `laws` speak of exactly what the executable code does.

use std::collections::HashMap;
use vstd::prelude::*;

verus! {

/// A registered account holder. The identifier is absent until the registry
/// assigns one; every holder stored in the registry carries its identifier.
pub struct User {
    pub id: Option<u128>,
    pub first_name: String,
    pub last_name: String,
}

impl Clone for User {
    fn clone(&self) -> (user: User)
        ensures
            user == *self,
    {
        User {
            id: self.id,
            first_name: self.first_name.clone(),
            last_name: self.last_name.clone(),
        }
    }
}

/// An amount in the smallest currency unit, paired with a currency code.
/// Arithmetic is only defined between values of the same currency.
#[derive(PartialEq)]
pub struct Money {
    pub amount: u64,
    pub currency: String,
}

impl Money {
    pub fn new(amount: u64, currency: &str) -> (m: Money)
        ensures
            m.amount == amount,
            m.currency@ == currency@,
    {
        Money { amount, currency: currency.to_string() }
    }

    pub fn zero(currency: &str) -> (m: Money)
        ensures
            m.amount == 0,
            m.currency@ == currency@,
    {
        Money { amount: 0, currency: currency.to_string() }
    }
}

impl Clone for Money {
    fn clone(&self) -> (m: Money)
        ensures
            m == *self,
    {
        Money { amount: self.amount, currency: self.currency.clone() }
    }
}

/// The currency every account is opened in.
pub open spec fn default_currency() -> Seq<char> {
    "USD"@
}

/// A balance-bearing account owned by one holder, denominated in a single
/// fixed currency. The balance amount is an unsigned integer, so a balance
/// can never be negative.
pub struct Account {
    pub id: Option<u128>,
    pub account_holder: u128,
    pub balance: Money,
}

impl Account {
    /// An account record without an identifier, as a caller hands it in
    /// before the ledger assigns one.
    pub fn create(account_holder: u128) -> (account: Account)
        ensures
            account.id is None,
            account.account_holder == account_holder,
            account.balance.amount == 0,
            account.balance.currency@ == default_currency(),
    {
        Account {
            id: None,
            account_holder,
            balance: Money { amount: 0, currency: "USD".to_string() },
        }
    }

    /// A freshly identified account with a zero balance in the default
    /// currency. The identifier is a random draw, so no more can be said of
    /// it than that one is present.
    pub fn new_with_id(account_holder: u128) -> (account: Account)
        ensures
            account.id is Some,
            account.account_holder == account_holder,
            account.balance.amount == 0,
            account.balance.currency@ == default_currency(),
    {
        Account {
            id: Some(crate::ids::fresh_id()),
            account_holder,
            balance: Money { amount: 0, currency: "USD".to_string() },
        }
    }
}

impl Clone for Account {
    fn clone(&self) -> (account: Account)
        ensures
            account == *self,
    {
        Account {
            id: self.id,
            account_holder: self.account_holder,
            balance: self.balance.clone(),
        }
    }
}

/// A request to add money to an account; consumed by exactly one operation.
pub struct Deposit {
    pub account_id: u128,
    pub deposit_value: Money,
}

impl Deposit {
    pub fn new(account_id: &u128, deposit_value: Money) -> (deposit: Deposit)
        ensures
            deposit.account_id == *account_id,
            deposit.deposit_value == deposit_value,
    {
        Deposit { account_id: *account_id, deposit_value }
    }
}

/// A request to take money out of an account; consumed by exactly one
/// operation.
pub struct Withdrawal {
    pub account_id: u128,
    pub withdrawal_value: Money,
}

impl Withdrawal {
    pub fn new(account_id: &u128, withdrawal_value: Money) -> (withdrawal: Withdrawal)
        ensures
            withdrawal.account_id == *account_id,
            withdrawal.withdrawal_value == withdrawal_value,
    {
        Withdrawal { account_id: *account_id, withdrawal_value }
    }
}

/// The failure kinds of the ledger's operations. Every failure leaves the
/// ledger unchanged.
#[derive(Clone, Copy, PartialEq, Eq, Structural, Debug)]
pub enum BankError {
    HolderNotFound,
    AccountNotFound,
    CurrencyMismatch,
    InsufficientFunds,
}

/// The account as it stands after a deposit of `value` has been applied.
pub open spec fn deposited(account: Account, value: Money) -> Account {
    Account {
        id: account.id,
        account_holder: account.account_holder,
        balance: Money {
            amount: (account.balance.amount + value.amount) as u64,
            currency: account.balance.currency,
        },
    }
}

/// The account as it stands after a withdrawal of `value` has been applied.
pub open spec fn withdrawn(account: Account, value: Money) -> Account {
    Account {
        id: account.id,
        account_holder: account.account_holder,
        balance: Money {
            amount: (account.balance.amount - value.amount) as u64,
            currency: account.balance.currency,
        },
    }
}

/// What a deposit against `accounts` returns: the updated account, or the
/// failure that leaves the ledger unchanged.
pub open spec fn deposit_outcome(
    accounts: Map<u128, Account>,
    account_id: u128,
    value: Money,
) -> Result<Account, BankError> {
    if !accounts.contains_key(account_id) {
        Err(BankError::AccountNotFound)
    } else if accounts[account_id].balance.currency@ != value.currency@ {
        Err(BankError::CurrencyMismatch)
    } else {
        Ok(deposited(accounts[account_id], value))
    }
}

/// The account mapping after a deposit: updated on success, untouched on any
/// failure.
pub open spec fn deposit_step(
    accounts: Map<u128, Account>,
    account_id: u128,
    value: Money,
) -> Map<u128, Account> {
    match deposit_outcome(accounts, account_id, value) {
        Ok(account) => accounts.insert(account_id, account),
        Err(_) => accounts,
    }
}

/// What a withdrawal against `accounts` returns: the updated account, or the
/// failure that leaves the ledger unchanged. A withdrawal of more than the
/// current balance is refused, so a balance never goes negative.
pub open spec fn withdraw_outcome(
    accounts: Map<u128, Account>,
    account_id: u128,
    value: Money,
) -> Result<Account, BankError> {
    if !accounts.contains_key(account_id) {
        Err(BankError::AccountNotFound)
    } else if accounts[account_id].balance.currency@ != value.currency@ {
        Err(BankError::CurrencyMismatch)
    } else if value.amount > accounts[account_id].balance.amount {
        Err(BankError::InsufficientFunds)
    } else {
        Ok(withdrawn(accounts[account_id], value))
    }
}

/// The account mapping after a withdrawal: updated on success, untouched on
/// any failure.
pub open spec fn withdraw_step(
    accounts: Map<u128, Account>,
    account_id: u128,
    value: Money,
) -> Map<u128, Account> {
    match withdraw_outcome(accounts, account_id, value) {
        Ok(account) => accounts.insert(account_id, account),
        Err(_) => accounts,
    }
}

/// A deposit must not push a balance past what a `u64` can hold; the caller
/// owes this bound before applying one.
pub open spec fn deposit_fits(
    accounts: Map<u128, Account>,
    account_id: u128,
    value: Money,
) -> bool {
    accounts.contains_key(account_id) && accounts[account_id].balance.currency@ == value.currency@
        ==> accounts[account_id].balance.amount + value.amount <= u64::MAX
}

/// The whole ledger: the holder registry and the account mapping. A single
/// context object owns both; callers that share it serialize their calls.
pub struct Model {
    pub users: HashMap<u128, User>,
    pub accounts: HashMap<u128, Account>,
}

impl Model {
    /// Well-formedness: every stored holder and account carries the
    /// identifier it is keyed under, and every account's holder is
    /// registered.
    pub open spec fn wf(self) -> bool {
        &&& forall|id: u128| #[trigger]
            self.users@.contains_key(id) ==> self.users@[id].id == Some(id)
        &&& forall|id: u128| #[trigger]
            self.accounts@.contains_key(id) ==> self.accounts@[id].id == Some(id)
        &&& forall|id: u128| #[trigger]
            self.accounts@.contains_key(id) ==> self.users@.contains_key(
                self.accounts@[id].account_holder,
            )
    }

    pub fn new() -> (model: Model)
        ensures
            model.users@ == Map::<u128, User>::empty(),
            model.accounts@ == Map::<u128, Account>::empty(),
            model.wf(),
    {
        Model { users: HashMap::new(), accounts: HashMap::new() }
    }

    /// Registers a holder under a freshly drawn identifier and returns the
    /// stored record. Registration never fails. The identifier is a random
    /// 128-bit draw, so the contract holds for every value it may take:
    /// whenever the draw misses every existing key — the collision-resistant
    /// scheme is chosen so that in practice it always does — the registry
    /// grows by one entry.
    pub fn new_user(&mut self, first_name: String, last_name: String) -> (user: User)
        requires
            old(self).wf(),
        ensures
            final(self).wf(),
            user.id is Some,
            user.first_name == first_name,
            user.last_name == last_name,
            final(self).users@ == old(self).users@.insert(user.id->Some_0, user),
            !old(self).users@.contains_key(user.id->Some_0) ==> final(self).users@.len() == old(
                self
            ).users@.len() + 1,
            final(self).accounts@ == old(self).accounts@,
    {
        let id: u128 = crate::ids::fresh_id();
        let user = User { id: Some(id), first_name, last_name };
        self.users.insert(id, user.clone());
        user
    }

    /// Returns a copy of the stored holder, or `HolderNotFound`.
    pub fn get_user(&self, user_id: u128) -> (result: Result<User, BankError>)
        ensures
            match result {
                Ok(user) => self.users@.contains_key(user_id) && user == self.users@[user_id],
                Err(e) => !self.users@.contains_key(user_id) && e == BankError::HolderNotFound,
            },
    {
        match self.users.get(&user_id) {
            Some(user) => Ok(user.clone()),
            None => Err(BankError::HolderNotFound),
        }
    }

    /// Opens an account for a registered holder: a fresh identifier, a zero
    /// balance in the default currency. Fails with `HolderNotFound`, and
    /// opens nothing, exactly when the holder is not registered.
    pub fn new_account(&mut self, account_holder: u128) -> (result: Result<Account, BankError>)
        requires
            old(self).wf(),
        ensures
            final(self).wf(),
            final(self).users@ == old(self).users@,
            result is Ok <==> old(self).users@.contains_key(account_holder),
            result is Err ==> result == Err::<Account, BankError>(BankError::HolderNotFound)
                && final(self).accounts@ == old(self).accounts@,
            result matches Ok(account) ==> {
                &&& account.id is Some
                &&& account.account_holder == account_holder
                &&& account.balance.amount == 0
                &&& account.balance.currency@ == default_currency()
                &&& final(self).accounts@ == old(self).accounts@.insert(
                    account.id->Some_0,
                    account,
                )
                &&& (!old(self).accounts@.contains_key(account.id->Some_0) ==> final(
                    self
                ).accounts@.len() == old(self).accounts@.len() + 1)
            },
    {
        if !self.users.contains_key(&account_holder) {
            return Err(BankError::HolderNotFound);
        }
        let account = Account::new_with_id(account_holder);
        let id = account.id.unwrap();
        self.accounts.insert(id, account.clone());
        Ok(account)
    }

    /// Returns a copy of the stored account, or `AccountNotFound`.
    pub fn get_account(&self, account_id: u128) -> (result: Result<Account, BankError>)
        ensures
            match result {
                Ok(account) => self.accounts@.contains_key(account_id) && account
                    == self.accounts@[account_id],
                Err(e) => !self.accounts@.contains_key(account_id) && e
                    == BankError::AccountNotFound,
            },
    {
        match self.accounts.get(&account_id) {
            Some(account) => Ok(account.clone()),
            None => Err(BankError::AccountNotFound),
        }
    }

    /// Applies a deposit: adds the amount to the account's balance once the
    /// account is found and the currencies agree, and returns a copy of the
    /// updated account; any failure leaves the ledger unchanged.
    pub fn apply_deposit(&mut self, deposit: Deposit) -> (result: Result<Account, BankError>)
        requires
            old(self).wf(),
            deposit_fits(old(self).accounts@, deposit.account_id, deposit.deposit_value),
        ensures
            final(self).wf(),
            final(self).users@ == old(self).users@,
            result == deposit_outcome(
                old(self).accounts@,
                deposit.account_id,
                deposit.deposit_value,
            ),
            final(self).accounts@ == deposit_step(
                old(self).accounts@,
                deposit.account_id,
                deposit.deposit_value,
            ),
    {
        let updated = match self.accounts.get(&deposit.account_id) {
            None => {
                return Err(BankError::AccountNotFound);
            },
            Some(account) => {
                if !(account.balance.currency == deposit.deposit_value.currency) {
                    return Err(BankError::CurrencyMismatch);
                }
                Account {
                    id: account.id,
                    account_holder: account.account_holder,
                    balance: Money {
                        amount: account.balance.amount + deposit.deposit_value.amount,
                        currency: account.balance.currency.clone(),
                    },
                }
            },
        };
        self.accounts.insert(deposit.account_id, updated.clone());
        Ok(updated)
    }

    /// Applies a withdrawal: subtracts the amount from the account's balance
    /// once the account is found, the currencies agree and the balance
    /// suffices, and returns a copy of the updated account; any failure
    /// leaves the ledger unchanged, so a balance never goes negative.
    pub fn apply_withdraw(&mut self, withdrawal: Withdrawal) -> (result: Result<
        Account,
        BankError,
    >)
        requires
            old(self).wf(),
        ensures
            final(self).wf(),
            final(self).users@ == old(self).users@,
            result == withdraw_outcome(
                old(self).accounts@,
                withdrawal.account_id,
                withdrawal.withdrawal_value,
            ),
            final(self).accounts@ == withdraw_step(
                old(self).accounts@,
                withdrawal.account_id,
                withdrawal.withdrawal_value,
            ),
    {
        let updated = match self.accounts.get(&withdrawal.account_id) {
            None => {
                return Err(BankError::AccountNotFound);
            },
            Some(account) => {
                if !(account.balance.currency == withdrawal.withdrawal_value.currency) {
                    return Err(BankError::CurrencyMismatch);
                }
                if withdrawal.withdrawal_value.amount > account.balance.amount {
                    return Err(BankError::InsufficientFunds);
                }
                Account {
                    id: account.id,
                    account_holder: account.account_holder,
                    balance: Money {
                        amount: account.balance.amount - withdrawal.withdrawal_value.amount,
                        currency: account.balance.currency.clone(),
                    },
                }
            },
        };
        self.accounts.insert(withdrawal.account_id, updated.clone());
        Ok(updated)
    }
}

} // verus!
