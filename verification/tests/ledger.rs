use banking::model::{BankError, Deposit, Model, Money, Withdrawal};

fn model_with_holder() -> (Model, u128) {
    let mut model = Model::new();
    let user = model.new_user("John".to_string(), "Doe".to_string());
    let holder_id = user.id.expect("registration assigns an id");
    (model, holder_id)
}

fn model_with_account() -> (Model, u128) {
    let (mut model, holder_id) = model_with_holder();
    let account = model.new_account(holder_id).expect("holder is registered");
    (model, account.id.expect("opening assigns an id"))
}

#[test]
fn money_new_and_zero() {
    let m = Money::new(42, "USD");
    assert!(m.amount == 42);
    assert!(m.currency == "USD");
    let z = Money::zero("EUR");
    assert!(z.amount == 0);
    assert!(z.currency == "EUR");
}

#[test]
fn register_returns_the_stored_holder() {
    let mut model = Model::new();
    let user = model.new_user("Ada".to_string(), "Lovelace".to_string());
    assert!(user.id.is_some());
    assert!(user.first_name == "Ada");
    assert!(user.last_name == "Lovelace");
    let fetched = model.get_user(user.id.unwrap()).expect("holder was registered");
    assert!(fetched.first_name == "Ada");
    assert!(fetched.last_name == "Lovelace");
}

#[test]
fn newly_created_accounts_are_empty() {
    let (model, account_id) = model_with_account();
    let account = model.get_account(account_id).expect("account was opened");
    assert!(account.balance.amount == 0);
}

#[test]
fn register_then_open_gives_zero_usd_balance() {
    let (mut model, holder_id) = model_with_holder();
    let account = model.new_account(holder_id).expect("holder is registered");
    assert!(account.balance == Money::zero("USD"));
    assert!(account.account_holder == holder_id);
}

#[test]
fn account_holder_can_be_identified() {
    let (mut model, holder_id) = model_with_holder();
    let account = model.new_account(holder_id).expect("holder is registered");
    let fetched = model
        .get_account(account.id.unwrap())
        .expect("account was opened");
    let holder = model
        .get_user(fetched.account_holder)
        .expect("the account's holder is registered");
    assert!(holder.first_name == "John");
    assert!(holder.last_name == "Doe");
}

#[test]
fn open_for_unknown_holder_fails() {
    let mut model = Model::new();
    match model.new_account(7) {
        Ok(_) => panic!("opening must fail for an unregistered holder"),
        Err(e) => assert!(e == BankError::HolderNotFound),
    }
}

#[test]
fn fetching_missing_account_fails() {
    let model = Model::new();
    match model.get_account(7) {
        Ok(_) => panic!("fetching a missing account must fail"),
        Err(e) => assert!(e == BankError::AccountNotFound),
    }
}

#[test]
fn fetching_missing_holder_fails() {
    let model = Model::new();
    match model.get_user(7) {
        Ok(_) => panic!("fetching a missing holder must fail"),
        Err(e) => assert!(e == BankError::HolderNotFound),
    }
}

#[test]
fn deposit_affects_balance() {
    let (mut model, account_id) = model_with_account();
    let deposit_value = Money::new(10, "USD");
    let after = model
        .apply_deposit(Deposit::new(&account_id, deposit_value.clone()))
        .expect("same-currency deposit succeeds");
    assert!(after.balance == deposit_value);
}

#[test]
fn deposits_add_exactly() {
    let (mut model, account_id) = model_with_account();
    model
        .apply_deposit(Deposit::new(&account_id, Money::new(30, "USD")))
        .expect("same-currency deposit succeeds");
    let after = model
        .apply_deposit(Deposit::new(&account_id, Money::new(12, "USD")))
        .expect("same-currency deposit succeeds");
    assert!(after.balance.amount == 42);
}

#[test]
fn withdrawals_subtract_exactly() {
    let (mut model, account_id) = model_with_account();
    model
        .apply_deposit(Deposit::new(&account_id, Money::new(30, "USD")))
        .expect("same-currency deposit succeeds");
    let after = model
        .apply_withdraw(Withdrawal::new(&account_id, Money::new(12, "USD")))
        .expect("covered withdrawal succeeds");
    assert!(after.balance.amount == 18);
}

#[test]
fn withdrawal_the_whole_deposit_empties_the_acount_balance() {
    let (mut model, account_id) = model_with_account();
    let in_out_money = Money::new(10, "USD");
    model
        .apply_deposit(Deposit::new(&account_id, in_out_money.clone()))
        .expect("same-currency deposit succeeds");
    let after = model
        .apply_withdraw(Withdrawal::new(&account_id, in_out_money))
        .expect("covered withdrawal succeeds");
    assert!(after.balance == Money::zero("USD"));
}

#[test]
fn account_cannot_be_overdrawn() {
    let (mut model, account_id) = model_with_account();
    let deposit_value = Money::new(10, "USD");
    model
        .apply_deposit(Deposit::new(&account_id, deposit_value.clone()))
        .expect("same-currency deposit succeeds");
    match model.apply_withdraw(Withdrawal::new(&account_id, Money::new(100, "USD"))) {
        Ok(_) => panic!("overdrawing withdrawal must fail"),
        Err(e) => assert!(e == BankError::InsufficientFunds),
    }
    let account = model.get_account(account_id).expect("account still there");
    assert!(account.balance == deposit_value);
}

#[test]
fn deposit_to_missing_account_fails() {
    let mut model = Model::new();
    match model.apply_deposit(Deposit::new(&7, Money::new(10, "USD"))) {
        Ok(_) => panic!("deposit to a missing account must fail"),
        Err(e) => assert!(e == BankError::AccountNotFound),
    }
}

#[test]
fn currency_mismatch_rejected_on_deposit() {
    let (mut model, account_id) = model_with_account();
    match model.apply_deposit(Deposit::new(&account_id, Money::new(10, "EUR"))) {
        Ok(_) => panic!("mismatched-currency deposit must fail"),
        Err(e) => assert!(e == BankError::CurrencyMismatch),
    }
    let account = model.get_account(account_id).expect("account still there");
    assert!(account.balance == Money::zero("USD"));
}

#[test]
fn currency_mismatch_rejected_on_withdrawal() {
    let (mut model, account_id) = model_with_account();
    model
        .apply_deposit(Deposit::new(&account_id, Money::new(10, "USD")))
        .expect("same-currency deposit succeeds");
    match model.apply_withdraw(Withdrawal::new(&account_id, Money::new(5, "EUR"))) {
        Ok(_) => panic!("mismatched-currency withdrawal must fail"),
        Err(e) => assert!(e == BankError::CurrencyMismatch),
    }
    let account = model.get_account(account_id).expect("account still there");
    assert!(account.balance.amount == 10);
}

#[test]
fn two_full_withdrawals_serialize_to_one_success() {
    let (mut model, account_id) = model_with_account();
    model
        .apply_deposit(Deposit::new(&account_id, Money::new(10, "USD")))
        .expect("same-currency deposit succeeds");
    let first = model.apply_withdraw(Withdrawal::new(&account_id, Money::new(10, "USD")));
    let second = model.apply_withdraw(Withdrawal::new(&account_id, Money::new(10, "USD")));
    match first {
        Ok(a) => assert!(a.balance.amount == 0),
        Err(_) => panic!("the first withdrawal of the whole balance must succeed"),
    }
    match second {
        Ok(_) => panic!("the second withdrawal must fail: the balance is spent"),
        Err(e) => assert!(e == BankError::InsufficientFunds),
    }
    let account = model.get_account(account_id).expect("account still there");
    assert!(account.balance.amount == 0);
}

#[test]
fn balance_stays_nonnegative_through_a_mixed_run() {
    let (mut model, account_id) = model_with_account();
    // (deposit?, amount, balance owed afterwards); the 7 overdraws and must
    // leave the balance where it stood.
    let steps: Vec<(bool, u64, u64)> =
        vec![(true, 5, 5), (false, 3, 2), (false, 7, 2), (true, 2, 4), (false, 4, 0)];
    for (is_deposit, amount, owed) in steps {
        let result = if is_deposit {
            model.apply_deposit(Deposit::new(&account_id, Money::new(amount, "USD")))
        } else {
            model.apply_withdraw(Withdrawal::new(&account_id, Money::new(amount, "USD")))
        };
        if let Err(e) = result {
            assert!(e == BankError::InsufficientFunds);
        }
        let balance = model
            .get_account(account_id)
            .expect("account still there")
            .balance
            .amount;
        assert!(balance == owed);
    }
}

#[test]
fn independent_accounts_do_not_interact() {
    let (mut model, holder_id) = model_with_holder();
    let first = model
        .new_account(holder_id)
        .expect("holder is registered")
        .id
        .unwrap();
    let second = model
        .new_account(holder_id)
        .expect("holder is registered")
        .id
        .unwrap();
    model
        .apply_deposit(Deposit::new(&first, Money::new(25, "USD")))
        .expect("same-currency deposit succeeds");
    let untouched = model.get_account(second).expect("account still there");
    assert!(untouched.balance.amount == 0);
}

#[test]
fn created_account_records_carry_defaults() {
    let created = banking::model::Account::create(11);
    assert!(created.id.is_none());
    assert!(created.account_holder == 11);
    assert!(created.balance == Money::zero("USD"));

    let with_id = banking::model::Account::new_with_id(11);
    assert!(with_id.id.is_some());
    assert!(with_id.account_holder == 11);
    assert!(with_id.balance == Money::zero("USD"));
}
