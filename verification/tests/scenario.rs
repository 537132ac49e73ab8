//! End-to-end scenarios: the reducer driven against the in-memory stores,
//! with effects performed the way the shell performs them.

use finance_tracker::auth::{attempt_login, attempt_password_reset, attempt_register,
    handle_successful_login};
use finance_tracker::state::{Clock, CombinedApp, DashboardViewMode, Effect, Message, Screen};
use finance_tracker::store::{add_expense, add_income, delete_transaction, load_transactions,
    AuthData, CategoryStore, CredentialStore, TransactionStore};
use finance_tracker::controller::reduce;
use finance_tracker::transaction::TranKind;

/// Perform one effect against the stores, as the shell would, and hand
/// back the follow-up intent.
fn perform(
    eff: Effect,
    creds: &mut CredentialStore,
    txs: &mut TransactionStore,
    cats: &CategoryStore,
) -> Option<Message> {
    match eff {
        Effect::Idle | Effect::Exit => None,
        Effect::Diagnostic { .. } => None,
        Effect::VerifyCredentials { username, password } => {
            let auth = AuthData { username, password, secret_pass: String::new() };
            Some(Message::LoginResult(attempt_login(creds, &auth)))
        }
        Effect::CreateUser { username, password, secret } => {
            let auth = AuthData { username, password, secret_pass: secret };
            Some(Message::RegisterResult(attempt_register(creds, &auth)))
        }
        Effect::ResetPassword { username, secret, new_password } => Some(
            Message::PasswordResetResult(attempt_password_reset(
                creds,
                &username,
                &secret,
                &new_password,
            )),
        ),
        Effect::InsertExpense { user_id, store, date, amount, tag_id } => {
            add_expense(txs, user_id, &store, date, amount, tag_id).unwrap();
            Some(Message::TransactionsLoaded(load_transactions(txs, user_id).unwrap()))
        }
        Effect::InsertIncome { user_id, source, date, amount } => {
            add_income(txs, user_id, &source, date, amount).unwrap();
            Some(Message::TransactionsLoaded(load_transactions(txs, user_id).unwrap()))
        }
        Effect::Delete { tran_id } => {
            Some(Message::TransactionDeleted(delete_transaction(txs, tran_id)))
        }
        Effect::LoadCombined { user_id } => {
            let (t, c) = handle_successful_login(txs, cats, user_id);
            Some(Message::CombinedLoaded(t, c))
        }
    }
}

/// Reduce a message and chase every follow-up effect to quiescence.
fn drive(
    app: &mut CombinedApp,
    msg: Message,
    clock: &Clock,
    creds: &mut CredentialStore,
    txs: &mut TransactionStore,
    cats: &CategoryStore,
) {
    let mut pending = Some(msg);
    while let Some(m) = pending.take() {
        let eff = reduce(app, m, clock);
        pending = perform(eff, creds, txs, cats);
    }
}

fn seeded_stores() -> (CredentialStore, TransactionStore, CategoryStore) {
    let mut cats = CategoryStore::new();
    cats.add_category("Food".to_string());
    cats.add_category("Transport".to_string());
    (CredentialStore::new(), TransactionStore::new(), cats)
}

fn test_clock() -> Clock {
    Clock { now: 1_700_000_000, today: 1_699_999_200, today_str: "2023-11-14".to_string() }
}

#[test]
fn register_login_and_add_expense_end_to_end() {
    let (mut creds, mut txs, cats) = seeded_stores();
    let clock = test_clock();
    let mut app = CombinedApp::new(0);

    // Register alice with password "Passw0rd" and secret "MIT".
    drive(&mut app, Message::SwitchToRegistration, &clock, &mut creds, &mut txs, &cats);
    drive(&mut app, Message::RegUsernameChanged("alice".into()), &clock, &mut creds, &mut txs, &cats);
    drive(&mut app, Message::RegPasswordChanged("Passw0rd".into()), &clock, &mut creds, &mut txs, &cats);
    drive(&mut app, Message::RegConfirmChanged("Passw0rd".into()), &clock, &mut creds, &mut txs, &cats);
    drive(&mut app, Message::SecretPassChanged("MIT".into()), &clock, &mut creds, &mut txs, &cats);
    drive(&mut app, Message::RegisterPressed, &clock, &mut creds, &mut txs, &cats);
    // Registration success lands back on the login screen.
    assert_eq!(app.current_screen, Screen::Login);
    assert_eq!(creds.users.len(), 1);

    // Log in as alice.
    drive(&mut app, Message::LoginUsernameChanged("alice".into()), &clock, &mut creds, &mut txs, &cats);
    drive(&mut app, Message::LoginPasswordChanged("Passw0rd".into()), &clock, &mut creds, &mut txs, &cats);
    drive(&mut app, Message::LoginPressed, &clock, &mut creds, &mut txs, &cats);
    assert_eq!(app.current_screen, Screen::Dashboard(DashboardViewMode::Main));
    assert_eq!(app.user_id, Some(1));
    assert_eq!(app.user_name.as_deref(), Some("alice"));
    assert!(app.transactions.is_empty());
    assert_eq!(app.categories, vec!["Food".to_string(), "Transport".to_string()]);

    // Add a 4.50 expense at Coffee under the first category.
    drive(&mut app, Message::ChooseAddExpense, &clock, &mut creds, &mut txs, &cats);
    assert_eq!(app.current_screen, Screen::Dashboard(DashboardViewMode::AddExpense));
    drive(&mut app, Message::ChangeStoreName("Coffee".into()), &clock, &mut creds, &mut txs, &cats);
    drive(&mut app, Message::ChangeExpenseSum("4.50".into()), &clock, &mut creds, &mut txs, &cats);
    let first_cat = app.categories[0].clone();
    drive(&mut app, Message::CategorySelected(Some(first_cat)), &clock, &mut creds, &mut txs, &cats);
    drive(&mut app, Message::ConfirmAddExpense, &clock, &mut creds, &mut txs, &cats);

    assert_eq!(app.transactions.len(), 1);
    let tx = &app.transactions[0];
    assert_eq!(tx.tran_type, TranKind::Expense);
    assert_eq!(tx.tran_amount, 450);
    assert_eq!(tx.tag_id, Some(1));
    assert_eq!(tx.tran_source, "Coffee");
    // The form buffers were cleared on submission.
    assert!(app.store_name.is_empty());
    assert!(app.expense_sum.is_empty());
    assert_eq!(app.selected_category, None);
}

#[test]
fn login_with_wrong_password_stays_on_login() {
    let (mut creds, mut txs, cats) = seeded_stores();
    let clock = test_clock();
    let auth = AuthData {
        username: "bob".into(),
        password: "Secret1".into(),
        secret_pass: "MIT".into(),
    };
    attempt_register(&mut creds, &auth).unwrap();

    let mut app = CombinedApp::new(0);
    drive(&mut app, Message::LoginUsernameChanged("bob".into()), &clock, &mut creds, &mut txs, &cats);
    drive(&mut app, Message::LoginPasswordChanged("wrong".into()), &clock, &mut creds, &mut txs, &cats);
    drive(&mut app, Message::LoginPressed, &clock, &mut creds, &mut txs, &cats);
    assert_eq!(app.current_screen, Screen::Login);
    assert_eq!(app.user_id, None);
    assert_eq!(app.login_message, "Invalid password");
}

#[test]
fn login_with_unknown_user_reports_not_found() {
    let (mut creds, mut txs, cats) = seeded_stores();
    let clock = test_clock();
    let mut app = CombinedApp::new(0);
    drive(&mut app, Message::LoginUsernameChanged("nobody".into()), &clock, &mut creds, &mut txs, &cats);
    drive(&mut app, Message::LoginPressed, &clock, &mut creds, &mut txs, &cats);
    assert_eq!(app.login_message, "User not found");
}

#[test]
fn reset_with_wrong_secret_leaves_hash_unchanged() {
    let (mut creds, _txs, _cats) = seeded_stores();
    let auth = AuthData {
        username: "alice".into(),
        password: "Passw0rd".into(),
        secret_pass: "MIT".into(),
    };
    attempt_register(&mut creds, &auth).unwrap();
    let hash_before = creds.users[0].password.clone();

    let r = attempt_password_reset(
        &mut creds,
        &"alice".to_string(),
        &"Harvard".to_string(),
        &"NewPass1".to_string(),
    );
    assert_eq!(r, Err("Wrong answer to secret question".to_string()));
    assert_eq!(creds.users[0].password, hash_before);

    // The old password still logs in.
    assert!(attempt_login(&creds, &auth).is_ok());
}

#[test]
fn reset_with_right_secret_changes_password() {
    let (mut creds, mut txs, cats) = seeded_stores();
    let clock = test_clock();
    let auth = AuthData {
        username: "alice".into(),
        password: "Passw0rd".into(),
        secret_pass: "MIT".into(),
    };
    attempt_register(&mut creds, &auth).unwrap();

    let mut app = CombinedApp::new(0);
    drive(&mut app, Message::LoginUsernameChanged("alice".into()), &clock, &mut creds, &mut txs, &cats);
    drive(&mut app, Message::RequestPasswordReset, &clock, &mut creds, &mut txs, &cats);
    assert_eq!(app.current_screen, Screen::ResetPassword);
    drive(&mut app, Message::SecretPassChanged("MIT".into()), &clock, &mut creds, &mut txs, &cats);
    drive(&mut app, Message::NewPasswordChanged("Fresh9pw".into()), &clock, &mut creds, &mut txs, &cats);
    drive(&mut app, Message::ConfirmNewPasswordChanged("Fresh9pw".into()), &clock, &mut creds, &mut txs, &cats);
    drive(&mut app, Message::SubmitPasswordReset, &clock, &mut creds, &mut txs, &cats);
    assert_eq!(app.current_screen, Screen::Login);
    assert_eq!(app.reg_message, "Password has been reset. Please login.");

    let old = attempt_login(&creds, &auth);
    assert_eq!(old, Err("Invalid password".to_string()));
    let fresh = AuthData {
        username: "alice".into(),
        password: "Fresh9pw".into(),
        secret_pass: String::new(),
    };
    assert!(attempt_login(&creds, &fresh).is_ok());
}

#[test]
fn reset_with_mismatched_confirmation_issues_no_effect() {
    let (mut creds, mut txs, cats) = seeded_stores();
    let clock = test_clock();
    let mut app = CombinedApp::new(0);
    drive(&mut app, Message::NewPasswordChanged("Fresh9pw".into()), &clock, &mut creds, &mut txs, &cats);
    drive(&mut app, Message::ConfirmNewPasswordChanged("other".into()), &clock, &mut creds, &mut txs, &cats);
    drive(&mut app, Message::SubmitPasswordReset, &clock, &mut creds, &mut txs, &cats);
    assert_eq!(app.reg_message, "Passwords do not match");
}

#[test]
fn delete_reloads_the_combined_snapshot() {
    let (mut creds, mut txs, cats) = seeded_stores();
    let clock = test_clock();
    let auth = AuthData {
        username: "alice".into(),
        password: "Passw0rd".into(),
        secret_pass: "MIT".into(),
    };
    attempt_register(&mut creds, &auth).unwrap();

    let mut app = CombinedApp::new(0);
    drive(&mut app, Message::LoginUsernameChanged("alice".into()), &clock, &mut creds, &mut txs, &cats);
    drive(&mut app, Message::LoginPasswordChanged("Passw0rd".into()), &clock, &mut creds, &mut txs, &cats);
    drive(&mut app, Message::LoginPressed, &clock, &mut creds, &mut txs, &cats);

    drive(&mut app, Message::ChooseAddIncome, &clock, &mut creds, &mut txs, &cats);
    drive(&mut app, Message::ChangeIncomeSource("Salary".into()), &clock, &mut creds, &mut txs, &cats);
    drive(&mut app, Message::ChangeIncomeSum("100".into()), &clock, &mut creds, &mut txs, &cats);
    drive(&mut app, Message::ConfirmAddIncome, &clock, &mut creds, &mut txs, &cats);
    assert_eq!(app.transactions.len(), 1);
    assert_eq!(app.transactions[0].tran_type, TranKind::Income);
    assert_eq!(app.transactions[0].tran_amount, 10_000);
    assert!(app.income_source.is_empty());
    assert!(app.income_sum.is_empty());

    let id = app.transactions[0].tran_id;
    drive(&mut app, Message::DeleteTransaction(id), &clock, &mut creds, &mut txs, &cats);
    assert_eq!(app.current_screen, Screen::Dashboard(DashboardViewMode::Main));
    assert!(app.transactions.is_empty());
    assert!(txs.rows.is_empty());
}

#[test]
fn confirm_add_without_login_is_silently_ignored() {
    let (mut creds, mut txs, cats) = seeded_stores();
    let clock = test_clock();
    let mut app = CombinedApp::new(0);
    drive(&mut app, Message::ChangeStoreName("Coffee".into()), &clock, &mut creds, &mut txs, &cats);
    drive(&mut app, Message::ChangeExpenseSum("4.50".into()), &clock, &mut creds, &mut txs, &cats);
    drive(&mut app, Message::ConfirmAddExpense, &clock, &mut creds, &mut txs, &cats);
    assert!(txs.rows.is_empty());
    // The buffers were not cleared: the intent was ignored outright.
    assert_eq!(app.store_name, "Coffee");
}
