//! The render-time computations and the store contracts at runtime.

use finance_tracker::state::SortType;
use finance_tracker::store::{CategoryStore, CredentialStore, NewUser, TransactionStore,
    delete_transaction, load_categories, load_transactions, add_expense, add_income};
use finance_tracker::transaction::{NewTransaction, TranKind, Transaction};
use finance_tracker::view_data::{balance_cents, expense_totals, visible_transactions};

fn record(id: i32, kind: TranKind, date: i64, amount: u64, tag: Option<i32>) -> Transaction {
    Transaction {
        tran_id: id,
        tran_type: kind,
        user_id: 1,
        tran_source: format!("src{}", id),
        date,
        tran_amount: amount,
        tran_comment: None,
        tag_id: tag,
    }
}

fn sample() -> Vec<Transaction> {
    vec![
        record(1, TranKind::Income, 20, 1_000, None),
        record(2, TranKind::Expense, 40, 300, Some(1)),
        record(3, TranKind::Income, 10, 250, None),
        record(4, TranKind::Expense, 40, 100, Some(2)),
    ]
}

fn ids(v: &Vec<Transaction>) -> Vec<i32> {
    v.iter().map(|t| t.tran_id).collect()
}

#[test]
fn newest_first_sorts_descending_and_keeps_tie_order() {
    let v = visible_transactions(&sample(), &SortType::NewestFirst);
    // Dates 40, 40, 20, 10 — the two 40s keep their original order (2 then 4).
    assert_eq!(ids(&v), vec![2, 4, 1, 3]);
}

#[test]
fn oldest_first_sorts_ascending() {
    let v = visible_transactions(&sample(), &SortType::OldestFirst);
    assert_eq!(ids(&v), vec![3, 1, 2, 4]);
}

#[test]
fn only_income_filters_in_order() {
    let v = visible_transactions(&sample(), &SortType::OnlyIncome);
    assert_eq!(ids(&v), vec![1, 3]);
}

#[test]
fn only_expense_filters_in_order() {
    let v = visible_transactions(&sample(), &SortType::OnlyExpense);
    assert_eq!(ids(&v), vec![2, 4]);
}

#[test]
fn balance_is_income_minus_expenses() {
    // 1000 + 250 - 300 - 100 = 850 cents.
    assert_eq!(balance_cents(&sample()), 850);
    assert_eq!(balance_cents(&Vec::new()), 0);
}

#[test]
fn expense_totals_follow_the_tags() {
    let totals = expense_totals(&sample(), 3);
    assert_eq!(totals, vec![300, 100, 0]);
}

#[test]
fn expense_totals_ignore_out_of_range_tags() {
    let rows = vec![
        record(1, TranKind::Expense, 5, 10, Some(9)),
        record(2, TranKind::Expense, 5, 20, None),
        record(3, TranKind::Income, 5, 40, Some(1)),
    ];
    let totals = expense_totals(&rows, 2);
    // A tag with no category, a missing tag, and an income are all ignored.
    assert_eq!(totals, vec![0, 0]);
}

#[test]
fn insert_user_assigns_sequential_ids_and_rejects_duplicates() {
    let mut creds = CredentialStore::new();
    let id1 = creds
        .insert_user(NewUser {
            username: "a".into(),
            password: "h1".into(),
            secret_pass: "s".into(),
        })
        .unwrap();
    let id2 = creds
        .insert_user(NewUser {
            username: "b".into(),
            password: "h2".into(),
            secret_pass: "s".into(),
        })
        .unwrap();
    assert_eq!((id1, id2), (1, 2));
    let dup = creds.insert_user(NewUser {
        username: "a".into(),
        password: "h3".into(),
        secret_pass: "s".into(),
    });
    assert_eq!(dup, Err("Registration error: username is taken".to_string()));
    assert_eq!(creds.users.len(), 2);
}

#[test]
fn find_user_returns_the_record() {
    let mut creds = CredentialStore::new();
    creds
        .insert_user(NewUser {
            username: "a".into(),
            password: "h1".into(),
            secret_pass: "s".into(),
        })
        .unwrap();
    let found = creds.find_user_by_name(&"a".to_string()).unwrap();
    assert_eq!(found.id, 1);
    assert_eq!(found.password, "h1");
    assert!(creds.find_user_by_name(&"zz".to_string()).is_none());
}

#[test]
fn update_password_touches_only_the_named_user() {
    let mut creds = CredentialStore::new();
    creds
        .insert_user(NewUser {
            username: "a".into(),
            password: "h1".into(),
            secret_pass: "s".into(),
        })
        .unwrap();
    creds
        .insert_user(NewUser {
            username: "b".into(),
            password: "h2".into(),
            secret_pass: "s".into(),
        })
        .unwrap();
    creds.update_user_password(2, "h2b".into()).unwrap();
    assert_eq!(creds.users[0].password, "h1");
    assert_eq!(creds.users[1].password, "h2b");
    let missing = creds.update_user_password(9, "x".into());
    assert_eq!(missing, Err("Update error: user not found".to_string()));
}

#[test]
fn list_by_user_is_newest_first_and_only_that_user() {
    let mut txs = TransactionStore::new();
    add_income(&mut txs, 1, &"a".to_string(), 10, 100).unwrap();
    add_income(&mut txs, 2, &"b".to_string(), 50, 999).unwrap();
    add_expense(&mut txs, 1, &"c".to_string(), 30, 40, None).unwrap();
    let mine = load_transactions(&txs, 1).unwrap();
    assert_eq!(ids(&mine), vec![3, 1]);
    assert!(mine.iter().all(|t| t.user_id == 1));
}

#[test]
fn delete_removes_exactly_the_row_or_reports_not_found() {
    let mut txs = TransactionStore::new();
    let id = txs.insert(NewTransaction {
        tran_type: TranKind::Income,
        user_id: 1,
        tran_source: "a".into(),
        date: 10,
        tran_amount: 100,
        tran_comment: None,
        tag_id: None,
    });
    assert_eq!(delete_transaction(&mut txs, id + 1), Err("not found".to_string()));
    assert_eq!(txs.rows.len(), 1);
    assert_eq!(delete_transaction(&mut txs, id), Ok(()));
    assert!(txs.rows.is_empty());
}

#[test]
fn categories_list_in_insertion_order() {
    let mut cats = CategoryStore::new();
    assert_eq!(cats.add_category("Food".into()), 1);
    assert_eq!(cats.add_category("Transport".into()), 2);
    let all = load_categories(&cats).unwrap();
    let names: Vec<String> = all.iter().map(|c| c.name.clone()).collect();
    assert_eq!(names, vec!["Food".to_string(), "Transport".to_string()]);
    assert_eq!(all[0].id, 1);
    assert_eq!(all[1].id, 2);
}
