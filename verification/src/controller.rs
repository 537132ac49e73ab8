//! The screen controller: a reducer that takes the session and one intent,
//! mutates the session, and returns at most one pending asynchronous
//! effect. `reduce_rel` is the exact transition relation; `reduce` is the
//! reducer against a clock reading the shell supplies, and `update` is the
//! entry point that reads the clock itself.

use vstd::prelude::*;
use crate::state::{CombinedApp, Message, Effect, Screen, DashboardViewMode, Clock};
use crate::validate::{
    validate_password, password_ok, password_error, parse_amount_cents, amount_cents,
};
use crate::timedate::{date_value, parse_date_timestamp};

verus! {

/// The index of the first category whose name reads the same as `sel`, if
/// any.
pub open spec fn category_index(cats: Seq<String>, sel: String) -> Option<int>
    decreases cats.len(),
{
    if cats.len() == 0 {
        None
    } else if cats[0]@ == sel@ {
        Some(0int)
    } else {
        match category_index(cats.drop_first(), sel) {
            Some(i) => Some(i + 1),
            None => None,
        }
    }
}

/// The 1-based category id an expense submission resolves its selected
/// category name to: the position of the first category of that name, or
/// nothing when none is selected or none matches.
pub open spec fn category_tag(cats: Seq<String>, sel: Option<String>) -> Option<i32> {
    match sel {
        None => None,
        Some(s) => match category_index(cats, s) {
            Some(i) => Some(((i + 1) as usize) as i32),
            None => None,
        },
    }
}

proof fn lemma_category_index_is(cats: Seq<String>, sel: String, i: int)
    requires
        0 <= i <= cats.len(),
        forall|k: int| 0 <= k < i ==> cats[k]@ != sel@,
        i < cats.len() ==> cats[i]@ == sel@,
    ensures
        category_index(cats, sel) == (if i < cats.len() {
            Some(i)
        } else {
            Option::<int>::None
        }),
    decreases cats.len(),
{
    if cats.len() == 0 {
    } else if i == 0 {
    } else {
        assert(cats[0]@ != sel@);
        let t = cats.drop_first();
        assert forall|k: int| 0 <= k < i - 1 implies t[k]@ != sel@ by {
            assert(t[k] == cats[k + 1]);
        }
        if i - 1 < t.len() {
            assert(t[i - 1] == cats[i]);
        }
        lemma_category_index_is(t, sel, i - 1);
    }
}

/// Resolve the selected category name to its 1-based id by its position in
/// the loaded category list.
fn resolve_category_tag(cats: &Vec<String>, sel: &Option<String>) -> (r: Option<i32>)
    ensures
        r == category_tag(cats@, *sel),
{
    match sel.as_ref() {
        None => None,
        Some(s) => {
            proof {
                assert(*sel == Some(sel->0));
            }
            let n = cats.len();
            let mut i: usize = 0;
            while i < n
                invariant
                    i <= n,
                    n == cats@.len(),
                    *sel == Some(*s),
                    forall|k: int| 0 <= k < i ==> cats@[k]@ != s@,
                decreases n - i,
            {
                if s.eq(&cats[i]) {
                    proof {
                        lemma_category_index_is(cats@, *s, i as int);
                    }
                    return Some(#[verifier::truncate] ((i + 1) as i32));
                }
                i = i + 1;
            }
            proof {
                lemma_category_index_is(cats@, *s, n as int);
            }
            None
        },
    }
}

/// The exact transition relation of the screen controller: given the
/// session before (`pre`), the intent, and the clock reading, it pins the
/// session after (`post`) and the issued effect.
pub open spec fn reduce_rel(
    pre: CombinedApp,
    msg: Message,
    clock: Clock,
    post: CombinedApp,
    eff: Effect,
) -> bool {
    match msg {
        Message::LoginUsernameChanged(v) => {
            &&& post == (CombinedApp { login_username: v, ..pre })
            &&& eff is Idle
        },
        Message::LoginPasswordChanged(v) => {
            &&& post == (CombinedApp { login_password: v, ..pre })
            &&& eff is Idle
        },
        Message::LoginPressed => {
            &&& post == pre
            &&& (eff matches Effect::VerifyCredentials { username, password }
                && username == pre.login_username
                && password == pre.login_password)
        },
        Message::LoginResult(r) => match r {
            Ok(id) => {
                &&& post == (CombinedApp {
                    user_name: Some(pre.login_username),
                    user_id: Some(id),
                    ..pre
                })
                &&& (eff matches Effect::LoadCombined { user_id } && user_id == id)
            },
            Err(e) => {
                &&& post == (CombinedApp { login_message: e, ..pre })
                &&& eff is Idle
            },
        },
        Message::TransactionsLoaded(txs) => {
            &&& post == (CombinedApp { transactions: txs, ..pre })
            &&& eff is Idle
        },
        Message::RegUsernameChanged(v) => {
            &&& post == (CombinedApp { reg_username: v, ..pre })
            &&& eff is Idle
        },
        Message::RegPasswordChanged(v) => {
            &&& post == (CombinedApp { reg_password: v, ..pre })
            &&& eff is Idle
        },
        Message::RegConfirmChanged(v) => {
            &&& post == (CombinedApp { reg_confirm: v, ..pre })
            &&& eff is Idle
        },
        Message::RegisterPressed => {
            if pre.reg_password@ != pre.reg_confirm@ {
                &&& post == (CombinedApp { reg_message: post.reg_message, ..pre })
                &&& post.reg_message@ == "Passwords do not match"@
                &&& eff is Idle
            } else if !password_ok(pre.reg_password@) {
                &&& post == (CombinedApp { reg_message: post.reg_message, ..pre })
                &&& post.reg_message@ == password_error(pre.reg_password@)
                &&& eff is Idle
            } else {
                &&& post == pre
                &&& (eff matches Effect::CreateUser { username, password, secret }
                    && username == pre.reg_username
                    && password == pre.reg_password
                    && secret == pre.secret_pass)
            }
        },
        Message::RegisterResult(r) => match r {
            Ok(u) => {
                &&& post == (CombinedApp { current_screen: Screen::Login, ..pre })
                &&& eff is Idle
            },
            Err(e) => {
                &&& post == (CombinedApp { reg_message: e, ..pre })
                &&& eff is Idle
            },
        },
        Message::SwitchToLogin => {
            &&& post == (CombinedApp {
                current_screen: Screen::Login,
                user_id: None,
                user_name: None,
                transactions: post.transactions,
                login_password: post.login_password,
                ..pre
            })
            &&& post.transactions@ == Seq::<crate::transaction::Transaction>::empty()
            &&& post.login_password@ == Seq::<char>::empty()
            &&& eff is Idle
        },
        Message::SwitchToRegistration => {
            &&& post == (CombinedApp { current_screen: Screen::Registration, ..pre })
            &&& eff is Idle
        },
        Message::RequestPasswordReset => {
            &&& post == (CombinedApp { current_screen: Screen::ResetPassword, ..pre })
            &&& eff is Idle
        },
        Message::SecretPassChanged(v) => {
            &&& post == (CombinedApp { secret_pass: v, ..pre })
            &&& eff is Idle
        },
        Message::NewPasswordChanged(v) => {
            &&& post == (CombinedApp { new_password: v, ..pre })
            &&& eff is Idle
        },
        Message::ConfirmNewPasswordChanged(v) => {
            &&& post == (CombinedApp { confirm_new_password: v, ..pre })
            &&& eff is Idle
        },
        Message::SubmitPasswordReset => {
            if pre.new_password@ != pre.confirm_new_password@ {
                &&& post == (CombinedApp { reg_message: post.reg_message, ..pre })
                &&& post.reg_message@ == "Passwords do not match"@
                &&& eff is Idle
            } else {
                &&& post == pre
                &&& (eff matches Effect::ResetPassword { username, secret, new_password }
                    && username == pre.login_username
                    && secret == pre.secret_pass
                    && new_password == pre.new_password)
            }
        },
        Message::PasswordResetResult(r) => match r {
            Ok(u) => {
                &&& post == (CombinedApp {
                    reg_message: post.reg_message,
                    current_screen: Screen::Login,
                    ..pre
                })
                &&& post.reg_message@ == "Password has been reset. Please login."@
                &&& eff is Idle
            },
            Err(e) => {
                &&& post == (CombinedApp { reg_message: e, ..pre })
                &&& eff is Idle
            },
        },
        Message::ChooseAddExpense => {
            &&& post == (CombinedApp {
                current_screen: Screen::Dashboard(DashboardViewMode::AddExpense),
                ..pre
            })
            &&& eff is Idle
        },
        Message::ChooseAddIncome => {
            &&& post == (CombinedApp {
                current_screen: Screen::Dashboard(DashboardViewMode::AddIncome),
                ..pre
            })
            &&& eff is Idle
        },
        Message::CancelDashboardAction => {
            &&& post == (CombinedApp {
                current_screen: Screen::Dashboard(DashboardViewMode::Main),
                ..pre
            })
            &&& eff is Idle
        },
        Message::ChangeStoreName(v) => {
            &&& post == (CombinedApp { store_name: v, ..pre })
            &&& eff is Idle
        },
        Message::ChangeExpenseDate(v) => {
            &&& post == (match date_value(v@) {
                Some(t) => CombinedApp { expense_date: t, ..pre },
                None => pre,
            })
            &&& eff is Idle
        },
        Message::ChangeExpenseSum(v) => {
            &&& post == (CombinedApp { expense_sum: v, ..pre })
            &&& eff is Idle
        },
        Message::ConfirmAddExpense => match pre.user_id {
            None => {
                &&& post == pre
                &&& eff is Idle
            },
            Some(uid) => {
                &&& post == (CombinedApp {
                    store_name: post.store_name,
                    expense_sum: post.expense_sum,
                    selected_category: None,
                    ..pre
                })
                &&& post.store_name@ == Seq::<char>::empty()
                &&& post.expense_sum@ == Seq::<char>::empty()
                &&& (eff matches Effect::InsertExpense { user_id, store, date, amount, tag_id }
                    && user_id == uid
                    && store == pre.store_name
                    && date == clock.now
                    && amount == amount_cents(pre.expense_sum@)
                    && tag_id == category_tag(pre.categories@, pre.selected_category))
            },
        },
        Message::ChangeIncomeSource(v) => {
            &&& post == (CombinedApp { income_source: v, ..pre })
            &&& eff is Idle
        },
        Message::ChangeIncomeDate(v) => {
            &&& post == (CombinedApp {
                income_date: match date_value(v@) {
                    Some(t) => t,
                    None => pre.income_date,
                },
                income_date_str: v,
                ..pre
            })
            &&& eff is Idle
        },
        Message::ChangeIncomeSum(v) => {
            &&& post == (CombinedApp { income_sum: v, ..pre })
            &&& eff is Idle
        },
        Message::ConfirmAddIncome => match pre.user_id {
            None => {
                &&& post == pre
                &&& eff is Idle
            },
            Some(uid) => {
                &&& post == (CombinedApp {
                    income_source: post.income_source,
                    income_sum: post.income_sum,
                    ..pre
                })
                &&& post.income_source@ == Seq::<char>::empty()
                &&& post.income_sum@ == Seq::<char>::empty()
                &&& (eff matches Effect::InsertIncome { user_id, source, date, amount }
                    && user_id == uid
                    && source == pre.income_source
                    && date == clock.now
                    && amount == amount_cents(pre.income_sum@))
            },
        },
        Message::CategorySelected(c) => {
            &&& post == (CombinedApp { selected_category: c, ..pre })
            &&& eff is Idle
        },
        Message::ExitPressed => {
            &&& post == pre
            &&& eff is Exit
        },
        Message::CombinedLoaded(txs, cats) => {
            &&& post == (CombinedApp {
                transactions: txs,
                categories: cats,
                current_screen: Screen::Dashboard(DashboardViewMode::Main),
                ..pre
            })
            &&& eff is Idle
        },
        Message::SortTypeChanged(t) => {
            &&& post == (CombinedApp { sort_type: t, ..pre })
            &&& eff is Idle
        },
        Message::DeleteTransaction(id) => {
            &&& post == pre
            &&& (eff matches Effect::Delete { tran_id } && tran_id == id)
        },
        Message::TransactionDeleted(r) => match r {
            Ok(u) => match pre.user_id {
                Some(uid) => {
                    &&& post == pre
                    &&& (eff matches Effect::LoadCombined { user_id } && user_id == uid)
                },
                None => {
                    &&& post == pre
                    &&& eff is Idle
                },
            },
            Err(e) => {
                &&& post == pre
                &&& (eff matches Effect::Diagnostic { message } && message == e)
            },
        },
        Message::ChangeExpenseDateString(v) => {
            &&& post == (CombinedApp {
                expense_date: match date_value(v@) {
                    Some(t) => t,
                    None => pre.expense_date,
                },
                expense_date_str: v,
                ..pre
            })
            &&& eff is Idle
        },
        Message::SetExpenseDateToToday => {
            &&& post == (CombinedApp {
                expense_date: clock.today,
                expense_date_str: clock.today_str,
                ..pre
            })
            &&& eff is Idle
        },
    }
}

/// Reduce one intent against the session, under the given clock reading.
/// The session after the call and the returned effect are exactly what
/// `reduce_rel` states.
pub fn reduce(app: &mut CombinedApp, message: Message, clock: &Clock) -> (eff: Effect)
    ensures
        reduce_rel(*old(app), message, *clock, *final(app), eff),
{
    match message {
        Message::LoginUsernameChanged(v) => {
            app.login_username = v;
            Effect::Idle
        },
        Message::LoginPasswordChanged(v) => {
            app.login_password = v;
            Effect::Idle
        },
        Message::LoginPressed => Effect::VerifyCredentials {
            username: app.login_username.clone(),
            password: app.login_password.clone(),
        },
        Message::LoginResult(r) => match r {
            Ok(id) => {
                app.user_name = Some(app.login_username.clone());
                app.user_id = Some(id);
                Effect::LoadCombined { user_id: id }
            },
            Err(e) => {
                app.login_message = e;
                Effect::Idle
            },
        },
        Message::TransactionsLoaded(txs) => {
            app.transactions = txs;
            Effect::Idle
        },
        Message::RegUsernameChanged(v) => {
            app.reg_username = v;
            Effect::Idle
        },
        Message::RegPasswordChanged(v) => {
            app.reg_password = v;
            Effect::Idle
        },
        Message::RegConfirmChanged(v) => {
            app.reg_confirm = v;
            Effect::Idle
        },
        Message::RegisterPressed => {
            if app.reg_password != app.reg_confirm {
                app.reg_message = "Passwords do not match".to_owned();
                Effect::Idle
            } else {
                match validate_password(&app.reg_password) {
                    Some(m) => {
                        app.reg_message = m;
                        Effect::Idle
                    },
                    None => Effect::CreateUser {
                        username: app.reg_username.clone(),
                        password: app.reg_password.clone(),
                        secret: app.secret_pass.clone(),
                    },
                }
            }
        },
        Message::RegisterResult(r) => match r {
            Ok(_u) => {
                app.current_screen = Screen::Login;
                Effect::Idle
            },
            Err(e) => {
                app.reg_message = e;
                Effect::Idle
            },
        },
        Message::SwitchToLogin => {
            app.current_screen = Screen::Login;
            app.user_id = None;
            app.user_name = None;
            app.transactions = Vec::new();
            app.login_password = String::new();
            Effect::Idle
        },
        Message::SwitchToRegistration => {
            app.current_screen = Screen::Registration;
            Effect::Idle
        },
        Message::RequestPasswordReset => {
            app.current_screen = Screen::ResetPassword;
            Effect::Idle
        },
        Message::SecretPassChanged(v) => {
            app.secret_pass = v;
            Effect::Idle
        },
        Message::NewPasswordChanged(v) => {
            app.new_password = v;
            Effect::Idle
        },
        Message::ConfirmNewPasswordChanged(v) => {
            app.confirm_new_password = v;
            Effect::Idle
        },
        Message::SubmitPasswordReset => {
            if app.new_password != app.confirm_new_password {
                app.reg_message = "Passwords do not match".to_owned();
                Effect::Idle
            } else {
                Effect::ResetPassword {
                    username: app.login_username.clone(),
                    secret: app.secret_pass.clone(),
                    new_password: app.new_password.clone(),
                }
            }
        },
        Message::PasswordResetResult(r) => match r {
            Ok(_u) => {
                app.reg_message = "Password has been reset. Please login.".to_owned();
                app.current_screen = Screen::Login;
                Effect::Idle
            },
            Err(e) => {
                app.reg_message = e;
                Effect::Idle
            },
        },
        Message::ChooseAddExpense => {
            app.current_screen = Screen::Dashboard(DashboardViewMode::AddExpense);
            Effect::Idle
        },
        Message::ChooseAddIncome => {
            app.current_screen = Screen::Dashboard(DashboardViewMode::AddIncome);
            Effect::Idle
        },
        Message::CancelDashboardAction => {
            app.current_screen = Screen::Dashboard(DashboardViewMode::Main);
            Effect::Idle
        },
        Message::ChangeStoreName(v) => {
            app.store_name = v;
            Effect::Idle
        },
        Message::ChangeExpenseDate(v) => {
            match parse_date_timestamp(v.as_str()) {
                Some(t) => {
                    app.expense_date = t;
                },
                None => {},
            }
            Effect::Idle
        },
        Message::ChangeExpenseSum(v) => {
            app.expense_sum = v;
            Effect::Idle
        },
        Message::ConfirmAddExpense => match app.user_id {
            Some(uid) => {
                let store = app.store_name.clone();
                let amount = parse_amount_cents(app.expense_sum.as_str());
                let tag_id = resolve_category_tag(&app.categories, &app.selected_category);
                app.clear_expense_form();
                Effect::InsertExpense { user_id: uid, store, date: clock.now, amount, tag_id }
            },
            None => Effect::Idle,
        },
        Message::ChangeIncomeSource(v) => {
            app.income_source = v;
            Effect::Idle
        },
        Message::ChangeIncomeDate(v) => {
            match parse_date_timestamp(v.as_str()) {
                Some(t) => {
                    app.income_date = t;
                },
                None => {},
            }
            app.income_date_str = v;
            Effect::Idle
        },
        Message::ChangeIncomeSum(v) => {
            app.income_sum = v;
            Effect::Idle
        },
        Message::ConfirmAddIncome => match app.user_id {
            Some(uid) => {
                let source = app.income_source.clone();
                let amount = parse_amount_cents(app.income_sum.as_str());
                app.clear_income_form();
                Effect::InsertIncome { user_id: uid, source, date: clock.now, amount }
            },
            None => Effect::Idle,
        },
        Message::CategorySelected(c) => {
            app.selected_category = c;
            Effect::Idle
        },
        Message::ExitPressed => Effect::Exit,
        Message::CombinedLoaded(txs, cats) => {
            app.apply_login_result(txs, cats);
            Effect::Idle
        },
        Message::SortTypeChanged(t) => {
            app.sort_type = t;
            Effect::Idle
        },
        Message::DeleteTransaction(id) => Effect::Delete { tran_id: id },
        Message::TransactionDeleted(r) => match r {
            Ok(_u) => match app.user_id {
                Some(uid) => Effect::LoadCombined { user_id: uid },
                None => Effect::Idle,
            },
            Err(e) => Effect::Diagnostic { message: e },
        },
        Message::ChangeExpenseDateString(v) => {
            match parse_date_timestamp(v.as_str()) {
                Some(t) => {
                    app.expense_date = t;
                },
                None => {},
            }
            app.expense_date_str = v;
            Effect::Idle
        },
        Message::SetExpenseDateToToday => {
            app.expense_date = clock.today;
            app.expense_date_str = clock.today_str.clone();
            Effect::Idle
        },
    }
}

/// Reduce one intent against the session, reading the wall clock itself:
/// some clock reading makes the transition relation hold.
pub fn update(app: &mut CombinedApp, message: Message) -> (eff: Effect)
    ensures
        exists|c: Clock| reduce_rel(*old(app), message, c, *final(app), eff),
{
    let clock = crate::timedate::read_clock();
    let eff = reduce(app, message, &clock);
    proof {
        assert(reduce_rel(*old(app), message, clock, *app, eff));
    }
    eff
}

/// A registration press while the password and confirmation buffers differ
/// issues no effect at all — no insert is attempted — and only sets the
/// mismatch message.
pub proof fn lemma_register_mismatch_no_effect(
    pre: CombinedApp,
    clock: Clock,
    post: CombinedApp,
    eff: Effect,
)
    requires
        reduce_rel(pre, Message::RegisterPressed, clock, post, eff),
        pre.reg_password@ != pre.reg_confirm@,
    ensures
        eff is Idle,
        post.reg_message@ == "Passwords do not match"@,
        post == (CombinedApp { reg_message: post.reg_message, ..pre }),
{
}

/// A successful login result followed by the combined load lands on the
/// main dashboard with that user authenticated and the loaded data
/// installed; the login result itself issues the combined load for the
/// same user.
pub proof fn lemma_login_then_load(
    pre: CombinedApp,
    mid: CombinedApp,
    post: CombinedApp,
    c1: Clock,
    c2: Clock,
    e1: Effect,
    e2: Effect,
    id: i32,
    txs: Vec<crate::transaction::Transaction>,
    cats: Vec<String>,
)
    requires
        reduce_rel(pre, Message::LoginResult(Ok(id)), c1, mid, e1),
        reduce_rel(mid, Message::CombinedLoaded(txs, cats), c2, post, e2),
    ensures
        (e1 matches Effect::LoadCombined { user_id } && user_id == id),
        post.current_screen == Screen::Dashboard(DashboardViewMode::Main),
        post.user_id == Some(id),
        post.transactions == txs,
        post.categories == cats,
{
}

/// Switching to the login screen from any dashboard mode clears the cached
/// transactions, the authenticated user, and the login password buffer,
/// whatever they held.
pub proof fn lemma_switch_to_login_clears(
    pre: CombinedApp,
    clock: Clock,
    post: CombinedApp,
    eff: Effect,
)
    requires
        reduce_rel(pre, Message::SwitchToLogin, clock, post, eff),
        pre.current_screen matches Screen::Dashboard(_),
    ensures
        post.current_screen == Screen::Login,
        post.transactions@ == Seq::<crate::transaction::Transaction>::empty(),
        post.user_id is None,
        post.user_name is None,
        post.login_password@ == Seq::<char>::empty(),
        eff is Idle,
{
}

/// Changing the sort twice to the same value is the same as changing it
/// once: the second reduction leaves the session exactly as it was, the
/// cached transactions are untouched by either, and the visible list is
/// the same after both.
pub proof fn lemma_sort_change_idempotent(
    pre: CombinedApp,
    mid: CombinedApp,
    post: CombinedApp,
    c1: Clock,
    c2: Clock,
    e1: Effect,
    e2: Effect,
    t: crate::state::SortType,
)
    requires
        reduce_rel(pre, Message::SortTypeChanged(t), c1, mid, e1),
        reduce_rel(mid, Message::SortTypeChanged(t), c2, post, e2),
    ensures
        post == mid,
        mid.transactions == pre.transactions,
        post.transactions == pre.transactions,
        crate::view_data::visible(post.transactions@, post.sort_type)
            == crate::view_data::visible(mid.transactions@, mid.sort_type),
        e1 is Idle,
        e2 is Idle,
{
}

/// The empty amount buffer is outside the amount grammar.
pub proof fn lemma_empty_amount_invalid()
    ensures
        !crate::validate::amount_valid(Seq::<char>::empty()),
{
    let s = Seq::<char>::empty();
    assert(crate::validate::int_part(s) =~= Seq::<char>::empty());
    assert(crate::validate::frac_part(s) =~= Seq::<char>::empty());
}

/// Confirming an expense while authenticated, with an amount buffer
/// outside the grammar (the empty buffer included), still issues the
/// insert — with an amount of exactly zero, not a rejection.
pub proof fn lemma_confirm_expense_bad_amount_stores_zero(
    pre: CombinedApp,
    clock: Clock,
    post: CombinedApp,
    eff: Effect,
    uid: i32,
)
    requires
        reduce_rel(pre, Message::ConfirmAddExpense, clock, post, eff),
        pre.user_id == Some(uid),
        !crate::validate::amount_valid(pre.expense_sum@),
    ensures
        (eff matches Effect::InsertExpense { user_id, amount, .. }
            && user_id == uid
            && amount == 0),
{
}

} // verus!
