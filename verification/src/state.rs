//! The session: every piece of in-memory application state, the intents
//! (`Message`) that the reducer consumes, and the asynchronous effects it
//! hands back to the shell.

use vstd::prelude::*;
use crate::transaction::Transaction;

verus! {

/// Which dashboard sub-view is showing.
#[derive(Debug, Clone, Copy, PartialEq, Eq, Structural)]
pub enum DashboardViewMode {
    Main,
    AddExpense,
    AddIncome,
}

/// The screen the application is on.
#[derive(Debug, Clone, Copy, PartialEq, Eq, Structural)]
pub enum Screen {
    Login,
    Registration,
    Dashboard(DashboardViewMode),
    ResetPassword,
}

/// The presentation order/filter for the transaction list. It never changes
/// the cached transactions themselves; the visible list is recomputed from it
/// at render time.
#[derive(Debug, Clone, Copy, PartialEq, Eq, Structural)]
pub enum SortType {
    NewestFirst,
    OldestFirst,
    OnlyIncome,
    OnlyExpense,
}

impl SortType {
    /// Every selectable sort, in the order a picker offers them.
    pub fn all() -> (r: Vec<SortType>)
        ensures
            r@ == seq![
                SortType::NewestFirst,
                SortType::OldestFirst,
                SortType::OnlyIncome,
                SortType::OnlyExpense,
            ],
    {
        let mut v: Vec<SortType> = Vec::new();
        v.push(SortType::NewestFirst);
        v.push(SortType::OldestFirst);
        v.push(SortType::OnlyIncome);
        v.push(SortType::OnlyExpense);
        proof {
            assert(v@ =~= seq![
                SortType::NewestFirst,
                SortType::OldestFirst,
                SortType::OnlyIncome,
                SortType::OnlyExpense,
            ]);
        }
        v
    }

    /// The label a picker shows for this sort.
    pub fn label(&self) -> (r: String)
        ensures
            r@ == match self {
                SortType::NewestFirst => "New first"@,
                SortType::OldestFirst => "First old"@,
                SortType::OnlyIncome => "Income only"@,
                SortType::OnlyExpense => "Expenses only"@,
            },
    {
        match self {
            SortType::NewestFirst => "New first".to_owned(),
            SortType::OldestFirst => "First old".to_owned(),
            SortType::OnlyIncome => "Income only".to_owned(),
            SortType::OnlyExpense => "Expenses only".to_owned(),
        }
    }
}

/// An intent: a user action or the result of an asynchronous effect, fed
/// into the reducer one at a time.
#[derive(Debug)]
pub enum Message {
    LoginUsernameChanged(String),
    LoginPasswordChanged(String),
    LoginPressed,
    LoginResult(Result<i32, String>),
    TransactionsLoaded(Vec<Transaction>),
    RegUsernameChanged(String),
    RegPasswordChanged(String),
    RegConfirmChanged(String),
    RegisterPressed,
    RegisterResult(Result<(), String>),
    SwitchToLogin,
    SwitchToRegistration,
    RequestPasswordReset,
    SecretPassChanged(String),
    NewPasswordChanged(String),
    ConfirmNewPasswordChanged(String),
    SubmitPasswordReset,
    PasswordResetResult(Result<(), String>),
    ChooseAddExpense,
    ChooseAddIncome,
    CancelDashboardAction,
    ChangeStoreName(String),
    ChangeExpenseDate(String),
    ChangeExpenseSum(String),
    ConfirmAddExpense,
    ChangeIncomeSource(String),
    ChangeIncomeDate(String),
    ChangeIncomeSum(String),
    ConfirmAddIncome,
    CategorySelected(Option<String>),
    ExitPressed,
    CombinedLoaded(Vec<Transaction>, Vec<String>),
    SortTypeChanged(SortType),
    DeleteTransaction(i32),
    TransactionDeleted(Result<(), String>),
    ChangeExpenseDateString(String),
    SetExpenseDateToToday,
}

/// The single pending asynchronous effect a reduction may issue. The shell
/// performs it against a store and feeds the outcome back as a `Message`.
#[derive(Debug)]
pub enum Effect {
    /// Nothing to do.
    Idle,
    /// Verify credentials; answer with `LoginResult`.
    VerifyCredentials { username: String, password: String },
    /// Create a user (hash the password first); answer with `RegisterResult`.
    CreateUser { username: String, password: String, secret: String },
    /// Check the secret answer and store a new hash; answer with
    /// `PasswordResetResult`.
    ResetPassword { username: String, secret: String, new_password: String },
    /// Insert an expense, then reload the user's transactions; answer with
    /// `TransactionsLoaded`.
    InsertExpense {
        user_id: i32,
        store: String,
        date: i64,
        amount: u64,
        tag_id: Option<i32>,
    },
    /// Insert an income, then reload the user's transactions; answer with
    /// `TransactionsLoaded`.
    InsertIncome { user_id: i32, source: String, date: i64, amount: u64 },
    /// Delete a transaction; answer with `TransactionDeleted`.
    Delete { tran_id: i32 },
    /// Reload transactions and categories together; answer with
    /// `CombinedLoaded`.
    LoadCombined { user_id: i32 },
    /// Show a message on the operator's diagnostic channel, not in the
    /// session; no answer.
    Diagnostic { message: String },
    /// Terminate the process.
    Exit,
}

/// A reading of the wall clock, taken by the shell just before a reduction:
/// the current moment, today's midnight, and today written `%Y-%m-%d`.
#[derive(Debug)]
pub struct Clock {
    pub now: i64,
    pub today: i64,
    pub today_str: String,
}

/// The complete in-memory application state. Created once at startup, then
/// mutated only by the reducer.
#[derive(Debug)]
pub struct CombinedApp {
    pub current_screen: Screen,
    pub login_username: String,
    pub login_password: String,
    pub login_message: String,
    pub reg_username: String,
    pub reg_password: String,
    pub reg_confirm: String,
    pub reg_message: String,
    pub user_name: Option<String>,
    pub user_id: Option<i32>,
    pub transactions: Vec<Transaction>,
    pub store_name: String,
    pub expense_date: i64,
    pub expense_sum: String,
    pub income_source: String,
    pub income_date: i64,
    pub income_sum: String,
    pub secret_pass: String,
    pub new_password: String,
    pub confirm_new_password: String,
    pub categories: Vec<String>,
    pub selected_category: Option<String>,
    pub sort_type: SortType,
    pub expense_date_str: String,
    pub income_date_str: String,
}

/// The fresh session: all buffers empty, nobody authenticated, on the login
/// screen, sorted newest-first, both form dates seeded with `now`.
pub open spec fn fresh_session(s: CombinedApp, now: i64) -> bool {
    &&& s.current_screen == Screen::Login
    &&& s.login_username@ == Seq::<char>::empty()
    &&& s.login_password@ == Seq::<char>::empty()
    &&& s.login_message@ == Seq::<char>::empty()
    &&& s.reg_username@ == Seq::<char>::empty()
    &&& s.reg_password@ == Seq::<char>::empty()
    &&& s.reg_confirm@ == Seq::<char>::empty()
    &&& s.reg_message@ == Seq::<char>::empty()
    &&& s.user_name is None
    &&& s.user_id is None
    &&& s.transactions@ == Seq::<Transaction>::empty()
    &&& s.store_name@ == Seq::<char>::empty()
    &&& s.expense_date == now
    &&& s.expense_sum@ == Seq::<char>::empty()
    &&& s.income_source@ == Seq::<char>::empty()
    &&& s.income_date == now
    &&& s.income_sum@ == Seq::<char>::empty()
    &&& s.secret_pass@ == Seq::<char>::empty()
    &&& s.new_password@ == Seq::<char>::empty()
    &&& s.confirm_new_password@ == Seq::<char>::empty()
    &&& s.categories@ == Seq::<String>::empty()
    &&& s.selected_category is None
    &&& s.sort_type == SortType::NewestFirst
    &&& s.expense_date_str@ == Seq::<char>::empty()
    &&& s.income_date_str@ == Seq::<char>::empty()
}

impl CombinedApp {
    /// The session as it stands at startup, with both form dates seeded with
    /// the current timestamp.
    pub fn new(now: i64) -> (s: CombinedApp)
        ensures
            fresh_session(s, now),
    {
        CombinedApp {
            current_screen: Screen::Login,
            login_username: String::new(),
            login_password: String::new(),
            login_message: String::new(),
            reg_username: String::new(),
            reg_password: String::new(),
            reg_confirm: String::new(),
            reg_message: String::new(),
            user_name: None,
            user_id: None,
            transactions: Vec::new(),
            store_name: String::new(),
            expense_date: now,
            expense_sum: String::new(),
            income_source: String::new(),
            income_date: now,
            income_sum: String::new(),
            secret_pass: String::new(),
            new_password: String::new(),
            confirm_new_password: String::new(),
            categories: Vec::new(),
            selected_category: None,
            sort_type: SortType::NewestFirst,
            expense_date_str: String::new(),
            income_date_str: String::new(),
        }
    }

    /// Install a freshly loaded snapshot and land on the main dashboard.
    pub fn apply_login_result(
        &mut self,
        transactions: Vec<Transaction>,
        categories: Vec<String>,
    )
        ensures
            *final(self) == (CombinedApp {
                current_screen: Screen::Dashboard(DashboardViewMode::Main),
                transactions,
                categories,
                ..*old(self)
            }),
    {
        self.transactions = transactions;
        self.categories = categories;
        self.current_screen = Screen::Dashboard(DashboardViewMode::Main);
    }

    /// Empty every expense-form buffer.
    pub fn clear_expense_form(&mut self)
        ensures
            final(self).store_name@ == Seq::<char>::empty(),
            final(self).expense_sum@ == Seq::<char>::empty(),
            final(self).selected_category is None,
            *final(self) == (CombinedApp {
                store_name: final(self).store_name,
                expense_sum: final(self).expense_sum,
                selected_category: None,
                ..*old(self)
            }),
    {
        self.store_name = String::new();
        self.expense_sum = String::new();
        self.selected_category = None;
    }

    /// Empty every income-form buffer.
    pub fn clear_income_form(&mut self)
        ensures
            final(self).income_source@ == Seq::<char>::empty(),
            final(self).income_sum@ == Seq::<char>::empty(),
            *final(self) == (CombinedApp {
                income_source: final(self).income_source,
                income_sum: final(self).income_sum,
                ..*old(self)
            }),
    {
        self.income_source = String::new();
        self.income_sum = String::new();
    }
}

impl Default for CombinedApp {
    /// The startup session with the form dates at the epoch; a shell that
    /// knows the clock seeds them through `new` instead.
    fn default() -> (s: Self)
        ensures
            fresh_session(s, 0),
    {
        CombinedApp::new(0)
    }
}

} // verus!
