//! In-memory stores with the contracts the controller relies on: a
//! credential store keyed by username, a transaction store keyed by a
//! store-assigned id, and a category store. Each operation states exactly
//! when it succeeds and what the store holds afterwards.

use vstd::prelude::*;
use crate::transaction::{Transaction, NewTransaction};
use crate::view_data::sort_by_date;

verus! {

/// A stored user: the unique id, the unique username, the bcrypt hash of
/// the password, and the plaintext secret answer.
#[derive(Debug)]
pub struct User {
    pub id: i32,
    pub username: String,
    pub password: String,
    pub secret_pass: String,
}

/// A user to be created: everything but the store-assigned id.
#[derive(Debug)]
pub struct NewUser {
    pub username: String,
    pub password: String,
    pub secret_pass: String,
}

/// What a login or registration form submits.
#[derive(Debug)]
pub struct AuthData {
    pub username: String,
    pub password: String,
    pub secret_pass: String,
}

/// An expense category: a 1-based id and a name.
#[derive(Debug)]
pub struct Category {
    pub id: i32,
    pub name: String,
}

impl Clone for User {
    /// A clone is equal to the original, field for field.
    fn clone(&self) -> (r: Self)
        ensures
            r == *self,
    {
        User {
            id: self.id,
            username: self.username.clone(),
            password: self.password.clone(),
            secret_pass: self.secret_pass.clone(),
        }
    }
}

impl Clone for Category {
    /// A clone is equal to the original, field for field.
    fn clone(&self) -> (r: Self)
        ensures
            r == *self,
    {
        Category { id: self.id, name: self.name.clone() }
    }
}

/// The index of the first user called `name`, if any.
pub open spec fn user_index(users: Seq<User>, name: Seq<char>) -> Option<int>
    decreases users.len(),
{
    if users.len() == 0 {
        None
    } else if users[0].username@ == name {
        Some(0int)
    } else {
        match user_index(users.drop_first(), name) {
            Some(i) => Some(i + 1),
            None => None,
        }
    }
}

/// The index of the first user with this id, if any.
pub open spec fn id_index(users: Seq<User>, id: i32) -> Option<int>
    decreases users.len(),
{
    if users.len() == 0 {
        None
    } else if users[0].id == id {
        Some(0int)
    } else {
        match id_index(users.drop_first(), id) {
            Some(i) => Some(i + 1),
            None => None,
        }
    }
}

/// The index of the first transaction with this id, if any.
pub open spec fn row_index(rows: Seq<Transaction>, id: i32) -> Option<int>
    decreases rows.len(),
{
    if rows.len() == 0 {
        None
    } else if rows[0].tran_id == id {
        Some(0int)
    } else {
        match row_index(rows.drop_first(), id) {
            Some(i) => Some(i + 1),
            None => None,
        }
    }
}

proof fn lemma_user_index_is(users: Seq<User>, name: Seq<char>, i: int)
    requires
        0 <= i <= users.len(),
        forall|k: int| 0 <= k < i ==> users[k].username@ != name,
        i < users.len() ==> users[i].username@ == name,
    ensures
        user_index(users, name) == (if i < users.len() {
            Some(i)
        } else {
            Option::<int>::None
        }),
    decreases users.len(),
{
    if users.len() == 0 {
    } else if i == 0 {
    } else {
        let t = users.drop_first();
        assert forall|k: int| 0 <= k < i - 1 implies t[k].username@ != name by {
            assert(t[k] == users[k + 1]);
        }
        if i - 1 < t.len() {
            assert(t[i - 1] == users[i]);
        }
        lemma_user_index_is(t, name, i - 1);
    }
}

proof fn lemma_id_index_is(users: Seq<User>, id: i32, i: int)
    requires
        0 <= i <= users.len(),
        forall|k: int| 0 <= k < i ==> users[k].id != id,
        i < users.len() ==> users[i].id == id,
    ensures
        id_index(users, id) == (if i < users.len() {
            Some(i)
        } else {
            Option::<int>::None
        }),
    decreases users.len(),
{
    if users.len() == 0 {
    } else if i == 0 {
    } else {
        let t = users.drop_first();
        assert forall|k: int| 0 <= k < i - 1 implies t[k].id != id by {
            assert(t[k] == users[k + 1]);
        }
        if i - 1 < t.len() {
            assert(t[i - 1] == users[i]);
        }
        lemma_id_index_is(t, id, i - 1);
    }
}

proof fn lemma_row_index_is(rows: Seq<Transaction>, id: i32, i: int)
    requires
        0 <= i <= rows.len(),
        forall|k: int| 0 <= k < i ==> rows[k].tran_id != id,
        i < rows.len() ==> rows[i].tran_id == id,
    ensures
        row_index(rows, id) == (if i < rows.len() {
            Some(i)
        } else {
            Option::<int>::None
        }),
    decreases rows.len(),
{
    if rows.len() == 0 {
    } else if i == 0 {
    } else {
        let t = rows.drop_first();
        assert forall|k: int| 0 <= k < i - 1 implies t[k].tran_id != id by {
            assert(t[k] == rows[k + 1]);
        }
        if i - 1 < t.len() {
            assert(t[i - 1] == rows[i]);
        }
        lemma_row_index_is(t, id, i - 1);
    }
}

/// The credential store: one record per username.
#[derive(Debug)]
pub struct CredentialStore {
    pub users: Vec<User>,
    pub next_id: i32,
}

impl CredentialStore {
    /// Usernames unique, ids unique and all below the next id to assign.
    pub open spec fn wf(self) -> bool {
        &&& forall|i: int, j: int|
            0 <= i < j < self.users@.len() ==> self.users@[i].username@ != self.users@[j].username@
        &&& forall|i: int, j: int|
            0 <= i < j < self.users@.len() ==> self.users@[i].id != self.users@[j].id
        &&& forall|i: int| 0 <= i < self.users@.len() ==> self.users@[i].id < self.next_id
    }

    /// The empty store.
    pub fn new() -> (s: CredentialStore)
        ensures
            s.users@ == Seq::<User>::empty(),
            s.next_id == 1,
            s.wf(),
    {
        CredentialStore { users: Vec::new(), next_id: 1 }
    }

    /// Look a user up by name: a copy of the first record under that
    /// username, or nothing.
    pub fn find_user_by_name(&self, name: &String) -> (r: Option<User>)
        ensures
            r == (match user_index(self.users@, name@) {
                Some(i) => Some(self.users@[i]),
                None => None,
            }),
    {
        let n = self.users.len();
        let mut i: usize = 0;
        while i < n
            invariant
                i <= n,
                n == self.users@.len(),
                forall|k: int| 0 <= k < i ==> self.users@[k].username@ != name@,
            decreases n - i,
        {
            if self.users[i].username.eq(name) {
                proof {
                    lemma_user_index_is(self.users@, name@, i as int);
                }
                return Some(self.users[i].clone());
            }
            i = i + 1;
        }
        proof {
            lemma_user_index_is(self.users@, name@, n as int);
        }
        None
    }

    /// Create a user. Succeeds exactly when the username is free; the new
    /// record gets the next id and goes at the end.
    pub fn insert_user(&mut self, new_user: NewUser) -> (r: Result<i32, String>)
        requires
            old(self).wf(),
            old(self).next_id < i32::MAX,
        ensures
            final(self).wf(),
            r is Ok <==> user_index(old(self).users@, new_user.username@) is None,
            (r matches Ok(id) ==> id == old(self).next_id
                && final(self).users@ == old(self).users@.push(User {
                    id: old(self).next_id,
                    username: new_user.username,
                    password: new_user.password,
                    secret_pass: new_user.secret_pass,
                })
                && final(self).next_id == old(self).next_id + 1),
            (r matches Err(e) ==> *final(self) == *old(self)
                && e@ == "Registration error: username is taken"@),
    {
        match self.find_user_by_name(&new_user.username) {
            Some(_u) => Err("Registration error: username is taken".to_owned()),
            None => {
                let id = self.next_id;
                let user = User {
                    id,
                    username: new_user.username,
                    password: new_user.password,
                    secret_pass: new_user.secret_pass,
                };
                self.users.push(user);
                self.next_id = self.next_id + 1;
                proof {
                    assert forall|i: int, j: int|
                        0 <= i < j < self.users@.len() implies self.users@[i].username@
                        != self.users@[j].username@ by {
                        if j < old(self).users@.len() {
                        } else {
                            lemma_user_index_none_means_absent(
                                old(self).users@,
                                self.users@[j].username@,
                                i,
                            );
                        }
                    }
                }
                Ok(id)
            },
        }
    }

    /// Store a new password hash for the user with this id. Succeeds
    /// exactly when such a user exists; only that record's hash changes.
    pub fn update_user_password(&mut self, id: i32, new_hash: String) -> (r: Result<(), String>)
        requires
            old(self).wf(),
        ensures
            final(self).wf(),
            final(self).next_id == old(self).next_id,
            r is Ok <==> id_index(old(self).users@, id) is Some,
            (match id_index(old(self).users@, id) {
                Some(i) => final(self).users@ == old(self).users@.update(i, User {
                    password: new_hash,
                    ..old(self).users@[i]
                }),
                None => *final(self) == *old(self),
            }),
            r matches Err(e) ==> e@ == "Update error: user not found"@,
    {
        let n = self.users.len();
        let mut i: usize = 0;
        while i < n
            invariant
                i <= n,
                n == self.users@.len(),
                *self == *old(self),
                old(self).wf(),
                forall|k: int| 0 <= k < i ==> self.users@[k].id != id,
            decreases n - i,
        {
            if self.users[i].id == id {
                proof {
                    lemma_id_index_is(self.users@, id, i as int);
                }
                let updated = User {
                    id: self.users[i].id,
                    username: self.users[i].username.clone(),
                    password: new_hash,
                    secret_pass: self.users[i].secret_pass.clone(),
                };
                self.users.set(i, updated);
                proof {
                    assert forall|a: int, b: int|
                        0 <= a < b < self.users@.len() implies self.users@[a].username@
                        != self.users@[b].username@ by {
                        assert(old(self).users@[a].username@ != old(self).users@[b].username@);
                    }
                    assert forall|a: int, b: int|
                        0 <= a < b < self.users@.len() implies self.users@[a].id
                        != self.users@[b].id by {
                        assert(old(self).users@[a].id != old(self).users@[b].id);
                    }
                }
                return Ok(());
            }
            i = i + 1;
        }
        proof {
            lemma_id_index_is(self.users@, id, n as int);
        }
        Err("Update error: user not found".to_owned())
    }
}

proof fn lemma_user_index_none_means_absent(users: Seq<User>, name: Seq<char>, i: int)
    requires
        user_index(users, name) is None,
        0 <= i < users.len(),
    ensures
        users[i].username@ != name,
    decreases users.len(),
{
    if users.len() > 0 && i > 0 {
        lemma_user_index_none_means_absent(users.drop_first(), name, i - 1);
        assert(users.drop_first()[i - 1] == users[i]);
    }
}

/// The transaction store: append-only rows with store-assigned ids, plus
/// deletion by id.
#[derive(Debug)]
pub struct TransactionStore {
    pub rows: Vec<Transaction>,
    pub next_id: i32,
}

impl TransactionStore {
    /// Ids unique and all below the next id to assign.
    pub open spec fn wf(self) -> bool {
        &&& forall|i: int, j: int|
            0 <= i < j < self.rows@.len() ==> self.rows@[i].tran_id != self.rows@[j].tran_id
        &&& forall|i: int| 0 <= i < self.rows@.len() ==> self.rows@[i].tran_id < self.next_id
    }

    /// The empty store.
    pub fn new() -> (s: TransactionStore)
        ensures
            s.rows@ == Seq::<Transaction>::empty(),
            s.next_id == 1,
            s.wf(),
    {
        TransactionStore { rows: Vec::new(), next_id: 1 }
    }

    /// Append a record under the next id.
    pub fn insert(&mut self, t: NewTransaction) -> (id: i32)
        requires
            old(self).wf(),
            old(self).next_id < i32::MAX,
        ensures
            final(self).wf(),
            id == old(self).next_id,
            final(self).next_id == old(self).next_id + 1,
            final(self).rows@ == old(self).rows@.push(Transaction {
                tran_id: old(self).next_id,
                tran_type: t.tran_type,
                user_id: t.user_id,
                tran_source: t.tran_source,
                date: t.date,
                tran_amount: t.tran_amount,
                tran_comment: t.tran_comment,
                tag_id: t.tag_id,
            }),
    {
        let id = self.next_id;
        let row = Transaction {
            tran_id: id,
            tran_type: t.tran_type,
            user_id: t.user_id,
            tran_source: t.tran_source,
            date: t.date,
            tran_amount: t.tran_amount,
            tran_comment: t.tran_comment,
            tag_id: t.tag_id,
        };
        self.rows.push(row);
        self.next_id = self.next_id + 1;
        id
    }

    /// The user's rows, newest first: the cached list a login loads.
    pub fn list_by_user(&self, uid: i32) -> (r: Vec<Transaction>)
        ensures
            r@ == sort_by_date(true, self.rows@.filter(|t: Transaction| t.user_id == uid)),
    {
        let n = self.rows.len();
        let mut mine: Vec<Transaction> = Vec::new();
        let mut i: usize = 0;
        proof {
            reveal(Seq::filter);
            assert(self.rows@.take(0).filter(|t: Transaction| t.user_id == uid) =~= Seq::empty());
        }
        while i < n
            invariant
                i <= n,
                n == self.rows@.len(),
                mine@ == self.rows@.take(i as int).filter(|t: Transaction| t.user_id == uid),
            decreases n - i,
        {
            proof {
                reveal(Seq::filter);
                assert(self.rows@.take(i + 1).drop_last() =~= self.rows@.take(i as int));
                assert(self.rows@.take(i + 1).last() == self.rows@[i as int]);
            }
            if self.rows[i].user_id == uid {
                mine.push(self.rows[i].clone());
            }
            i = i + 1;
        }
        proof {
            assert(self.rows@.take(n as int) =~= self.rows@);
        }
        crate::view_data::sorted_by_date(&mine, true)
    }

    /// Remove the row with this id. Succeeds exactly when it exists.
    pub fn delete(&mut self, tran_id: i32) -> (r: Result<(), String>)
        requires
            old(self).wf(),
        ensures
            final(self).wf(),
            final(self).next_id == old(self).next_id,
            r is Ok <==> row_index(old(self).rows@, tran_id) is Some,
            (match row_index(old(self).rows@, tran_id) {
                Some(i) => final(self).rows@ == old(self).rows@.remove(i),
                None => *final(self) == *old(self),
            }),
            r matches Err(e) ==> e@ == "not found"@,
    {
        let n = self.rows.len();
        let mut i: usize = 0;
        while i < n
            invariant
                i <= n,
                n == self.rows@.len(),
                *self == *old(self),
                old(self).wf(),
                forall|k: int| 0 <= k < i ==> self.rows@[k].tran_id != tran_id,
            decreases n - i,
        {
            if self.rows[i].tran_id == tran_id {
                proof {
                    lemma_row_index_is(self.rows@, tran_id, i as int);
                }
                self.rows.remove(i);
                proof {
                    old(self).rows@.remove_ensures(i as int);
                    assert forall|a: int, b: int|
                        0 <= a < b < self.rows@.len() implies self.rows@[a].tran_id
                        != self.rows@[b].tran_id by {
                        assert(self.rows@[a] == (if a < i { old(self).rows@[a] } else {
                            old(self).rows@[a + 1]
                        }));
                        assert(self.rows@[b] == (if b < i { old(self).rows@[b] } else {
                            old(self).rows@[b + 1]
                        }));
                    }
                    assert forall|a: int| 0 <= a < self.rows@.len() implies self.rows@[a].tran_id
                        < self.next_id by {
                        assert(self.rows@[a] == (if a < i { old(self).rows@[a] } else {
                            old(self).rows@[a + 1]
                        }));
                    }
                }
                return Ok(());
            }
            i = i + 1;
        }
        proof {
            lemma_row_index_is(self.rows@, tran_id, n as int);
        }
        Err("not found".to_owned())
    }
}

/// The category store: the fixed list of expense categories, ids equal to
/// 1-based positions.
#[derive(Debug)]
pub struct CategoryStore {
    pub categories: Vec<Category>,
}

impl CategoryStore {
    /// Each category's id is its 1-based position.
    pub open spec fn wf(self) -> bool {
        forall|i: int| 0 <= i < self.categories@.len() ==> self.categories@[i].id == i + 1
    }

    /// The empty store.
    pub fn new() -> (s: CategoryStore)
        ensures
            s.categories@ == Seq::<Category>::empty(),
            s.wf(),
    {
        CategoryStore { categories: Vec::new() }
    }

    /// Append a category under the next 1-based id.
    pub fn add_category(&mut self, name: String) -> (id: i32)
        requires
            old(self).wf(),
            old(self).categories@.len() < i32::MAX,
        ensures
            final(self).wf(),
            id == old(self).categories@.len() + 1,
            final(self).categories@ == old(self).categories@.push(Category { id, name }),
    {
        let id = (self.categories.len() as i32) + 1;
        self.categories.push(Category { id, name });
        id
    }

    /// A copy of every category, in order.
    pub fn list_all(&self) -> (r: Vec<Category>)
        ensures
            r@ == self.categories@,
    {
        let n = self.categories.len();
        let mut out: Vec<Category> = Vec::new();
        let mut i: usize = 0;
        while i < n
            invariant
                i <= n,
                n == self.categories@.len(),
                out@ == self.categories@.take(i as int),
            decreases n - i,
        {
            out.push(self.categories[i].clone());
            proof {
                assert(self.categories@.take(i + 1) =~= self.categories@.take(i as int).push(
                    self.categories@[i as int],
                ));
            }
            i = i + 1;
        }
        proof {
            assert(self.categories@.take(n as int) =~= self.categories@);
        }
        out
    }
}

/// Load every category. The in-memory store cannot fail, so this always
/// succeeds with the full list.
pub fn load_categories(store: &CategoryStore) -> (r: Result<Vec<Category>, String>)
    ensures
        r matches Ok(v) && v@ == store.categories@,
{
    Ok(store.list_all())
}

/// Load the user's transactions, newest first. The in-memory store cannot
/// fail, so this always succeeds.
pub fn load_transactions(store: &TransactionStore, uid: i32) -> (r: Result<
    Vec<Transaction>,
    String,
>)
    ensures
        r matches Ok(v) && v@ == sort_by_date(
            true,
            store.rows@.filter(|t: Transaction| t.user_id == uid),
        ),
{
    Ok(store.list_by_user(uid))
}

/// Insert an expense row: kind Expense, no comment, the given category.
pub fn add_expense(
    store: &mut TransactionStore,
    uid: i32,
    source_str: &String,
    date: i64,
    amount: u64,
    tag_id: Option<i32>,
) -> (r: Result<(), String>)
    requires
        old(store).wf(),
        old(store).next_id < i32::MAX,
    ensures
        final(store).wf(),
        r is Ok,
        final(store).rows@ == old(store).rows@.push(Transaction {
            tran_id: old(store).next_id,
            tran_type: crate::transaction::TranKind::Expense,
            user_id: uid,
            tran_source: *source_str,
            date,
            tran_amount: amount,
            tran_comment: None,
            tag_id,
        }),
{
    let row = NewTransaction {
        tran_type: crate::transaction::TranKind::Expense,
        user_id: uid,
        tran_source: source_str.clone(),
        date,
        tran_amount: amount,
        tran_comment: None,
        tag_id,
    };
    store.insert(row);
    Ok(())
}

/// Insert an income row: kind Income, no comment, no category. Returns how
/// many rows were inserted.
pub fn add_income(
    store: &mut TransactionStore,
    uid: i32,
    source_str: &String,
    date: i64,
    amount: u64,
) -> (r: Result<usize, String>)
    requires
        old(store).wf(),
        old(store).next_id < i32::MAX,
    ensures
        final(store).wf(),
        r matches Ok(n) && n == 1usize,
        final(store).rows@ == old(store).rows@.push(Transaction {
            tran_id: old(store).next_id,
            tran_type: crate::transaction::TranKind::Income,
            user_id: uid,
            tran_source: *source_str,
            date,
            tran_amount: amount,
            tran_comment: None,
            tag_id: None,
        }),
{
    let row = NewTransaction {
        tran_type: crate::transaction::TranKind::Income,
        user_id: uid,
        tran_source: source_str.clone(),
        date,
        tran_amount: amount,
        tran_comment: None,
        tag_id: None,
    };
    store.insert(row);
    Ok(1)
}

/// Delete the row with this id; "not found" exactly when no row has it.
pub fn delete_transaction(store: &mut TransactionStore, tx_id: i32) -> (r: Result<(), String>)
    requires
        old(store).wf(),
    ensures
        final(store).wf(),
        r is Ok <==> row_index(old(store).rows@, tx_id) is Some,
        (match row_index(old(store).rows@, tx_id) {
            Some(i) => final(store).rows@ == old(store).rows@.remove(i),
            None => *final(store) == *old(store),
        }),
        r matches Err(e) ==> e@ == "not found"@,
{
    store.delete(tx_id)
}

} // verus!
