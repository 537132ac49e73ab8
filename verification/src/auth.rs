//! Authentication against the credential store: login, registration, and
//! the secret-question password reset. Password hashing and checking are
//! bcrypt's work, behind trusted wrappers; everything decided from their
//! results is verified.

use vstd::prelude::*;
use vstd::string::StringExecFns;
use crate::store::{CredentialStore, CategoryStore, TransactionStore, User, NewUser, AuthData,
    user_index, id_index};
use crate::transaction::Transaction;
use crate::view_data::sort_by_date;

verus! {

/// Whether bcrypt accepts `password` against the hash string `hashed`: a
/// function of the two strings alone.
pub uninterp spec fn bcrypt_accepts(password: Seq<char>, hashed: Seq<char>) -> bool;

/// Relies on bcrypt::verify: it parses the hash string, re-derives the key
/// with the salt and cost embedded there, and compares — deterministic in
/// the password and the hash. A malformed hash makes it return an error,
/// which counts as no match here.
#[verifier::external_body]
fn verify_password(password: &str, hashed: &str) -> (r: bool)
    ensures
        r == bcrypt_accepts(password@, hashed@),
{
    bcrypt::verify(password, hashed).unwrap_or(false)
}

/// Relies on bcrypt::hash with DEFAULT_COST (a cost the crate always
/// accepts): the salt comes from the operating system, so of every outcome
/// only this holds: a returned hash verifies against the password it was
/// derived from.
#[verifier::external_body]
fn hash_password(password: &str) -> (r: Result<String, String>)
    ensures
        r matches Ok(h) ==> bcrypt_accepts(password@, h@),
{
    match bcrypt::hash(password, bcrypt::DEFAULT_COST) {
        Ok(h) => Ok(h),
        Err(e) => Err(format!("{:?}", e)),
    }
}

/// Verify a login attempt: find the user by name, then check the password
/// against the stored hash. "User not found" and "Invalid password" are
/// deliberately distinct.
pub fn attempt_login(store: &CredentialStore, auth_data: &AuthData) -> (r: Result<i32, String>)
    ensures
        (match user_index(store.users@, auth_data.username@) {
            Some(i) => {
                if bcrypt_accepts(auth_data.password@, store.users@[i].password@) {
                    r == Result::<i32, String>::Ok(store.users@[i].id)
                } else {
                    r matches Err(e) && e@ == "Invalid password"@
                }
            },
            None => r matches Err(e) && e@ == "User not found"@,
        }),
{
    match store.find_user_by_name(&auth_data.username) {
        None => Err("User not found".to_owned()),
        Some(user) => {
            if verify_password(auth_data.password.as_str(), user.password.as_str()) {
                Ok(user.id)
            } else {
                Err("Invalid password".to_owned())
            }
        },
    }
}

/// Register a user: hash the password, then create the record. Fails
/// exactly when the hash fails or the username is taken; an error leaves
/// the store unchanged.
pub fn attempt_register(store: &mut CredentialStore, auth_data: &AuthData) -> (r: Result<
    (),
    String,
>)
    requires
        old(store).wf(),
        old(store).next_id < i32::MAX,
    ensures
        final(store).wf(),
        r is Err ==> *final(store) == *old(store),
        user_index(old(store).users@, auth_data.username@) is Some ==> r is Err,
        r is Ok ==> user_index(old(store).users@, auth_data.username@) is None
            && final(store).next_id == old(store).next_id + 1
            && (exists|h: String|
            bcrypt_accepts(auth_data.password@, h@) && final(store).users@
                == old(store).users@.push(User {
                id: old(store).next_id,
                username: auth_data.username,
                password: h,
                secret_pass: auth_data.secret_pass,
            })),
{
    let hashed = match hash_password(auth_data.password.as_str()) {
        Ok(h) => h,
        Err(e) => {
            return Err("Password error: ".to_owned().concat(e.as_str()));
        },
    };
    let ghost hash_view = hashed;
    let new_user = NewUser {
        username: auth_data.username.clone(),
        password: hashed,
        secret_pass: auth_data.secret_pass.clone(),
    };
    match store.insert_user(new_user) {
        Ok(_id) => {
            proof {
                assert(bcrypt_accepts(auth_data.password@, hash_view@) && store.users@ == old(
                    store,
                ).users@.push(User {
                    id: old(store).next_id,
                    username: auth_data.username,
                    password: hash_view,
                    secret_pass: auth_data.secret_pass,
                }));
            }
            Ok(())
        },
        Err(e) => Err(e),
    }
}

/// Reset a password: the user must exist and the secret answer must match
/// exactly (case-sensitive); then the new password is hashed and stored.
/// On any failure — unknown user, wrong answer, hash failure — the store
/// is unchanged.
pub fn attempt_password_reset(
    store: &mut CredentialStore,
    username_str: &String,
    secret_str: &String,
    new_password: &String,
) -> (r: Result<(), String>)
    requires
        old(store).wf(),
    ensures
        final(store).wf(),
        r is Err ==> *final(store) == *old(store),
        (match user_index(old(store).users@, username_str@) {
            None => r matches Err(e) && e@ == "User not found"@,
            Some(i) => {
                if old(store).users@[i].secret_pass@ != secret_str@ {
                    r matches Err(e) && e@ == "Wrong answer to secret question"@
                } else {
                    r is Ok ==> (exists|h: String|
                        bcrypt_accepts(new_password@, h@) && final(store).users@
                            == old(store).users@.update(i, User {
                            password: h,
                            ..old(store).users@[i]
                        }))
                }
            },
        }),
{
    let user = match store.find_user_by_name(username_str) {
        None => {
            return Err("User not found".to_owned());
        },
        Some(u) => u,
    };
    if !user.secret_pass.eq(secret_str) {
        return Err("Wrong answer to secret question".to_owned());
    }
    let hashed = match hash_password(new_password.as_str()) {
        Ok(h) => h,
        Err(e) => {
            return Err("Hash error: ".to_owned().concat(e.as_str()));
        },
    };
    let ghost hash_view = hashed;
    let ghost idx = user_index(store.users@, username_str@)->0;
    proof {
        lemma_found_user_id_index(store.users@, username_str@, user);
    }
    match store.update_user_password(user.id, hashed) {
        Ok(u) => {
            proof {
                assert(bcrypt_accepts(new_password@, hash_view@) && store.users@ == old(
                    store,
                ).users@.update(idx, User { password: hash_view, ..old(store).users@[idx] }));
            }
            Ok(())
        },
        Err(e) => Err(e),
    }
}

/// In a store with unique ids, the user found under a name sits at the
/// same index whether looked up by name or by id.
proof fn lemma_found_user_id_index(users: Seq<User>, name: Seq<char>, user: User)
    requires
        forall|i: int, j: int| 0 <= i < j < users.len() ==> users[i].id != users[j].id,
        user_index(users, name) is Some,
        user == users[user_index(users, name)->0],
    ensures
        id_index(users, user.id) == user_index(users, name),
    decreases users.len(),
{
    let i = user_index(users, name)->0;
    lemma_user_index_in_range(users, name);
    assert forall|k: int| 0 <= k < i implies users[k].id != user.id by {}
    lemma_id_index_from_position(users, user.id, i);
}

proof fn lemma_user_index_in_range(users: Seq<User>, name: Seq<char>)
    requires
        user_index(users, name) is Some,
    ensures
        0 <= user_index(users, name)->0 < users.len(),
    decreases users.len(),
{
    if users.len() > 0 && users[0].username@ != name {
        lemma_user_index_in_range(users.drop_first(), name);
    }
}

proof fn lemma_id_index_from_position(users: Seq<User>, id: i32, i: int)
    requires
        0 <= i < users.len(),
        users[i].id == id,
        forall|k: int| 0 <= k < i ==> users[k].id != id,
    ensures
        id_index(users, id) == Some(i),
    decreases users.len(),
{
    if i > 0 {
        let t = users.drop_first();
        assert forall|k: int| 0 <= k < i - 1 implies t[k].id != id by {
            assert(t[k] == users[k + 1]);
        }
        assert(t[i - 1] == users[i]);
        lemma_id_index_from_position(t, id, i - 1);
    }
}

/// What a successful login loads in one combined step: the user's
/// transactions newest first, and every category name in order.
pub fn handle_successful_login(
    tx_store: &TransactionStore,
    cat_store: &CategoryStore,
    user_id: i32,
) -> (r: (Vec<Transaction>, Vec<String>))
    ensures
        r.0@ == sort_by_date(true, tx_store.rows@.filter(|t: Transaction| t.user_id == user_id)),
        r.1@ == cat_store.categories@.map_values(|c: crate::store::Category| c.name),
{
    let txs = tx_store.list_by_user(user_id);
    let n = cat_store.categories.len();
    let mut names: Vec<String> = Vec::new();
    let mut i: usize = 0;
    while i < n
        invariant
            i <= n,
            n == cat_store.categories@.len(),
            names@.len() == i,
            forall|k: int| 0 <= k < i ==> names@[k] == cat_store.categories@[k].name,
        decreases n - i,
    {
        names.push(cat_store.categories[i].name.clone());
        i = i + 1;
    }
    proof {
        assert(names@ =~= cat_store.categories@.map_values(
            |c: crate::store::Category| c.name,
        ));
    }
    (txs, names)
}

} // verus!
