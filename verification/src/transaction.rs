//! Transaction records as the session caches them.
//!
//! Amounts are magnitudes in hundredths of the currency unit (cents), never
//! signed: the sign is implied by the transaction kind. Dates are seconds
//! since the Unix epoch.

use vstd::prelude::*;

verus! {

/// Whether a transaction adds to or subtracts from the balance.
#[derive(Debug, Clone, Copy, PartialEq, Eq, Structural)]
pub enum TranKind {
    Income,
    Expense,
}

/// A stored transaction, as the transaction store hands it out and the
/// session caches it. `tag_id` is the 1-based category id and is only
/// meaningful for expenses.
#[derive(Debug)]
pub struct Transaction {
    pub tran_id: i32,
    pub tran_type: TranKind,
    pub user_id: i32,
    pub tran_source: String,
    pub date: i64,
    pub tran_amount: u64,
    pub tran_comment: Option<String>,
    pub tag_id: Option<i32>,
}

/// A transaction to be inserted: everything but the store-assigned id.
#[derive(Debug, Clone)]
pub struct NewTransaction {
    pub tran_type: TranKind,
    pub user_id: i32,
    pub tran_source: String,
    pub date: i64,
    pub tran_amount: u64,
    pub tran_comment: Option<String>,
    pub tag_id: Option<i32>,
}


fn clone_opt_string(o: &Option<String>) -> (r: Option<String>)
    ensures
        r == *o,
{
    match o.as_ref() {
        None => None,
        Some(s) => {
            proof {
                assert(*o == Some(o->0));
            }
            Some(s.clone())
        },
    }
}

impl Clone for Transaction {
    /// A clone is equal to the original, field for field.
    fn clone(&self) -> (r: Self)
        ensures
            r == *self,
    {
        Transaction {
            tran_id: self.tran_id,
            tran_type: self.tran_type,
            user_id: self.user_id,
            tran_source: self.tran_source.clone(),
            date: self.date,
            tran_amount: self.tran_amount,
            tran_comment: clone_opt_string(&self.tran_comment),
            tag_id: self.tag_id,
        }
    }
}

} // verus!
