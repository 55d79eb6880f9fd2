use vstd::prelude::*;

verus! {

/// The stored balance record of one user.
#[derive(Clone, Copy, Debug, PartialEq, Eq, Structural)]
pub struct UserDepositAccount {
    /// Lamports credited to this record so far.
    pub deposit_amount: u64,
}

/// The balance a record slot stands for: an absent record counts as zero.
pub open spec fn balance_of(slot: Option<UserDepositAccount>) -> nat {
    match slot {
        Some(record) => record.deposit_amount as nat,
        None => 0,
    }
}

impl UserDepositAccount {
    /// A freshly created record, holding nothing.
    pub fn new() -> (r: UserDepositAccount)
        ensures
            r.deposit_amount == 0,
    {
        UserDepositAccount { deposit_amount: 0 }
    }
}

} // verus!
