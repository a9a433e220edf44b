//! The direction of a user transaction.

use vstd::prelude::*;

verus! {

/// The type of a user transaction; transfers out are debits.
#[derive(Clone, Copy, Debug, PartialEq, Eq)]
pub enum TransactionType {
    Debit,
}

impl TransactionType {
    /// The name stored for this type.
    pub open spec fn name(self) -> Seq<char> {
        match self {
            TransactionType::Debit => "debit"@,
        }
    }

    /// The name stored for this type.
    pub fn to_string(&self) -> (res: String)
        ensures
            res@ == self.name(),
    {
        match self {
            TransactionType::Debit => String::from_str("debit"),
        }
    }
}

} // verus!
