//! A holding account: the model of one balance-bearing account on the value
//! ledger, as the core observes it. Only its current balance and its
//! non-releasable reserve floor matter to the logic; actually moving funds is
//! the surrounding application's job, directed by the amounts the operations
//! here return.

use vstd::prelude::*;

verus! {

/// A balance held for the system, of which `reserve` can never be released
/// (the host ledger's minimum account balance).
#[derive(Clone, Copy, Debug, PartialEq, Eq, Structural)]
pub struct HoldingAccount {
    pub balance: u64,
    pub reserve: u64,
}

impl HoldingAccount {
    /// The account never dips below its reserve floor.
    pub open spec fn wf(self) -> bool {
        self.reserve <= self.balance
    }

    /// The releasable part of the balance.
    pub open spec fn spec_available(self) -> int {
        self.balance - self.reserve
    }

    /// A freshly funded account holding exactly its reserve floor.
    pub fn new(reserve: u64) -> (r: HoldingAccount)
        ensures
            r == (HoldingAccount { balance: reserve, reserve: reserve }),
            r.wf(),
            r.spec_available() == 0,
    {
        HoldingAccount { balance: reserve, reserve }
    }

    /// How much the account can release without breaching its reserve.
    pub fn available(&self) -> (r: u64)
        requires
            self.wf(),
        ensures
            r == self.spec_available(),
    {
        self.balance - self.reserve
    }
}

} // verus!
