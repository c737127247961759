//! The two directions in which value is transmuted.

use vstd::prelude::*;

verus! {

#[derive(Debug, Clone, Copy, PartialEq, Eq)]
pub enum TransmuteIntoMsg {
    /// Turn the one coin paid with the call into ledger units.
    Cw20 {  },
    /// Turn `amount` ledger units of the caller into factory coins.
    Native { amount: u128 },
}

} // verus!
