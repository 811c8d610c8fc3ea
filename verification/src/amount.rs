//! Amounts of money, as the gateway writes them.

use vstd::prelude::*;

verus! {

/// An amount: an IEEE 754 double, kept as its bit pattern. The library
/// hands amounts on and never computes with them.
#[derive(Clone, Copy, Debug, PartialEq, Eq, Structural)]
pub struct Amount {
    pub bits: u64,
}

impl Amount {
    /// The amount zero: the double `0.0`, whose bits are all zero.
    pub open spec fn nothing() -> Amount {
        Amount { bits: 0 }
    }

    /// Gives [`Amount::nothing`].
    pub fn zero() -> (r: Amount)
        ensures
            r == Amount::nothing(),
    {
        Amount { bits: 0 }
    }
}

} // verus!
