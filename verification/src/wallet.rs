//! The rule of the tip: what the wallet may send.

use vstd::prelude::*;

verus! {

/// An amount of the chain's smallest unit: a 256-bit number in two halves.
#[derive(Clone, Copy, Debug, PartialEq, Eq, Structural)]
pub struct Wei {
    pub high: u128,
    pub low: u128,
}

impl Wei {
    /// The number that the two halves stand for.
    pub open spec fn value(self) -> nat {
        (self.high as nat) * 0x1_0000_0000_0000_0000_0000_0000_0000_0000nat + self.low as nat
    }
}

/// Whether a wallet holding `balance` may send a tip of `amount`: the
/// balance has to exceed the amount, since the fee comes on top.
pub fn tip_affordable(balance: Wei, amount: Wei) -> (yes: bool)
    ensures
        yes == (balance.value() > amount.value()),
{
    balance.high > amount.high || (balance.high == amount.high && balance.low > amount.low)
}

} // verus!
