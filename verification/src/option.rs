//! The two kinds of European option.

use vstd::prelude::*;

verus! {

/// Which side of the contract a premium is asked for.
#[derive(Clone, Copy, Debug, PartialEq, Eq, Structural)]
pub enum OptionType {
    /// The right to buy at the strike.
    Call,
    /// The right to sell at the strike.
    Put,
}

} // verus!
