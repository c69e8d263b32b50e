//! From a pricing request to the computation that answers it.
//!
//! A request names an option kind and the inputs. Before any arithmetic is
//! done it is either rejected, with the reason, or given the formula by which
//! its premium is to be computed. The arithmetic itself is the caller's part.

use vstd::prelude::*;
use crate::double::Double;
use crate::error::Error;
use crate::option::OptionType;
use crate::validate::{rejection, validate};

verus! {

/// The way in which an accepted request is priced.
#[derive(Clone, Copy, Debug, PartialEq, Eq, Structural)]
pub enum Formula {
    /// The closed form of the call premium.
    Call,
    /// The call premium first, then put-call parity: the put has no closed
    /// form of its own.
    CallThenParity,
}

/// The formula that prices an option of the given kind.
pub open spec fn formula_for(kind: OptionType) -> Formula {
    match kind {
        OptionType::Call => Formula::Call,
        OptionType::Put => Formula::CallThenParity,
    }
}

/// What becomes of a request: the formula for its kind where the inputs are
/// accepted, and the reason of the rejection where they are not.
pub open spec fn outcome(kind: OptionType, spot: Double, strike: Double, time: Double) -> Result<
    Formula,
    Seq<char>,
> {
    match rejection(spot, strike, time) {
        Some(reason) => Err(reason),
        None => Ok(formula_for(kind)),
    }
}

/// Decides what to do with a request: validation comes first, and only an
/// accepted request is given a formula. The kind has no part in validation.
pub fn select(kind: OptionType, spot: Double, strike: Double, time: Double) -> (result: Result<
    Formula,
    Error,
>)
    ensures
        match result {
            Ok(formula) => outcome(kind, spot, strike, time) == Ok::<Formula, Seq<char>>(formula),
            Err(e) => outcome(kind, spot, strike, time) == Err::<Formula, Seq<char>>(
                e.message_view(),
            ),
        },
{
    match validate(spot, strike, time) {
        Err(e) => Err(e),
        Ok(_) => match kind {
            OptionType::Call => Ok(Formula::Call),
            OptionType::Put => Ok(Formula::CallThenParity),
        },
    }
}

/// A call and a put on the same inputs are accepted together or rejected
/// together, and for the same reason.
pub proof fn lemma_kind_has_no_part_in_validation(spot: Double, strike: Double, time: Double)
    ensures
        outcome(OptionType::Call, spot, strike, time) is Ok <==> outcome(
            OptionType::Put,
            spot,
            strike,
            time,
        ) is Ok,
        outcome(OptionType::Call, spot, strike, time) is Err ==> outcome(
            OptionType::Call,
            spot,
            strike,
            time,
        )->Err_0 == outcome(OptionType::Put, spot, strike, time)->Err_0,
{
}

} // verus!
