//! The rules that a pricing request must meet before anything is computed.

use vstd::prelude::*;
use crate::double::Double;
use crate::error::Error;

verus! {

/// The message for a spot price that is not positive.
pub open spec fn spot_message() -> Seq<char> {
    "spot must be positive"@
}

/// The message for a strike price that is not positive.
pub open spec fn strike_message() -> Seq<char> {
    "strike must be positive"@
}

/// The message for a negative time to expiry.
pub open spec fn time_message() -> Seq<char> {
    "time must be non-negative"@
}

/// Why a request is rejected, if it is: the first rule it breaks, taken in
/// the order spot, strike, time. `None` means that the request is accepted.
///
/// The spot and the strike must each be greater than zero, and the time must
/// be zero or more. A NaN is neither, so a NaN in any of the three is
/// rejected.
pub open spec fn rejection(spot: Double, strike: Double, time: Double) -> Option<Seq<char>> {
    if !spot.above_zero() {
        Some(spot_message())
    } else if !strike.above_zero() {
        Some(strike_message())
    } else if time.below_zero() || time.is_nan() {
        Some(time_message())
    } else {
        None
    }
}

/// Checks the three inputs that the pricing formula constrains.
///
/// The spot and the strike must be greater than zero, and the time to expiry
/// must be zero or more. The first rule that fails, in that order, makes the
/// error. Volatility and rate are not constrained.
pub fn validate(spot: Double, strike: Double, time: Double) -> (result: Result<(), Error>)
    ensures
        match result {
            Ok(_) => rejection(spot, strike, time) is None,
            Err(e) => rejection(spot, strike, time) == Some(e.message_view()),
        },
{
    if !spot.gt_zero() {
        return Err(Error::generic("spot must be positive"));
    }
    if !strike.gt_zero() {
        return Err(Error::generic("strike must be positive"));
    }
    if time.lt_zero() || time.nan() {
        return Err(Error::generic("time must be non-negative"));
    }
    Ok(())
}

/// A request is accepted exactly when spot and strike are each above zero
/// and the time is a number that is not below zero. No accepted input is a
/// NaN.
pub proof fn lemma_accepted_inputs(spot: Double, strike: Double, time: Double)
    ensures
        rejection(spot, strike, time) is None <==> {
            &&& spot.above_zero()
            &&& strike.above_zero()
            &&& !time.below_zero()
            &&& !time.is_nan()
        },
        rejection(spot, strike, time) is None ==> !spot.is_nan() && !strike.is_nan()
            && !time.is_nan(),
{
}

} // verus!
