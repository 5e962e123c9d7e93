//! The clock of the application: how much time has passed since it started.

use crate::fixed::Fixed;
use bevy_time::Time;
use vstd::prelude::*;

verus! {

/// `bevy_time::Time`, the clock that the application advances once per
/// frame. The library reads its elapsed time and nothing else.
#[verifier::external_type_specification]
#[verifier::external_body]
#[verifier::reject_recursive_types(T)]
pub struct ExTime<T: Default>(bevy_time::Time<T>);

/// `Time::elapsed` of bevy_time, in whole microseconds as
/// `Duration::as_micros` counts them. What the clock shows is not known
/// here: nothing is claimed of the result.
#[verifier::external_body]
fn elapsed_micros<T: Default>(time: &Time<T>) -> (micros: u128) {
    time.elapsed().as_micros()
}

/// A time span of so many microseconds in seconds; the greatest number
/// stands for what is beyond the range.
pub open spec fn seconds_of_micros(micros: u128) -> Fixed {
    if micros > i64::MAX {
        Fixed { raw: i64::MAX }
    } else {
        Fixed { raw: micros as i64 }
    }
}

/// A time span of so many microseconds in seconds.
pub fn seconds_from_micros(micros: u128) -> (r: Fixed)
    ensures
        r == seconds_of_micros(micros),
        r@ >= 0,
{
    if micros > i64::MAX as u128 {
        Fixed { raw: i64::MAX }
    } else {
        Fixed { raw: micros as i64 }
    }
}

/// The time that has passed on the clock since the application started, in
/// seconds. It is never negative.
pub fn elapsed_seconds<T: Default>(time: &Time<T>) -> (r: Fixed)
    ensures
        r@ >= 0,
{
    seconds_from_micros(elapsed_micros(time))
}

} // verus!
