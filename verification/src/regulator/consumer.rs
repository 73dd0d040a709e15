//! SoC Regulator consumer abstractions.
//!
//! What the numbers mean that the calls on a consumer's regulator hand back.

use crate::error::{spec_to_value, to_value, Error};
use crate::regulator::Mode;
use vstd::prelude::*;

verus! {

/// What the answer `ret` to "is the regulator enabled" or "is the voltage
/// supported" means: a failure where it is negative, else yes where it is positive.
pub fn flag(ret: i32) -> (answer: Result<bool, Error>)
    ensures
        ret < 0 ==> answer == Err::<bool, Error>(Error::BusError(ret)),
        ret >= 0 ==> answer == Ok::<bool, Error>(ret > 0),
{
    match to_value(ret) {
        Ok(value) => Ok(value > 0),
        Err(e) => Err(e),
    }
}

/// What the answer `ret` to a query for a voltage, a current or a time
/// means: a failure where it is negative, else the value.
pub fn value(ret: i32) -> (answer: Result<i32, Error>)
    ensures
        answer == spec_to_value(ret),
{
    to_value(ret)
}

/// What the answer `ret` to the count of selectors means: a failure where it
/// is negative, else the count.
pub fn count(ret: i32) -> (answer: Result<usize, Error>)
    ensures
        ret < 0 ==> answer == Err::<usize, Error>(Error::BusError(ret)),
        ret >= 0 ==> answer == Ok::<usize, Error>(ret as usize),
{
    match to_value(ret) {
        Ok(value) => Ok(value as usize),
        Err(e) => Err(e),
    }
}

/// What the answer `ret` to the voltage of a selector means: a failure where
/// it is negative, no voltage where it is zero (the selector is unusable),
/// else the voltage.
pub fn listed_voltage(ret: i32) -> (answer: Result<Option<i32>, Error>)
    ensures
        ret < 0 ==> answer == Err::<Option<i32>, Error>(Error::BusError(ret)),
        ret == 0 ==> answer == Ok::<Option<i32>, Error>(None),
        ret > 0 ==> answer == Ok::<Option<i32>, Error>(Some(ret)),
{
    match to_value(ret) {
        Ok(value) => Ok(
            if value == 0 {
                None
            } else {
                Some(value)
            },
        ),
        Err(e) => Err(e),
    }
}

/// What the answer `ret` to the voltage step between selectors means: no
/// step where it is zero, else the step.
pub fn linear_step(ret: u32) -> (answer: Option<u32>)
    ensures
        ret == 0 ==> answer is None,
        ret != 0 ==> answer == Some(ret),
{
    if ret == 0 {
        None
    } else {
        Some(ret)
    }
}

/// The delay handed on for a deferred disable: the milliseconds asked for,
/// or the largest delay that can be handed on where they exceed it.
pub fn deferred_millis(millis: u128) -> (delay: i32)
    ensures
        delay == if millis > i32::MAX {
            i32::MAX as int
        } else {
            millis as int
        },
{
    if millis > 0x7fff_ffff {
        0x7fff_ffff
    } else {
        millis as i32
    }
}

/// What the answer `raw` to the operating mode means: the mode it stands
/// for; a number that stands for none is an invalid argument.
pub fn mode(raw: u32) -> (answer: Result<Mode, Error>)
    ensures
        answer matches Ok(m) ==> m.spec_to_bindings() == raw,
        answer matches Err(e) ==> e == Error::InvalidArgument && forall|m: Mode|
            #[trigger] m.spec_to_bindings() != raw,
{
    Mode::from_bindings(raw)
}

} // verus!
