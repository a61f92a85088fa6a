//! What is refused before the engine is asked anything.

use crate::error::{Error, BAD_CHANNEL_COUNT, BAD_CONVERTER, BAD_SRC_RATIO};
use crate::interpolator::Interpolator;
use crate::ratio::{is_valid_ratio, supported};
use vstd::prelude::*;

verus! {

/// The most channels that the engine counts to.
pub const MAX_CHANNELS: usize = 0x7FFF_FFFF;

/// The code with which a converter of this kernel and channel count is
/// refused, if it is: the channel count is looked at first.
pub open spec fn setup_refusal(interpolator: Interpolator, channels: usize) -> Option<int> {
    if channels < 1 || channels > MAX_CHANNELS {
        Some(BAD_CHANNEL_COUNT as int)
    } else if !interpolator.supported() {
        Some(BAD_CONVERTER as int)
    } else {
        None
    }
}

/// The code with which a ratio is refused, if it is.
pub open spec fn ratio_refusal(ratio: u64) -> Option<int> {
    if supported(ratio) {
        None
    } else {
        Some(BAD_SRC_RATIO as int)
    }
}

/// Whether `result` says what `refusal` says.
pub open spec fn is_verdict(result: Result<(), Error>, refusal: Option<int>) -> bool {
    match result {
        Ok(_) => refusal is None,
        Err(e) => refusal == Some(e@),
    }
}

/// Refuses a channel count of zero or above `MAX_CHANNELS`, then a value that
/// no kernel stands behind.
pub fn check_setup(interpolator: Interpolator, channels: usize) -> (result: Result<(), Error>)
    ensures
        is_verdict(result, setup_refusal(interpolator, channels)),
{
    if channels < 1 || channels > MAX_CHANNELS {
        Err(Error::from_code(BAD_CHANNEL_COUNT))
    } else if !interpolator.is_supported() {
        Err(Error::from_code(BAD_CONVERTER))
    } else {
        Ok(())
    }
}

/// Refuses a ratio that the engine does not convert by.
pub fn check_ratio(ratio: u64) -> (result: Result<(), Error>)
    ensures
        is_verdict(result, ratio_refusal(ratio)),
{
    if is_valid_ratio(ratio) {
        Ok(())
    } else {
        Err(Error::from_code(BAD_SRC_RATIO))
    }
}

} // verus!
