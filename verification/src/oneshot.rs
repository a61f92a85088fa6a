//! Conversion of one complete buffer at a fixed ratio.
//!
//! The call is the whole stream: no input follows it. `prepare` says what to
//! ask the engine, and `convert` what the caller gets once the engine has
//! reported.

use crate::error::Error;
use crate::frames::{
    is_outcome, make_data, outcome, request_counts_frames, request_of, settle, Report, Request,
};
use crate::interpolator::Interpolator;
use crate::validate::{check_ratio, check_setup, ratio_refusal, setup_refusal};
use vstd::prelude::*;

verus! {

/// The code with which a conversion is refused before the engine is asked, if
/// it is: the channel count is looked at first, then the kernel, then the ratio.
pub open spec fn refusal(interpolator: Interpolator, channels: usize, ratio: u64) -> Option<int> {
    match setup_refusal(interpolator, channels) {
        Some(code) => Some(code),
        None => ratio_refusal(ratio),
    }
}

/// What a conversion comes to, given the engine's report.
pub open spec fn convert_spec(
    interpolator: Interpolator,
    channels: usize,
    ratio: u64,
    input_len: usize,
    output_len: usize,
    report: Report,
) -> Result<(int, int), int> {
    match refusal(interpolator, channels, ratio) {
        Some(code) => Err(code),
        None => outcome(request_of(channels, ratio, true, input_len, output_len), report),
    }
}

/// What to ask the engine, or the error with which the conversion is refused.
pub fn prepare(
    interpolator: Interpolator,
    channels: usize,
    ratio: u64,
    input_len: usize,
    output_len: usize,
) -> (result: Result<Request, Error>)
    requires
        channels > 0,
        input_len % channels == 0,
        output_len % channels == 0,
    ensures
        match result {
            Ok(request) => refusal(interpolator, channels, ratio) is None && request == request_of(
                channels,
                ratio,
                true,
                input_len,
                output_len,
            ),
            Err(e) => refusal(interpolator, channels, ratio) == Some(e@),
        },
{
    match check_setup(interpolator, channels) {
        Err(e) => { return Err(e); },
        Ok(_) => {},
    }
    match check_ratio(ratio) {
        Err(e) => { return Err(e); },
        Ok(_) => {},
    }
    Ok(make_data(channels, ratio, true, input_len, output_len))
}

/// Converts one complete buffer: the frames read from the input and the
/// frames written to the output, given what the engine reported of the
/// request that `prepare` made of the same arguments.
///
/// The counts never pass the frames that the buffers hold, whatever the
/// engine reported.
pub fn convert(
    interpolator: Interpolator,
    channels: usize,
    ratio: u64,
    input_len: usize,
    output_len: usize,
    report: Report,
) -> (result: Result<(usize, usize), Error>)
    requires
        channels > 0,
        input_len % channels == 0,
        output_len % channels == 0,
    ensures
        is_outcome(
            result,
            convert_spec(interpolator, channels, ratio, input_len, output_len, report),
        ),
        result matches Ok((used, generated)) ==> used <= input_len / channels && generated
            <= output_len / channels,
        !crate::ratio::is_positive(ratio) ==> result is Err,
{
    let request = match prepare(interpolator, channels, ratio, input_len, output_len) {
        Err(e) => { return Err(e); },
        Ok(request) => request,
    };
    proof {
        crate::ratio::supported_is_positive(ratio);
        request_counts_frames(channels, ratio, true, input_len, output_len);
    }
    settle(&request, &report)
}

} // verus!
