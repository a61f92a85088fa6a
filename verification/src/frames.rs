//! Frame accounting: what the engine is asked for one call, what it reports
//! back, and the frame counts that the caller gets.
//!
//! A frame is one sample of every channel. Buffers hold frames one after the
//! other, so their lengths are multiples of the channel count.

use crate::error::{Error, BAD_INTERNAL_STATE};
use libc::{c_int, c_long};
use vstd::prelude::*;

verus! {

/// What the engine is asked to do in one call.
#[derive(Debug, Clone, Copy, PartialEq, Eq, Structural)]
pub struct Request {
    /// Frames that the input buffer offers.
    pub input_frames: usize,
    /// Frames that the output buffer has room for.
    pub output_frames: usize,
    /// Whether no input will follow this call.
    pub end_of_input: bool,
    /// Bit pattern of the ratio to reach in this call.
    pub ratio: u64,
}

/// What the engine reports of one call.
#[derive(Debug, Clone, Copy, PartialEq, Eq, Structural)]
pub struct Report {
    /// Status code: zero when the call went through.
    pub status: c_int,
    /// Frames that it read from the input buffer.
    pub input_frames_used: c_long,
    /// Frames that it wrote to the output buffer.
    pub output_frames_gen: c_long,
}

/// Whether the report stays within what the request offered.
pub open spec fn within(request: Request, report: Report) -> bool {
    &&& 0 <= report.input_frames_used <= request.input_frames
    &&& 0 <= report.output_frames_gen <= request.output_frames
}

/// What a call comes to: the frames read and the frames written, or the code
/// of the error.
///
/// A status other than zero is the error. A report of more frames than were
/// offered, or of fewer than none, is an error of the engine's internal state.
pub open spec fn outcome(request: Request, report: Report) -> Result<(int, int), int> {
    if report.status != 0 {
        Err(report.status as int)
    } else if !within(request, report) {
        Err(BAD_INTERNAL_STATE as int)
    } else {
        Ok((report.input_frames_used as int, report.output_frames_gen as int))
    }
}

/// Whether `result` is what the call came to.
pub open spec fn is_outcome(
    result: Result<(usize, usize), Error>,
    expected: Result<(int, int), int>,
) -> bool {
    match result {
        Ok((used, generated)) => expected == Ok::<(int, int), int>((used as int, generated as int)),
        Err(e) => expected == Err::<(int, int), int>(e@),
    }
}

/// The request for buffers of the given lengths, in frames of `channels` samples.
pub open spec fn request_of(
    channels: usize,
    ratio: u64,
    end: bool,
    input_len: usize,
    output_len: usize,
) -> Request {
    Request {
        input_frames: (input_len / channels) as usize,
        output_frames: (output_len / channels) as usize,
        end_of_input: end,
        ratio,
    }
}

/// A request counts the frames that the buffers hold.
pub proof fn request_counts_frames(
    channels: usize,
    ratio: u64,
    end: bool,
    input_len: usize,
    output_len: usize,
)
    requires
        channels > 0,
    ensures
        request_of(channels, ratio, end, input_len, output_len).input_frames == input_len
            / channels,
        request_of(channels, ratio, end, input_len, output_len).output_frames == output_len
            / channels,
{
    vstd::arithmetic::div_mod::lemma_div_pos_is_pos(input_len as int, channels as int);
    vstd::arithmetic::div_mod::lemma_div_pos_is_pos(output_len as int, channels as int);
    vstd::arithmetic::div_mod::lemma_div_is_ordered_by_denominator(
        input_len as int,
        1,
        channels as int,
    );
    vstd::arithmetic::div_mod::lemma_div_is_ordered_by_denominator(
        output_len as int,
        1,
        channels as int,
    );
}

/// A request offers the buffers whole: its frames are all of their samples.
pub proof fn request_covers_buffers(
    channels: usize,
    ratio: u64,
    end: bool,
    input_len: usize,
    output_len: usize,
)
    requires
        channels > 0,
        input_len % channels == 0,
        output_len % channels == 0,
    ensures
        request_of(channels, ratio, end, input_len, output_len).input_frames * channels
            == input_len,
        request_of(channels, ratio, end, input_len, output_len).output_frames * channels
            == output_len,
{
    vstd::arithmetic::div_mod::lemma_fundamental_div_mod(input_len as int, channels as int);
    vstd::arithmetic::div_mod::lemma_fundamental_div_mod(output_len as int, channels as int);
    vstd::arithmetic::mul::lemma_mul_is_commutative(
        channels as int,
        input_len as int / channels as int,
    );
    vstd::arithmetic::mul::lemma_mul_is_commutative(
        channels as int,
        output_len as int / channels as int,
    );
}

/// The request for buffers of the given lengths, in frames of `channels` samples.
pub fn make_data(
    channels: usize,
    ratio: u64,
    end: bool,
    input_len: usize,
    output_len: usize,
) -> (request: Request)
    requires
        channels > 0,
        input_len % channels == 0,
        output_len % channels == 0,
    ensures
        request == request_of(channels, ratio, end, input_len, output_len),
        request.input_frames == input_len / channels,
        request.output_frames == output_len / channels,
        request.input_frames * channels == input_len,
        request.output_frames * channels == output_len,
        request.end_of_input == end,
        request.ratio == ratio,
{
    proof {
        request_covers_buffers(channels, ratio, end, input_len, output_len);
    }
    Request {
        input_frames: input_len / channels,
        output_frames: output_len / channels,
        end_of_input: end,
        ratio,
    }
}

/// What a call comes to, from what was asked and what the engine reported:
/// the frames read and the frames written, never more than were offered.
pub fn settle(request: &Request, report: &Report) -> (result: Result<(usize, usize), Error>)
    ensures
        is_outcome(result, outcome(*request, *report)),
        result matches Ok((used, generated)) ==> used <= request.input_frames && generated
            <= request.output_frames,
{
    if report.status != 0 {
        return Err(Error::from_code(report.status));
    }
    if report.input_frames_used < 0 || report.output_frames_gen < 0 {
        return Err(Error::from_code(BAD_INTERNAL_STATE));
    }
    if report.input_frames_used as u64 > request.input_frames as u64
        || report.output_frames_gen as u64 > request.output_frames as u64 {
        return Err(Error::from_code(BAD_INTERNAL_STATE));
    }
    Ok((report.input_frames_used as usize, report.output_frames_gen as usize))
}

} // verus!
