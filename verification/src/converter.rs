//! The streaming converter: what it remembers from call to call.
//!
//! The engine keeps the samples; the converter keeps the account. It knows
//! its kernel and channel count, where in the life of the stream it stands,
//! and the ratio from which the next call sets out. `request` says what to
//! ask the engine, and each changing operation takes what the engine
//! answered.

use crate::error::Error;
use crate::frames::{
    is_outcome, make_data, outcome, request_counts_frames, request_of, settle, Report, Request,
};
use crate::interpolator::Interpolator;
use crate::ratio::supported;
use crate::validate::{
    check_ratio, check_setup, is_verdict, ratio_refusal, setup_refusal, MAX_CHANNELS,
};
use libc::c_int;
use vstd::prelude::*;

verus! {

/// Where in the life of its stream a converter stands.
#[derive(Debug, Clone, Copy, PartialEq, Eq, Structural)]
pub enum Phase {
    /// Just made or just reset: no call has gone through.
    Fresh,
    /// At least one call with input has gone through, and none has ended the input.
    Active,
    /// The end of the input was announced, and output may still be owed.
    Flushing,
    /// All that was owed has been given out: further calls give nothing.
    Drained,
}

/// What a converter is, as its contracts see it.
pub struct State {
    /// The kernel, fixed when the converter is made.
    pub interpolator: Interpolator,
    /// The channel count, fixed when the converter is made.
    pub channels: usize,
    /// Where the stream stands.
    pub phase: Phase,
    /// Bit pattern of the ratio from which the next call sets out, once one is set.
    pub last_ratio: Option<u64>,
}

/// One operation on a converter, with what the engine answered to it.
pub enum Operation {
    /// A call of `convert`.
    Convert { ratio: u64, input_len: Option<usize>, output_len: usize, report: Report },
    /// A call of `reset`.
    Reset { status: c_int },
    /// A call of `set_ratio`.
    SetRatio { ratio: u64, status: c_int },
}

impl State {
    /// The state of a converter that was just made.
    pub open spec fn fresh(interpolator: Interpolator, channels: usize) -> State {
        State { interpolator, channels, phase: Phase::Fresh, last_ratio: None }
    }

    /// What holds of every converter: the engine accepts its kernel and
    /// channel count, the ratio that it holds is one that the engine converts
    /// by, and only a fresh converter may hold none.
    pub open spec fn wf(self) -> bool {
        &&& setup_refusal(self.interpolator, self.channels) is None
        &&& self.last_ratio matches Some(r) ==> supported(r)
        &&& self.phase != Phase::Fresh ==> self.last_ratio is Some
    }

    /// Whether buffers of these lengths hold whole frames.
    pub open spec fn fits(self, input_len: Option<usize>, output_len: usize) -> bool {
        &&& input_len matches Some(n) ==> n % self.channels == 0
        &&& output_len % self.channels == 0
    }

    /// What the engine is asked in a call. A missing input ends the stream.
    /// A drained converter offers the engine nothing and leaves it no room.
    pub open spec fn request(self, ratio: u64, input_len: Option<usize>, output_len: usize) -> Request {
        let len = match input_len {
            Some(n) => n,
            None => 0,
        };
        if self.phase == Phase::Drained {
            request_of(self.channels, ratio, input_len is None, 0, 0)
        } else {
            request_of(self.channels, ratio, input_len is None, len, output_len)
        }
    }

    /// What a call of `convert` comes to: an unsupported ratio is refused
    /// before the engine's report is looked at.
    pub open spec fn convert_result(
        self,
        ratio: u64,
        input_len: Option<usize>,
        output_len: usize,
        report: Report,
    ) -> Result<(int, int), int> {
        match ratio_refusal(ratio) {
            Some(code) => Err(code),
            None => outcome(self.request(ratio, input_len, output_len), report),
        }
    }

    /// Where the stream stands after a call that went through.
    pub open spec fn next_phase(
        self,
        ratio: u64,
        input_len: Option<usize>,
        output_len: usize,
        report: Report,
    ) -> Phase {
        if self.phase == Phase::Drained {
            Phase::Drained
        } else if input_len is None {
            if report.output_frames_gen < self.request(ratio, input_len, output_len).output_frames {
                Phase::Drained
            } else {
                Phase::Flushing
            }
        } else if self.phase == Phase::Flushing {
            Phase::Flushing
        } else {
            Phase::Active
        }
    }

    /// The state after a call of `convert`: unchanged where the call failed.
    pub open spec fn after_convert(
        self,
        ratio: u64,
        input_len: Option<usize>,
        output_len: usize,
        report: Report,
    ) -> State {
        if self.convert_result(ratio, input_len, output_len, report) is Ok {
            State {
                phase: self.next_phase(ratio, input_len, output_len, report),
                last_ratio: Some(ratio),
                ..self
            }
        } else {
            self
        }
    }

    /// The code with which `set_ratio` fails, if it does.
    pub open spec fn set_ratio_refusal(ratio: u64, status: c_int) -> Option<int> {
        match ratio_refusal(ratio) {
            Some(code) => Some(code),
            None => if status != 0 {
                Some(status as int)
            } else {
                None
            },
        }
    }

    /// The state after a call of `set_ratio`: unchanged where the call failed.
    pub open spec fn after_set_ratio(self, ratio: u64, status: c_int) -> State {
        if State::set_ratio_refusal(ratio, status) is None {
            State { last_ratio: Some(ratio), ..self }
        } else {
            self
        }
    }

    /// The state after a call of `reset`: unchanged where the engine failed.
    pub open spec fn after_reset(self, status: c_int) -> State {
        if status == 0 {
            State::fresh(self.interpolator, self.channels)
        } else {
            self
        }
    }

    /// The state after one operation.
    pub open spec fn step(self, op: Operation) -> State {
        match op {
            Operation::Convert { ratio, input_len, output_len, report } => self.after_convert(
                ratio,
                input_len,
                output_len,
                report,
            ),
            Operation::Reset { status } => self.after_reset(status),
            Operation::SetRatio { ratio, status } => self.after_set_ratio(ratio, status),
        }
    }

    /// The state after a row of operations, the first of them first.
    pub open spec fn run(self, ops: Seq<Operation>) -> State
        decreases ops.len(),
    {
        if ops.len() == 0 {
            self
        } else {
            self.step(ops[0]).run(ops.drop_first())
        }
    }
}

/// A converter for one continuous stream, whose ratio may change from call to call.
#[derive(Debug)]
pub struct Converter {
    interpolator: Interpolator,
    channels: usize,
    phase: Phase,
    last_ratio: Option<u64>,
}

impl View for Converter {
    type V = State;

    closed spec fn view(&self) -> State {
        State {
            interpolator: self.interpolator,
            channels: self.channels,
            phase: self.phase,
            last_ratio: self.last_ratio,
        }
    }
}

impl Converter {
    #[verifier::type_invariant]
    spec fn well_formed(self) -> bool {
        self@.wf()
    }

    /// Makes a converter, fresh, for a kernel and a channel count.
    ///
    /// A channel count of zero or above `MAX_CHANNELS` is refused, then a
    /// value that no kernel stands behind.
    pub fn new(interpolator: Interpolator, channels: usize) -> (result: Result<Converter, Error>)
        ensures
            match result {
                Ok(converter) => setup_refusal(interpolator, channels) is None && converter@
                    == State::fresh(interpolator, channels) && converter@.wf(),
                Err(e) => setup_refusal(interpolator, channels) == Some(e@),
            },
    {
        match check_setup(interpolator, channels) {
            Err(e) => Err(e),
            Ok(_) => Ok(Converter { interpolator, channels, phase: Phase::Fresh, last_ratio: None }),
        }
    }

    /// The number of channels, as given when the converter was made.
    pub fn channels(&self) -> (channels: usize)
        ensures
            channels == self@.channels,
            1 <= channels <= MAX_CHANNELS,
            self@.wf(),
    {
        proof {
            use_type_invariant(self);
        }
        self.channels
    }

    /// The kernel, as given when the converter was made.
    pub fn interpolator(&self) -> (interpolator: Interpolator)
        ensures
            interpolator == self@.interpolator,
            interpolator.supported(),
    {
        proof {
            use_type_invariant(self);
        }
        self.interpolator
    }

    /// Where the stream stands.
    pub fn phase(&self) -> (phase: Phase)
        ensures
            phase == self@.phase,
    {
        self.phase
    }

    /// Bit pattern of the ratio from which the next call sets out, once one is set.
    pub fn last_ratio(&self) -> (ratio: Option<u64>)
        ensures
            ratio == self@.last_ratio,
            ratio matches Some(r) ==> supported(r),
    {
        proof {
            use_type_invariant(self);
        }
        self.last_ratio
    }

    /// What to ask the engine in a call, or the error with which the ratio is
    /// refused. A missing input ends the stream.
    pub fn request(&self, ratio: u64, input_len: Option<usize>, output_len: usize) -> (result:
        Result<Request, Error>)
        requires
            self@.fits(input_len, output_len),
        ensures
            match result {
                Ok(request) => ratio_refusal(ratio) is None && request == self@.request(
                    ratio,
                    input_len,
                    output_len,
                ),
                Err(e) => ratio_refusal(ratio) == Some(e@),
            },
    {
        proof {
            use_type_invariant(self);
        }
        match check_ratio(ratio) {
            Err(e) => { return Err(e); },
            Ok(_) => {},
        }
        let end = input_len.is_none();
        match self.phase {
            Phase::Drained => Ok(make_data(self.channels, ratio, end, 0, 0)),
            _ => {
                let len = match input_len {
                    Some(n) => n,
                    None => 0,
                };
                Ok(make_data(self.channels, ratio, end, len, output_len))
            },
        }
    }

    /// Converts the next stretch of the stream: the frames read from the
    /// input and the frames written to the output, given what the engine
    /// reported of the request that `request` made of the same arguments.
    ///
    /// The counts never pass the frames that the buffers hold, whatever the
    /// engine reported. A failed call leaves the converter as it was.
    pub fn convert(
        &mut self,
        ratio: u64,
        input_len: Option<usize>,
        output_len: usize,
        report: Report,
    ) -> (result: Result<(usize, usize), Error>)
        requires
            old(self)@.fits(input_len, output_len),
        ensures
            is_outcome(result, old(self)@.convert_result(ratio, input_len, output_len, report)),
            final(self)@ == old(self)@.after_convert(ratio, input_len, output_len, report),
            final(self)@.wf(),
            result is Err ==> final(self)@ == old(self)@,
            result matches Ok((used, generated)) ==> {
                &&& input_len matches Some(n) ==> used <= n / final(self)@.channels
                &&& input_len is None ==> used == 0
                &&& generated <= output_len / final(self)@.channels
            },
            old(self)@.phase == Phase::Drained ==> (result matches Ok((used, generated)) ==> used
                == 0 && generated == 0),
            !crate::ratio::is_positive(ratio) ==> result is Err,
    {
        proof {
            use_type_invariant(&*self);
            crate::ratio::supported_is_positive(ratio);
        }
        let request = match self.request(ratio, input_len, output_len) {
            Err(e) => { return Err(e); },
            Ok(request) => request,
        };
        let ghost len: usize = match input_len {
            Some(n) => n,
            None => 0,
        };
        proof {
            request_counts_frames(self.channels, ratio, input_len is None, 0, 0);
            request_counts_frames(self.channels, ratio, input_len is None, len, output_len);
        }
        let result = settle(&request, &report);
        if result.is_ok() {
            let phase = match self.phase {
                Phase::Drained => Phase::Drained,
                Phase::Flushing => if input_len.is_none() {
                    Self::flushed(&request, &report)
                } else {
                    Phase::Flushing
                },
                _ => if input_len.is_none() {
                    Self::flushed(&request, &report)
                } else {
                    Phase::Active
                },
            };
            self.last_ratio = Some(ratio);
            self.phase = phase;
        }
        result
    }

    /// Where a call that ended the input leaves the stream: drained, unless
    /// the output buffer was filled to its end.
    fn flushed(request: &Request, report: &Report) -> (phase: Phase)
        requires
            0 <= report.output_frames_gen <= request.output_frames,
        ensures
            phase == (if report.output_frames_gen < request.output_frames {
                Phase::Drained
            } else {
                Phase::Flushing
            }),
    {
        if (report.output_frames_gen as u64) < (request.output_frames as u64) {
            Phase::Drained
        } else {
            Phase::Flushing
        }
    }

    /// Takes the converter back to the state in which it was made, given the
    /// status with which the engine reset itself. A status other than zero
    /// is the error, and leaves the converter as it was.
    pub fn reset(&mut self, status: c_int) -> (result: Result<(), Error>)
        ensures
            status == 0 <==> result is Ok,
            result matches Err(e) ==> e@ == status,
            final(self)@ == old(self)@.after_reset(status),
            final(self)@.wf(),
            result is Err ==> final(self)@ == old(self)@,
            result is Ok ==> final(self)@ == State::fresh(
                old(self)@.interpolator,
                old(self)@.channels,
            ),
    {
        proof {
            use_type_invariant(&*self);
        }
        if status != 0 {
            return Err(Error::from_code(status));
        }
        self.phase = Phase::Fresh;
        self.last_ratio = None;
        Ok(())
    }

    /// Sets the ratio from which the next call of `convert` sets out, so
    /// that the ratio steps instead of gliding, given the status with which
    /// the engine took it. An unsupported ratio is refused before the status
    /// is looked at; a status other than zero is the error. A failed call
    /// leaves the converter as it was.
    pub fn set_ratio(&mut self, ratio: u64, status: c_int) -> (result: Result<(), Error>)
        ensures
            is_verdict(result, State::set_ratio_refusal(ratio, status)),
            final(self)@ == old(self)@.after_set_ratio(ratio, status),
            final(self)@.wf(),
            result is Err ==> final(self)@ == old(self)@,
            result is Ok ==> final(self)@.last_ratio == Some(ratio),
            !crate::ratio::is_positive(ratio) ==> result is Err,
    {
        proof {
            use_type_invariant(&*self);
            crate::ratio::supported_is_positive(ratio);
        }
        match check_ratio(ratio) {
            Err(e) => { return Err(e); },
            Ok(_) => {},
        }
        if status != 0 {
            return Err(Error::from_code(status));
        }
        self.last_ratio = Some(ratio);
        Ok(())
    }
}

impl State {
    /// What one operation hands back to its caller: the frame counts of a
    /// conversion, or nothing to count for the other two, or the code of the error.
    pub open spec fn answer(self, op: Operation) -> Result<(int, int), int> {
        match op {
            Operation::Convert { ratio, input_len, output_len, report } => self.convert_result(
                ratio,
                input_len,
                output_len,
                report,
            ),
            Operation::Reset { status } => if status == 0 {
                Ok((0, 0))
            } else {
                Err(status as int)
            },
            Operation::SetRatio { ratio, status } => match State::set_ratio_refusal(ratio, status) {
                Some(code) => Err(code),
                None => Ok((0, 0)),
            },
        }
    }

    /// What a row of operations hands back, one answer for each.
    pub open spec fn answers(self, ops: Seq<Operation>) -> Seq<Result<(int, int), int>>
        decreases ops.len(),
    {
        if ops.len() == 0 {
            Seq::empty()
        } else {
            seq![self.answer(ops[0])] + self.step(ops[0]).answers(ops.drop_first())
        }
    }

    /// Every operation keeps a converter well formed, and keeps its kernel
    /// and its channel count.
    pub proof fn step_keeps_identity(self, op: Operation)
        requires
            self.wf(),
        ensures
            self.step(op).wf(),
            self.step(op).channels == self.channels,
            self.step(op).interpolator == self.interpolator,
    {
    }

    /// The channel count and the kernel of a converter never change, however
    /// many conversions, resets and ratio settings it goes through, and
    /// whatever the engine answers to them.
    pub proof fn channels_never_change(self, ops: Seq<Operation>)
        requires
            self.wf(),
        ensures
            self.run(ops).wf(),
            self.run(ops).channels == self.channels,
            self.run(ops).interpolator == self.interpolator,
        decreases ops.len(),
    {
        if ops.len() > 0 {
            self.step_keeps_identity(ops[0]);
            self.step(ops[0]).channels_never_change(ops.drop_first());
        }
    }

    /// A converter that was reset is a converter that was just made: driven
    /// through the same operations with the same answers of the engine, the
    /// two hand back the same and end in the same state.
    pub proof fn reset_starts_over(self, ops: Seq<Operation>)
        requires
            self.wf(),
        ensures
            self.after_reset(0) == State::fresh(self.interpolator, self.channels),
            self.after_reset(0).answers(ops) == State::fresh(
                self.interpolator,
                self.channels,
            ).answers(ops),
            self.after_reset(0).run(ops) == State::fresh(self.interpolator, self.channels).run(
                ops,
            ),
    {
    }

    /// Resetting twice is resetting once.
    pub proof fn reset_is_idempotent(self)
        ensures
            self.after_reset(0).after_reset(0) == self.after_reset(0),
    {
    }

    /// A failed operation changes nothing.
    pub proof fn failure_changes_nothing(self, op: Operation)
        ensures
            self.answer(op) is Err ==> self.step(op) == self,
    {
    }

    /// A conversion never reads more frames than the input holds nor writes
    /// more than the output has room for, and reads none where no input is given.
    pub proof fn frames_are_conserved(
        self,
        ratio: u64,
        input_len: Option<usize>,
        output_len: usize,
        report: Report,
    )
        requires
            self.wf(),
        ensures
            self.convert_result(ratio, input_len, output_len, report) matches Ok((used, generated))
                ==> {
                &&& 0 <= used
                &&& input_len matches Some(n) ==> used <= n / self.channels
                &&& input_len is None ==> used == 0
                &&& 0 <= generated <= output_len / self.channels
            },
    {
        let len: usize = match input_len {
            Some(n) => n,
            None => 0,
        };
        request_counts_frames(self.channels, ratio, input_len is None, 0, 0);
        request_counts_frames(self.channels, ratio, input_len is None, len, output_len);
        vstd::arithmetic::div_mod::lemma_div_pos_is_pos(output_len as int, self.channels as int);
    }

    /// A ratio of zero, a negative one, an infinite one or a value that is
    /// no number fails with the error of an unsupported ratio, in `convert`
    /// and in `set_ratio`, whatever the engine answered.
    pub proof fn bad_ratio_is_an_error(
        self,
        ratio: u64,
        input_len: Option<usize>,
        output_len: usize,
        report: Report,
        status: c_int,
    )
        requires
            !crate::ratio::is_positive(ratio),
        ensures
            self.convert_result(ratio, input_len, output_len, report) == Err::<(int, int), int>(
                crate::error::BAD_SRC_RATIO as int,
            ),
            State::set_ratio_refusal(ratio, status) == Some(crate::error::BAD_SRC_RATIO as int),
            self.after_convert(ratio, input_len, output_len, report) == self,
            self.after_set_ratio(ratio, status) == self,
    {
        crate::ratio::supported_is_positive(ratio);
    }

    /// A drained converter gives nothing and stays drained until it is reset.
    pub proof fn drained_gives_nothing(
        self,
        ratio: u64,
        input_len: Option<usize>,
        output_len: usize,
        report: Report,
    )
        requires
            self.wf(),
            self.phase == Phase::Drained,
        ensures
            self.convert_result(ratio, input_len, output_len, report) matches Ok(counts)
                ==> counts == (0int, 0int),
            self.after_convert(ratio, input_len, output_len, report).phase == Phase::Drained,
    {
        request_counts_frames(self.channels, ratio, input_len is None, 0, 0);
    }

    /// The end of the input, once announced, stays announced: from then on
    /// the stream is flushing or drained until the converter is reset.
    pub proof fn end_of_input_is_final(
        self,
        ratio: u64,
        input_len: Option<usize>,
        output_len: usize,
        report: Report,
    )
        requires
            self.phase == Phase::Flushing || self.phase == Phase::Drained || input_len is None,
            self.convert_result(ratio, input_len, output_len, report) is Ok,
        ensures
            ({
                let next = self.after_convert(ratio, input_len, output_len, report).phase;
                next == Phase::Flushing || next == Phase::Drained
            }),
    {
    }

    /// A ratio set by `set_ratio` is the one from which the next call sets
    /// out, and so is the ratio of a conversion that went through.
    pub proof fn ratio_is_remembered(
        self,
        ratio: u64,
        input_len: Option<usize>,
        output_len: usize,
        report: Report,
    )
        ensures
            State::set_ratio_refusal(ratio, 0) is None ==> self.after_set_ratio(
                ratio,
                0,
            ).last_ratio == Some(ratio),
            self.convert_result(ratio, input_len, output_len, report) is Ok ==> self.after_convert(
                ratio,
                input_len,
                output_len,
                report,
            ).last_ratio == Some(ratio),
    {
    }
}

} // verus!
