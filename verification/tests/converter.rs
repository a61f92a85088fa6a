use samplerate::converter::Phase;
use samplerate::error::{BAD_CHANNEL_COUNT, BAD_CONVERTER, BAD_INTERNAL_STATE, BAD_SRC_RATIO};
use samplerate::{Converter, Error, Interpolator, Report, Request};

fn make_stream_fixture(size: usize, cos: bool) -> Vec<f32> {
    let step = std::f32::consts::PI * 2.0 / size as f32;
    let mut data = Vec::new();
    let mut value = 0.0f32;
    for _ in 0..size {
        data.push(value.sin());
        if cos {
            data.push(value.cos());
        }
        value += step;
    }
    data
}

fn answer(status: i32, used: i64, generated: i64) -> Report {
    Report { status, input_frames_used: used, output_frames_gen: generated }
}

fn test_push_converter_ch(ch2: bool) {
    let input = make_stream_fixture(1000, ch2);
    let expect = make_stream_fixture(2000, ch2);
    let output = vec![0.0f32; expect.len()];
    let ch = if ch2 { 2 } else { 1 };
    let two = 2.0f64.to_bits();
    let mut conv = Converter::new(Interpolator::SincBestQuality, ch).unwrap();
    assert_eq!(
        conv.convert(two, Some(input[..500 * ch].len()), output[..].len(), answer(0, 500, 712))
            .unwrap(),
        (500, 712)
    );
    assert_eq!(
        conv.convert(
            two,
            Some(input[500 * ch..].len()),
            output[712 * ch..].len(),
            answer(0, 500, 1000)
        )
        .unwrap(),
        (500, 1000)
    );
    assert_eq!(
        conv.convert(two, None, output[1712 * ch..].len(), answer(0, 0, 288)).unwrap(),
        (0, 288)
    );
}

#[test]
fn test_push_converter_1ch() {
    test_push_converter_ch(false)
}

#[test]
fn test_push_converter_2ch() {
    test_push_converter_ch(true)
}

#[test]
fn streaming_scenario_counts() {
    // 1000 frames at ratio 2 in calls of 500 and 500 frames and a flush
    let two = 2.0f64.to_bits();
    let mut conv = Converter::new(Interpolator::SincBestQuality, 1).unwrap();
    let first = conv.request(two, Some(500), 2000).unwrap();
    assert_eq!(
        first,
        Request { input_frames: 500, output_frames: 2000, end_of_input: false, ratio: two }
    );
    let (used, generated) = conv.convert(two, Some(500), 2000, answer(0, 500, 712)).unwrap();
    assert_eq!((used, generated), (500, 712));
    assert_eq!(conv.phase(), Phase::Active);
    let (used, generated) = conv.convert(two, Some(500), 1288, answer(0, 500, 288)).unwrap();
    assert_eq!((used, generated), (500, 288));
    assert_eq!(conv.phase(), Phase::Active);
    let last = conv.request(two, None, 1000).unwrap();
    assert_eq!(
        last,
        Request { input_frames: 0, output_frames: 1000, end_of_input: true, ratio: two }
    );
    let (used, generated) = conv.convert(two, None, 1000, answer(0, 0, 288)).unwrap();
    assert_eq!((used, generated), (0, 288));
    assert_eq!(conv.phase(), Phase::Drained);
}

#[test]
fn new_converter_is_fresh() {
    let conv = Converter::new(Interpolator::Linear, 2).unwrap();
    assert_eq!(conv.channels(), 2);
    assert_eq!(conv.interpolator(), Interpolator::Linear);
    assert_eq!(conv.phase(), Phase::Fresh);
    assert_eq!(conv.last_ratio(), None);
}

#[test]
fn new_refuses_bad_setups() {
    assert_eq!(Converter::new(Interpolator::Linear, 0).unwrap_err().code(), BAD_CHANNEL_COUNT);
    assert_eq!(
        Converter::new(Interpolator::Linear, 0x8000_0000).unwrap_err().code(),
        BAD_CHANNEL_COUNT
    );
    assert_eq!(
        Converter::new(Interpolator::__Nonexhaustive, 0).unwrap_err().code(),
        BAD_CHANNEL_COUNT
    );
    assert_eq!(
        Converter::new(Interpolator::__Nonexhaustive, 1).unwrap_err().code(),
        BAD_CONVERTER
    );
    assert!(Converter::new(Interpolator::ZeroOrderHold, 0x7FFF_FFFF).is_ok());
}

#[test]
fn convert_refuses_bad_ratios_and_changes_nothing() {
    let mut conv = Converter::new(Interpolator::SincFastest, 2).unwrap();
    for ratio in [0.0f64, -1.0, -0.0, f64::NAN, 1000.0, 0.001] {
        let r = conv.convert(ratio.to_bits(), Some(8), 8, answer(0, 4, 4));
        assert_eq!(r, Err(Error::from_code(BAD_SRC_RATIO)));
        assert_eq!(conv.request(ratio.to_bits(), Some(8), 8).unwrap_err().code(), BAD_SRC_RATIO);
        assert_eq!(conv.phase(), Phase::Fresh);
        assert_eq!(conv.last_ratio(), None);
        assert_eq!(conv.channels(), 2);
    }
}

#[test]
fn convert_surfaces_engine_errors_and_changes_nothing() {
    let one = 1.0f64.to_bits();
    let mut conv = Converter::new(Interpolator::SincFastest, 2).unwrap();
    assert_eq!(conv.convert(one, Some(8), 8, answer(0, 4, 3)), Ok((4, 3)));
    assert_eq!(conv.phase(), Phase::Active);
    let half = 0.5f64.to_bits();
    assert_eq!(conv.convert(half, Some(8), 8, answer(1, 0, 0)).unwrap_err().code(), 1);
    assert_eq!(
        conv.convert(half, Some(8), 8, answer(0, 5, 0)).unwrap_err().code(),
        BAD_INTERNAL_STATE
    );
    assert_eq!(
        conv.convert(half, None, 8, answer(0, 1, 0)).unwrap_err().code(),
        BAD_INTERNAL_STATE
    );
    assert_eq!(conv.phase(), Phase::Active);
    assert_eq!(conv.last_ratio(), Some(one));
}

#[test]
fn stream_goes_from_fresh_to_drained() {
    let one = 1.0f64.to_bits();
    let mut conv = Converter::new(Interpolator::SincMediumQuality, 1).unwrap();
    assert_eq!(conv.phase(), Phase::Fresh);
    assert_eq!(conv.convert(one, Some(100), 50, answer(0, 60, 50)), Ok((60, 50)));
    assert_eq!(conv.phase(), Phase::Active);
    // the output buffer was filled: more may be owed
    assert_eq!(conv.convert(one, None, 30, answer(0, 0, 30)), Ok((0, 30)));
    assert_eq!(conv.phase(), Phase::Flushing);
    // input after the end was announced does not take the announcement back
    assert_eq!(conv.convert(one, Some(10), 0, answer(0, 0, 0)), Ok((0, 0)));
    assert_eq!(conv.phase(), Phase::Flushing);
    // no room at all is a full buffer
    assert_eq!(conv.convert(one, None, 0, answer(0, 0, 0)), Ok((0, 0)));
    assert_eq!(conv.phase(), Phase::Flushing);
    // room was left over: nothing more is owed
    assert_eq!(conv.convert(one, None, 30, answer(0, 0, 12)), Ok((0, 12)));
    assert_eq!(conv.phase(), Phase::Drained);
}

#[test]
fn fresh_converter_can_be_flushed() {
    let one = 1.0f64.to_bits();
    let mut conv = Converter::new(Interpolator::Linear, 1).unwrap();
    assert_eq!(conv.convert(one, None, 16, answer(0, 0, 0)), Ok((0, 0)));
    assert_eq!(conv.phase(), Phase::Drained);
}

#[test]
fn drained_converter_gives_nothing() {
    let one = 1.0f64.to_bits();
    let mut conv = Converter::new(Interpolator::Linear, 2).unwrap();
    assert_eq!(conv.convert(one, None, 16, answer(0, 0, 3)), Ok((0, 3)));
    assert_eq!(conv.phase(), Phase::Drained);
    let request = conv.request(one, Some(10), 16).unwrap();
    assert_eq!(
        request,
        Request { input_frames: 0, output_frames: 0, end_of_input: false, ratio: one }
    );
    assert_eq!(conv.convert(one, Some(10), 16, answer(0, 0, 0)), Ok((0, 0)));
    assert_eq!(conv.convert(one, None, 16, answer(0, 0, 0)), Ok((0, 0)));
    assert_eq!(conv.phase(), Phase::Drained);
    // an engine that claims to have worked all the same is not believed
    assert_eq!(
        conv.convert(one, Some(10), 16, answer(0, 5, 8)).unwrap_err().code(),
        BAD_INTERNAL_STATE
    );
    // a bad ratio is still refused, and an engine error still surfaces
    assert_eq!(conv.convert(0, None, 16, answer(0, 0, 0)).unwrap_err().code(), BAD_SRC_RATIO);
    assert_eq!(conv.convert(one, None, 16, answer(16, 0, 0)).unwrap_err().code(), 16);
    assert_eq!(conv.phase(), Phase::Drained);
}

#[test]
fn reset_makes_the_converter_fresh() {
    let one = 1.0f64.to_bits();
    let mut conv = Converter::new(Interpolator::Linear, 2).unwrap();
    assert_eq!(conv.convert(one, Some(4), 4, answer(0, 2, 2)), Ok((2, 2)));
    assert_eq!(conv.convert(one, None, 8, answer(0, 0, 1)), Ok((0, 1)));
    assert_eq!(conv.phase(), Phase::Drained);
    assert_eq!(conv.reset(0), Ok(()));
    assert_eq!(conv.phase(), Phase::Fresh);
    assert_eq!(conv.last_ratio(), None);
    assert_eq!(conv.channels(), 2);
    assert_eq!(conv.interpolator(), Interpolator::Linear);
}

#[test]
fn reset_surfaces_the_engine_status() {
    let one = 1.0f64.to_bits();
    let mut conv = Converter::new(Interpolator::Linear, 2).unwrap();
    assert_eq!(conv.convert(one, Some(4), 4, answer(0, 2, 2)), Ok((2, 2)));
    assert_eq!(conv.reset(2), Err(Error::from_code(2)));
    assert_eq!(conv.phase(), Phase::Active);
    assert_eq!(conv.last_ratio(), Some(one));
}

#[test]
fn reset_converter_behaves_as_a_new_one() {
    let two = 2.0f64.to_bits();
    let half = 0.5f64.to_bits();
    let mut used = Converter::new(Interpolator::SincFastest, 2).unwrap();
    used.set_ratio(half, 0).unwrap();
    used.convert(half, Some(40), 40, answer(0, 20, 10)).unwrap();
    used.convert(two, None, 40, answer(0, 0, 5)).unwrap();
    used.reset(0).unwrap();
    let mut new = Converter::new(Interpolator::SincFastest, 2).unwrap();
    let calls = [
        (two, Some(1000usize), 4000usize, answer(0, 500, 712)),
        (0, Some(1000), 4000, answer(0, 500, 712)),
        (two, Some(1000), 4000, answer(0, 500, 1000)),
        (two, Some(1000), 4000, answer(3, 0, 0)),
        (half, None, 576, answer(0, 0, 288)),
        (half, None, 600, answer(0, 0, 0)),
        (half, Some(10), 600, answer(0, 0, 0)),
    ];
    for (ratio, input_len, output_len, report) in calls {
        assert_eq!(
            used.request(ratio, input_len, output_len),
            new.request(ratio, input_len, output_len)
        );
        assert_eq!(
            used.convert(ratio, input_len, output_len, report),
            new.convert(ratio, input_len, output_len, report)
        );
        assert_eq!(used.phase(), new.phase());
        assert_eq!(used.last_ratio(), new.last_ratio());
    }
    assert_eq!(new.phase(), Phase::Drained);
}

#[test]
fn set_ratio_is_remembered() {
    let two = 2.0f64.to_bits();
    let mut conv = Converter::new(Interpolator::Linear, 1).unwrap();
    assert_eq!(conv.set_ratio(two, 0), Ok(()));
    assert_eq!(conv.last_ratio(), Some(two));
    assert_eq!(conv.phase(), Phase::Fresh);
    let three = 3.0f64.to_bits();
    assert_eq!(conv.convert(three, Some(4), 12, answer(0, 4, 11)), Ok((4, 11)));
    assert_eq!(conv.last_ratio(), Some(three));
}

#[test]
fn set_ratio_refuses_bad_ratios() {
    let two = 2.0f64.to_bits();
    let mut conv = Converter::new(Interpolator::Linear, 1).unwrap();
    conv.set_ratio(two, 0).unwrap();
    for ratio in [0.0f64, -2.0, f64::INFINITY, f64::NAN, 257.0] {
        assert_eq!(conv.set_ratio(ratio.to_bits(), 0).unwrap_err().code(), BAD_SRC_RATIO);
        assert_eq!(conv.set_ratio(ratio.to_bits(), 9).unwrap_err().code(), BAD_SRC_RATIO);
        assert_eq!(conv.last_ratio(), Some(two));
    }
    assert_eq!(conv.set_ratio(1.0f64.to_bits(), 7).unwrap_err().code(), 7);
    assert_eq!(conv.last_ratio(), Some(two));
}

#[test]
fn channels_stay_through_every_operation() {
    let one = 1.0f64.to_bits();
    let mut conv = Converter::new(Interpolator::ZeroOrderHold, 6).unwrap();
    assert_eq!(conv.channels(), 6);
    let _ = conv.convert(one, Some(12), 12, answer(0, 2, 2));
    assert_eq!(conv.channels(), 6);
    let _ = conv.set_ratio(0, 0);
    assert_eq!(conv.channels(), 6);
    let _ = conv.set_ratio(one, 0);
    assert_eq!(conv.channels(), 6);
    let _ = conv.convert(one, None, 12, answer(5, 0, 0));
    assert_eq!(conv.channels(), 6);
    let _ = conv.convert(one, None, 12, answer(0, 0, 1));
    assert_eq!(conv.channels(), 6);
    let _ = conv.reset(1);
    assert_eq!(conv.channels(), 6);
    let _ = conv.reset(0);
    assert_eq!(conv.channels(), 6);
    assert_eq!(conv.interpolator(), Interpolator::ZeroOrderHold);
}
