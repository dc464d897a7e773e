use ffav::util::time::{
    scale, Frame, FrameRate, Sample, SampleRate, TimeBase, TimeBaseTicks, Timestamp,
};

#[test]
fn time_base_is_put_into_lowest_terms() {
    let base = TimeBase::new(2, 4);
    assert_eq!((base.numer(), base.denom()), (1, 2));
    let base = TimeBase::new(1001, 30000);
    assert_eq!((base.numer(), base.denom()), (1001, 30000));
    let base = TimeBase::new(0, 5);
    assert_eq!((base.numer(), base.denom()), (0, 1));
    let base = TimeBase::new(7, 7);
    assert_eq!((base.numer(), base.denom()), (1, 1));
    let base = TimeBase::new(1000, 48000);
    assert_eq!((base.numer(), base.denom()), (1, 48));
}

#[test]
fn time_base_constants() {
    assert_eq!((TimeBase::default_base().numer(), TimeBase::default_base().denom()), (1, 1_000_000));
    assert_eq!((TimeBase::milliseconds().numer(), TimeBase::milliseconds().denom()), (1, 1000));
    assert!(TimeBase::new(2, 2000).same(&TimeBase::milliseconds()));
    assert!(!TimeBase::new(1, 2000).same(&TimeBase::milliseconds()));
}

#[test]
fn time_base_from_native_rational() {
    let base = TimeBase::from_av_rational(1, 44100).unwrap();
    assert_eq!((base.numer(), base.denom()), (1, 44100));
    let base = TimeBase::from_av_rational(10, 20).unwrap();
    assert_eq!((base.numer(), base.denom()), (1, 2));
    assert!(TimeBase::from_av_rational(1, 0).is_none());
    assert!(TimeBase::from_av_rational(-1, 25).is_none());
    assert!(TimeBase::from_av_rational(1, -25).is_none());
    assert!(TimeBase::from_av_rational(0, 1).is_some());
}

#[test]
fn time_base_text_is_numerator_slash_denominator() {
    assert_eq!(TimeBase::new(1, 44100).to_text(), "1/44100");
    assert_eq!(TimeBase::new(1001, 30000).to_text(), "1001/30000");
    assert_eq!(TimeBase::new(4, 8).to_text(), "1/2");
}

#[test]
fn ticks_keep_their_bits_as_native_timestamp() {
    assert_eq!(TimeBaseTicks::new(0).as_av_timestamp(), 0);
    assert_eq!(TimeBaseTicks::new(90000).as_av_timestamp(), 90000);
    assert_eq!(TimeBaseTicks::new(u64::MAX).as_av_timestamp(), -1);
    assert_eq!(TimeBaseTicks::new(1 << 63).as_av_timestamp(), i64::MIN);
    assert_eq!(TimeBaseTicks::from_av_timestamp(-1), TimeBaseTicks(u64::MAX));
    assert_eq!(TimeBaseTicks::from_av_timestamp(i64::MIN), TimeBaseTicks(1 << 63));
    assert_eq!(TimeBaseTicks::from_av_timestamp(12), TimeBaseTicks(12));
}

#[test]
fn timestamp_converts_to_another_time_base_rounding_down() {
    let stamp = TimeBaseTicks::new(44100).to_timestamp(TimeBase::new(1, 44100));
    let ms = stamp.with_new_timebase(TimeBase::milliseconds()).unwrap();
    assert_eq!(ms.get_ticks(), TimeBaseTicks(1000));
    assert!(ms.get_base().same(&TimeBase::milliseconds()));
    let stamp = TimeBaseTicks::new(1).to_timestamp(TimeBase::new(1, 3));
    assert_eq!(stamp.with_new_timebase(TimeBase::milliseconds()).unwrap().get_ticks().0, 333);
    let stamp = TimeBaseTicks::new(2).to_timestamp(TimeBase::new(1, 3));
    assert_eq!(stamp.with_new_timebase(TimeBase::milliseconds()).unwrap().get_ticks().0, 666);
    let stamp = TimeBaseTicks::new(1500).to_timestamp(TimeBase::milliseconds());
    assert_eq!(stamp.with_new_timebase(TimeBase::new(1, 1)).unwrap().get_ticks().0, 1);
    assert_eq!(stamp.with_new_timebase(TimeBase::new(1001, 30000)).unwrap().get_ticks().0, 44);
}

#[test]
fn timestamp_in_the_same_time_base_is_unchanged() {
    let stamp = TimeBaseTicks::new(u64::MAX).to_timestamp(TimeBase::new(1, 90000));
    let same = stamp.with_new_timebase(TimeBase::new(1, 90000)).unwrap();
    assert_eq!(same.get_ticks().0, u64::MAX);
    let zero = TimeBaseTicks::new(5).to_timestamp(TimeBase::new(0, 1));
    assert_eq!(zero.with_new_timebase(TimeBase::new(0, 1)).unwrap().get_ticks().0, 5);
}

#[test]
fn timestamp_that_cannot_be_converted_gives_nothing() {
    let stamp = TimeBaseTicks::new(5).to_timestamp(TimeBase::milliseconds());
    assert!(stamp.with_new_timebase(TimeBase::new(0, 1)).is_none());
    let big = TimeBaseTicks::new(u64::MAX).to_timestamp(TimeBase::new(1, 1));
    assert!(big.with_new_timebase(TimeBase::milliseconds()).is_none());
    assert!(big.as_duration().is_none());
    let huge = TimeBaseTicks::new(u64::MAX).to_timestamp(TimeBase::new(u64::MAX, 1));
    assert!(huge.with_new_timebase(TimeBase::new(1, u64::MAX)).is_none());
}

#[test]
fn timestamp_as_milliseconds() {
    assert_eq!(Timestamp::from_millis(1234).as_duration(), Some(1234));
    let stamp = TimeBaseTicks::new(3).to_timestamp(TimeBase::new(1, 2));
    assert_eq!(stamp.as_duration(), Some(1500));
    let stamp = TimeBaseTicks::new(48000 * 90).to_timestamp(TimeBase::new(1, 48000));
    assert_eq!(stamp.as_duration(), Some(90_000));
}

#[test]
fn timestamp_text_is_seconds_with_three_decimals() {
    assert_eq!(Timestamp::from_millis(0).to_text().unwrap(), "0.000");
    assert_eq!(Timestamp::from_millis(5).to_text().unwrap(), "0.005");
    assert_eq!(Timestamp::from_millis(10_000).to_text().unwrap(), "10.000");
    assert_eq!(Timestamp::from_millis(3_723_042).to_text().unwrap(), "3723.042");
    let text = Timestamp::from_millis(61_250).to_text().unwrap();
    assert_eq!(text, "61.250");
    assert!(!text.contains(':'));
    let big = TimeBaseTicks::new(u64::MAX).to_timestamp(TimeBase::new(1, 1));
    assert_eq!(big.to_text(), None);
}

#[test]
fn rates_and_counts_wrap_their_numbers() {
    assert_eq!(SampleRate::new(44100).as_hz(), 44100);
    assert_eq!(Sample(12).0, 12);
    assert_eq!(FrameRate::film_standard(), FrameRate { numer: 24, denom: 1 });
    assert_eq!(FrameRate::pal(), FrameRate { numer: 25, denom: 1 });
    assert_eq!(FrameRate::ntsc(), FrameRate { numer: 2997, denom: 1000 });
}

#[test]
fn timestamp_as_sample_and_frame_number() {
    let stamp = Timestamp::from_millis(2000);
    assert_eq!(stamp.sample(SampleRate::new(44100)), Some(Sample(88200)));
    assert_eq!(stamp.frame(FrameRate::pal()), Some(Frame(50)));
    assert_eq!(stamp.frame(FrameRate { numer: 30000, denom: 1001 }), Some(Frame(59)));
    assert_eq!(Timestamp::from_millis(1).sample(SampleRate::new(1)), Some(Sample(0)));
    assert_eq!(stamp.frame(FrameRate { numer: 25, denom: 0 }), None);
    let big = TimeBaseTicks::new(u64::MAX).to_timestamp(TimeBase::new(1, 1));
    assert_eq!(big.sample(SampleRate::new(2)), None);
    assert_eq!(big.sample(SampleRate::new(1)), Some(Sample(u64::MAX)));
    assert_eq!(scale(10, (3, 5), (2, 4)), Some(18));
    assert_eq!(scale(10, (3, 5), (0, 4)), None);
    assert_eq!(scale(u64::MAX, (u64::MAX, 2), (1, 1)), None);
}
