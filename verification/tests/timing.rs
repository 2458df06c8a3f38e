use screencast::screencasting::params::Fraction;
use screencast::screencasting::timing::{
    check_time, compute_extra_delay, negotiated_frame_interval, Due, Timespan,
};

fn micros(n: u64) -> Timespan {
    Timespan::from_micros(n)
}

#[test]
fn unspecified_frame_rates_preserve_the_existing_limit() {
    assert_eq!(
        negotiated_frame_interval(Fraction { num: 0, denom: 1 }),
        None
    );
    assert_eq!(
        negotiated_frame_interval(Fraction { num: 60, denom: 0 }),
        None
    );
    assert_eq!(
        negotiated_frame_interval(Fraction { num: 60, denom: 1 }),
        Some(micros(16_666))
    );
    assert_eq!(
        negotiated_frame_interval(Fraction {
            num: 60_000,
            denom: 1001
        }),
        Some(micros(16_683))
    );
}

#[test]
fn frames_too_soon_are_put_off() {
    let min = micros(16_666);
    assert_eq!(
        compute_extra_delay(micros(1000), min, micros(11_000)),
        micros(6_666)
    );
    assert_eq!(
        check_time(micros(1000), min, micros(11_000)),
        Due::At(micros(17_666))
    );
    assert_eq!(check_time(micros(1000), min, micros(17_666)), Due::Now);
    // Less than the allowance too soon.
    assert_eq!(check_time(micros(1000), min, micros(17_567)), Due::Now);
    assert_eq!(
        check_time(micros(1000), min, micros(17_566)),
        Due::At(micros(17_666))
    );
}

#[test]
fn first_frames_and_earlier_times_are_never_too_soon() {
    let min = micros(16_666);
    assert_eq!(check_time(Timespan::zero(), min, micros(1)), Due::Now);
    assert_eq!(check_time(micros(5000), min, micros(4000)), Due::Now);
}

#[test]
fn time_until_the_past_is_zero() {
    assert_eq!(micros(5).saturating_sub(micros(7)), Timespan::zero());
    assert_eq!(micros(7).saturating_sub(micros(5)), micros(2));
}

#[test]
fn higher_rates_have_shorter_intervals() {
    let interval = |num, denom| negotiated_frame_interval(Fraction { num, denom }).unwrap();
    assert_eq!(interval(144_000, 1000), micros(6944));
    assert!(interval(144_000, 1000).nanos < interval(60_000, 1001).nanos);
    assert!(interval(60_000, 1001).nanos < interval(1, 1).nanos);
    assert_eq!(interval(u32::MAX, 1), Timespan::zero());
}

#[test]
fn frames_that_were_put_off_are_due() {
    let (last, min) = (micros(1000), micros(16_666));
    for target in [1000, 1001, 9000, 17_566] {
        let Due::At(time) = check_time(last, min, micros(target)) else {
            panic!("the frame is too soon")
        };
        assert_eq!(time, micros(17_666));
        assert_eq!(check_time(last, min, time), Due::Now);
    }
}
