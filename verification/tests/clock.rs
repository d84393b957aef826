use docker_monitor::clock::{
    moment_after, signed_nanos, wall_clock_nanos, Clock, Moment, HEAD_START, LONGEST_DURATION,
    SECOND,
};

#[test]
fn elapsed_time_never_is_negative() {
    let early = Moment { nanos: 5 };
    let late = Moment { nanos: 12 };
    assert_eq!(late.elapsed_since(early), 7);
    assert_eq!(early.elapsed_since(late), 0);
    assert_eq!(early.elapsed_since(early), 0);
}

#[test]
fn clock_begins_at_its_head_start_and_moves_on() {
    let clock = Clock::start();
    let first = clock.now();
    assert!(first.nanos >= HEAD_START);
    assert!(first.nanos < HEAD_START + 3600 * SECOND);
    let mut last = first;
    for _ in 0..10_000_000 {
        last = clock.now();
        if last != first {
            break;
        }
    }
    assert!(last.nanos > first.nanos);
}

#[test]
fn wall_clock_is_past_the_year_2020() {
    assert!(wall_clock_nanos() > 1_577_836_800_000_000_000);
    assert!(wall_clock_nanos() < 8_000_000_000_000_000_000);
}

#[test]
fn times_before_the_epoch_are_negative() {
    assert_eq!(signed_nanos(Ok(0)), 0);
    assert_eq!(signed_nanos(Err(0)), 0);
    assert_eq!(signed_nanos(Ok(1_700_000_000_000_000_001)), 1_700_000_000_000_000_001);
    assert_eq!(signed_nanos(Err(1_500_000_000)), -1_500_000_000);
    assert_eq!(signed_nanos(Ok(i128::MAX as u128)), i128::MAX);
    assert_eq!(signed_nanos(Err(i128::MAX as u128)), -i128::MAX);
}

#[test]
fn moments_follow_the_head_start() {
    assert_eq!(moment_after(0), Moment { nanos: 60 * SECOND });
    assert_eq!(moment_after(7), Moment { nanos: 60 * SECOND + 7 });
    let last = moment_after(LONGEST_DURATION);
    assert_eq!(last.elapsed_since(moment_after(0)), LONGEST_DURATION);
}
