use metronome::{Timer, TimerError, TimerRenderTracker};

#[test]
fn timer_from_str() {
    assert_eq!(
        Timer::from_duration_spec("1:00", 0).unwrap().duration_secs,
        60
    );

    assert_eq!(
        Timer::from_duration_spec("10:00", 0).unwrap().duration_secs,
        600
    );

    assert_eq!(
        Timer::from_duration_spec("2:30", 0).unwrap().duration_secs,
        150
    );
}

#[test]
#[should_panic]
fn timer_invalid_str() {
    Timer::from_duration_spec("what", 0).unwrap();
    Timer::from_duration_spec("huh:10", 0).unwrap();
}

#[test]
fn timer_one_thirty_is_ninety_seconds() {
    let timer = Timer::from_duration_spec("1:30", 0).unwrap();
    assert_eq!(timer.time_remaining(0), 90);
}

#[test]
fn timer_zero_duration_rejected() {
    assert_eq!(
        Timer::from_duration_spec("0:00", 0),
        Err(TimerError::ZeroDuration)
    );
    assert_eq!(
        Timer::from_duration_spec("0:00:00", 0),
        Err(TimerError::ZeroDuration)
    );
}

#[test]
fn timer_seconds_out_of_range_rejected() {
    assert_eq!(
        Timer::from_duration_spec("2:70", 0),
        Err(TimerError::InvalidFormat)
    );
    assert_eq!(
        Timer::from_duration_spec("1:70:00", 0),
        Err(TimerError::InvalidFormat)
    );
}

#[test]
fn timer_shape_rejected() {
    assert!(Timer::from_duration_spec("", 0).is_err());
    assert!(Timer::from_duration_spec("90", 0).is_err());
    assert!(Timer::from_duration_spec("1:2:3:4", 0).is_err());
    assert!(Timer::from_duration_spec(":30", 0).is_err());
    assert!(Timer::from_duration_spec(":05:30", 0).is_err());
}

#[test]
fn timer_with_hours() {
    let timer = Timer::from_duration_spec("1:01:05", 0).unwrap();
    assert_eq!(timer.duration_secs, 3665);
}

#[test]
fn timer_remaining_counts_down() {
    let timer = Timer::from_duration_spec("1:30", 1_000_000_000).unwrap();
    assert_eq!(timer.time_remaining(1_000_000_000), 90);
    // Half a second in, the partial second already counts as spent.
    assert_eq!(timer.time_remaining(1_500_000_000), 89);
    assert_eq!(timer.time_remaining(2_000_000_000), 89);
    assert_eq!(timer.time_remaining(91_000_000_000), 0);
    assert_eq!(timer.time_remaining(500_000_000_000), 0);
}

#[test]
fn timer_render_minutes_and_seconds() {
    let timer = Timer::from_duration_spec("1:30", 0).unwrap();
    assert_eq!(timer.time_remaining_str(0), "01:30");
}

#[test]
fn timer_render_with_hours_shows_total_minutes() {
    let timer = Timer::from_duration_spec("1:01:05", 0).unwrap();
    assert_eq!(timer.time_remaining_str(0), "01:61:05");
}

#[test]
fn timer_render_at_zero_names_the_stop_command() {
    let timer = Timer::from_duration_spec("0:01", 0).unwrap();
    assert_eq!(
        timer.time_remaining_str(2_000_000_000),
        "00:00 (Type `timer stop` to stop the alarm!)"
    );
}

#[test]
fn render_tracker_waits_a_full_second() {
    let mut tracker = TimerRenderTracker::new(0);
    assert!(!tracker.should_render_timer(true, 999_999_999));
    assert!(tracker.should_render_timer(true, 1_000_000_000));
    assert!(!tracker.should_render_timer(false, 5_000_000_000));
    tracker.just_rendered(1_000_000_000);
    assert!(!tracker.should_render_timer(true, 1_500_000_000));
    assert!(tracker.should_render_timer(true, 2_000_000_000));
}
