use metronome::{
    BeatInfo, MetronomeBeatTracker, MetronomeData, TimeSignature, UserInput,
};

#[test]
fn advance_wraps_subdivided_tick_first() {
    let mut b = BeatInfo { current_beat: 0, subdivided_beat: 0 };
    b.next_subdivided_beat(4, 2);
    assert_eq!(b, BeatInfo { current_beat: 0, subdivided_beat: 1 });
    b.next_subdivided_beat(4, 2);
    assert_eq!(b, BeatInfo { current_beat: 1, subdivided_beat: 0 });
}

#[test]
fn advance_wraps_measure() {
    let mut b = BeatInfo { current_beat: 3, subdivided_beat: 1 };
    b.next_subdivided_beat(4, 2);
    assert_eq!(b, BeatInfo { current_beat: 0, subdivided_beat: 0 });
}

#[test]
fn advance_full_measure_returns_to_start() {
    // One advance per subdivided tick of the measure comes back around.
    let mut b = BeatInfo { current_beat: 0, subdivided_beat: 0 };
    for _ in 0..4 * 2 {
        b.next_subdivided_beat(4, 2);
    }
    assert_eq!(b, BeatInfo { current_beat: 0, subdivided_beat: 0 });

    let mut b = BeatInfo { current_beat: 2, subdivided_beat: 1 };
    for _ in 0..7 * 3 {
        b.next_subdivided_beat(7, 3);
    }
    assert_eq!(b, BeatInfo { current_beat: 2, subdivided_beat: 1 });
}

#[test]
fn reset_goes_to_the_downbeat() {
    let mut b = BeatInfo { current_beat: 2, subdivided_beat: 1 };
    b.reset();
    assert_eq!(b, BeatInfo { current_beat: 0, subdivided_beat: 0 });
}

#[test]
fn modulo_increment_wraps() {
    let mut n: u8 = 0;
    metronome::modulo_increment(&mut n, 3);
    assert_eq!(n, 1);
    let mut n: u8 = 2;
    metronome::modulo_increment(&mut n, 3);
    assert_eq!(n, 0);
}

#[test]
fn fresh_metronome_takes_the_given_settings() {
    let data = MetronomeData::new(72, TimeSignature(6, 8), Some(metronome::TempoType::EighthNote), 3);
    assert_eq!(data.tempo(), 72);
    assert_eq!(data.time_signature(), TimeSignature(6, 8));
    assert_eq!(data.tempo_type(), metronome::TempoType::EighthNote);
    assert_eq!(data.subdivision(), 3);
    assert_eq!(data.beat_info, BeatInfo { current_beat: 5, subdivided_beat: 2 });
    assert_eq!(data.duration_per_subdivided_beat(), data.duration_per_subdivided_beat_nanos);
    assert!(!data.is_paused && !data.tap_mode && data.timer.is_none());
}

#[test]
fn fresh_tracker_fires_immediately() {
    let tracker = MetronomeBeatTracker::new();
    assert!(tracker.should_play_beat(0, 1_000_000_000));
}

#[test]
fn tracker_waits_out_the_tick() {
    let mut tracker = MetronomeBeatTracker::new();
    let mut data = MetronomeData::new(60, TimeSignature(4, 4), None, 1);
    // A fresh metronome stands on the last beat, about to wrap onto the
    // downbeat.
    assert_eq!(data.beat_info, BeatInfo { current_beat: 3, subdivided_beat: 0 });
    tracker.move_to_next_subdivided_beat(&mut data, 5);
    assert_eq!(data.beat_info, BeatInfo { current_beat: 0, subdivided_beat: 0 });
    assert!(tracker.is_downbeat(&data));

    let d = data.duration_per_subdivided_beat_nanos;
    assert!(!tracker.should_play_beat(5, d));
    assert!(!tracker.should_play_beat(5 + d - 1, d));
    assert!(tracker.should_play_beat(5 + d, d));
}

#[test]
fn pause_then_resume_fires_at_once_from_the_downbeat() {
    let mut tracker = MetronomeBeatTracker::new();
    let mut data = MetronomeData::new(60, TimeSignature(4, 4), None, 2);
    tracker.move_to_next_subdivided_beat(&mut data, 0);
    tracker.move_to_next_subdivided_beat(&mut data, 500_000_000);
    assert_eq!(data.beat_info, BeatInfo { current_beat: 0, subdivided_beat: 1 });

    let outcome = data.execute(&UserInput::Pause, 600_000_000);
    assert!(data.is_paused);
    assert!(!outcome.quit);
    tracker.offset_beat_timestamp();

    // However much later the resume comes, the next poll is due at once and
    // the position is back on the downbeat.
    let outcome = data.execute(&UserInput::Resume, 999_000_000_000);
    assert!(!data.is_paused);
    assert!(!outcome.quit);
    assert_eq!(data.beat_info, BeatInfo { current_beat: 0, subdivided_beat: 0 });
    assert!(tracker.should_play_beat(999_000_000_000, data.duration_per_subdivided_beat_nanos));
}
