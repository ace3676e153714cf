use metronome::{
    tap_mode_input, BeatInfo, MetronomeData, TempoMeasurer, TempoType, TimeSignature, UserInput,
};

fn fresh_data() -> MetronomeData {
    MetronomeData::new(60, TimeSignature(4, 4), None, 1)
}

#[test]
fn lines_parse_to_commands() {
    assert!(matches!(UserInput::parse_line("pause"), UserInput::Pause));
    assert!(matches!(UserInput::parse_line("p"), UserInput::Pause));
    assert!(matches!(UserInput::parse_line("resume"), UserInput::Resume));
    assert!(matches!(UserInput::parse_line("r"), UserInput::Resume));
    assert!(matches!(UserInput::parse_line("quit"), UserInput::Quit));
    assert!(matches!(UserInput::parse_line("help"), UserInput::Help));
    assert!(matches!(UserInput::parse_line("clear"), UserInput::Clear));
    assert!(matches!(UserInput::parse_line("tap"), UserInput::Tap));
    assert!(matches!(UserInput::parse_line("timer stop"), UserInput::StopTimer));
}

#[test]
fn lines_are_case_folded() {
    assert!(matches!(UserInput::parse_line("PAUSE"), UserInput::Pause));
    assert!(
        matches!(UserInput::parse_line("TEMPO 60"), UserInput::SetTempo(ref a) if a == "60")
    );
    assert!(
        matches!(UserInput::parse_line("Tt Dotted-Quarter"),
            UserInput::SetTempoType(ref a) if a == "dotted-quarter")
    );
}

#[test]
fn arguments_ride_along() {
    assert!(matches!(UserInput::parse_line("t 90"), UserInput::SetTempo(ref a) if a == "90"));
    assert!(
        matches!(UserInput::parse_line("time 6/8"),
            UserInput::SetTimeSignature(ref a) if a == "6/8")
    );
    assert!(
        matches!(UserInput::parse_line("ss x-"),
            UserInput::SetSubdivisionSetting(ref a) if a == "x-")
    );
    assert!(
        matches!(UserInput::parse_line("subdivision 3"),
            UserInput::SetSubdivision(ref a) if a == "3")
    );
    assert!(
        matches!(UserInput::parse_line("timer 1:30"), UserInput::SetTimer(ref a) if a == "1:30")
    );
    // A command without its argument carries an empty one.
    assert!(matches!(UserInput::parse_line("s"), UserInput::SetSubdivision(ref a) if a == ""));
    // Anything past the second token is ignored.
    assert!(matches!(UserInput::parse_line("t 90 extra"), UserInput::SetTempo(ref a) if a == "90"));
}

#[test]
fn unknown_commands_are_reported() {
    assert!(
        matches!(UserInput::parse_line("bogus"), UserInput::Unknown(ref a) if a == "bogus")
    );
    assert!(matches!(UserInput::parse_line(""), UserInput::Unknown(ref a) if a == ""));
}

#[test]
fn invalid_tempo_leaves_state_and_reports() {
    let mut data = fresh_data();
    let before_duration = data.duration_per_subdivided_beat_nanos;
    let outcome = data.execute(&UserInput::SetTempo("abc".to_string()), 0);
    assert_eq!(data.tempo(), 60);
    assert_eq!(data.duration_per_subdivided_beat_nanos, before_duration);
    assert_eq!(
        outcome.message.as_deref(),
        Some("Invalid tempo `abc`! Must be a valid whole number between 10-400!")
    );
}

#[test]
fn out_of_range_tempo_text_is_refused() {
    let mut data = fresh_data();
    let outcome = data.execute(&UserInput::SetTempo("401".to_string()), 0);
    assert_eq!(data.tempo(), 60);
    assert!(outcome.message.is_some());
}

#[test]
fn valid_tempo_is_applied_and_duration_recomputed() {
    let mut data = MetronomeData::new(400, TimeSignature(4, 4), None, 1);
    let outcome = data.execute(&UserInput::SetTempo("60".to_string()), 0);
    assert!(outcome.message.is_none());
    assert_eq!(data.tempo(), 60);
    assert_eq!(data.duration_per_subdivided_beat_nanos, 1_000_000_000);
}

#[test]
fn direct_tempo_is_clamped() {
    let mut data = fresh_data();
    data.execute(&UserInput::SetTempoDirect(65535), 0);
    assert_eq!(data.tempo(), 400);
    data.execute(&UserInput::SetTempoDirect(1), 0);
    assert_eq!(data.tempo(), 10);
}

#[test]
fn changing_meter_resets_tempo_type_and_position() {
    let mut data = fresh_data();
    assert_eq!(data.tempo_type(), TempoType::QuarterNote);
    data.beat_info = BeatInfo { current_beat: 2, subdivided_beat: 0 };
    let outcome = data.execute(&UserInput::SetTimeSignature("6/8".to_string()), 0);
    assert!(outcome.message.is_none());
    assert_eq!(data.time_signature(), TimeSignature(6, 8));
    assert_eq!(data.tempo_type(), TempoType::DottedQuarter);
    assert_eq!(data.beat_info, BeatInfo { current_beat: 0, subdivided_beat: 0 });
    assert!(data.time_signature_is_eighths());
}

#[test]
fn bad_meter_reports_and_keeps_state() {
    let mut data = fresh_data();
    let outcome = data.execute(&UserInput::SetTimeSignature("6-8".to_string()), 0);
    assert_eq!(data.time_signature(), TimeSignature(4, 4));
    assert_eq!(outcome.message.as_deref(), Some("Invalid time signature `6-8`!"));
}

#[test]
fn tempo_type_command() {
    let mut data = fresh_data();
    let outcome = data.execute(&UserInput::SetTempoType("half-note".to_string()), 0);
    assert!(outcome.message.is_none());
    assert_eq!(data.tempo_type(), TempoType::HalfNote);
    let outcome = data.execute(&UserInput::SetTempoType("waltz".to_string()), 0);
    assert_eq!(outcome.message.as_deref(), Some("Invalid tempo type waltz!"));
    assert_eq!(data.tempo_type(), TempoType::HalfNote);
}

#[test]
fn subdivision_command_applies_valid_numbers() {
    let mut data = fresh_data();
    let outcome = data.execute(&UserInput::SetSubdivision("4".to_string()), 0);
    assert!(outcome.message.is_none());
    assert_eq!(data.subdivision(), 4);
}

#[test]
fn bad_subdivision_reports_and_keeps_state() {
    let mut data = fresh_data();
    data.execute(&UserInput::SetSubdivision("4".to_string()), 0);
    let before_duration = data.duration_per_subdivided_beat_nanos;
    for bad in ["abc", "0", "300", ""] {
        let outcome = data.execute(&UserInput::SetSubdivision(bad.to_string()), 0);
        assert_eq!(
            outcome.message.unwrap(),
            format!("Invalid subdivision {}! Must be a whole number that is at least 1!", bad)
        );
        assert_eq!(data.subdivision(), 4);
        assert_eq!(data.duration_per_subdivided_beat_nanos, before_duration);
    }
}

#[test]
fn subdivision_setting_command() {
    let mut data = fresh_data();
    let outcome = data.execute(&UserInput::SetSubdivisionSetting("x-".to_string()), 0);
    assert!(outcome.message.is_none());
    assert_eq!(data.subdivision_setting.play_beat, vec![true, false]);
    let outcome = data.execute(&UserInput::SetSubdivisionSetting("xq".to_string()), 0);
    assert_eq!(
        outcome.message.as_deref(),
        Some(
            "Invalid subdivision setting \"xq\"! (Error: Subdivision setting can only contain \"x\" or \"-\"!)"
        )
    );
    assert_eq!(data.subdivision_setting.play_beat, vec![true, false]);
}

#[test]
fn timer_commands() {
    let mut data = fresh_data();
    let outcome = data.execute(&UserInput::SetTimer("1:30".to_string()), 7);
    assert!(outcome.message.is_none());
    let timer = data.timer.unwrap();
    assert_eq!(timer.duration_secs, 90);
    assert_eq!(timer.created_timestamp_nanos, 7);

    let outcome = data.execute(&UserInput::SetTimer("0:00".to_string()), 7);
    assert_eq!(
        outcome.message.as_deref(),
        Some("Invalid timer string! Format: HH:MM:SS, hour and minutes optional")
    );

    data.execute(&UserInput::StopTimer, 7);
    assert!(data.timer.is_none());
}

#[test]
fn mode_commands_toggle_flags() {
    let mut data = fresh_data();
    data.execute(&UserInput::Pause, 0);
    assert!(data.is_paused);
    data.execute(&UserInput::Resume, 0);
    assert!(!data.is_paused);
    data.execute(&UserInput::Tap, 0);
    assert!(data.tap_mode && data.is_paused);

    let outcome = data.execute(&UserInput::Help, 0);
    assert!(outcome.show_help && !outcome.quit);
    let outcome = data.execute(&UserInput::Quit, 0);
    assert!(outcome.quit);
    assert_eq!(outcome.message.as_deref(), Some("Goodbye!"));
    let outcome = data.execute(&UserInput::Unknown("zzz".to_string()), 0);
    assert_eq!(outcome.message.as_deref(), Some("Unknown command `zzz`!"));
}

#[test]
fn four_even_taps_give_the_tapped_tempo() {
    let mut measurer = TempoMeasurer::new();
    measurer.tap(0);
    measurer.tap(500_000_000);
    measurer.tap(1_000_000_000);
    measurer.tap(1_500_000_000);
    assert_eq!(measurer.num_tapped(), 4);
    assert_eq!(measurer.calculate_tempo(), 120);
    measurer.clear();
    assert_eq!(measurer.num_tapped(), 0);
}

#[test]
fn uneven_taps_use_the_mean_interval() {
    let mut measurer = TempoMeasurer::new();
    // Intervals of 0.4s, 0.5s and 0.6s average to 0.5s.
    measurer.tap(0);
    measurer.tap(400_000_000);
    measurer.tap(900_000_000);
    measurer.tap(1_500_000_000);
    assert_eq!(measurer.calculate_tempo(), 120);
}

#[test]
fn tap_mode_collects_then_sets_the_tempo() {
    let mut measurer = TempoMeasurer::new();
    assert!(matches!(tap_mode_input(&mut measurer, "", 0), UserInput::Clear));
    assert!(matches!(tap_mode_input(&mut measurer, "", 500_000_000), UserInput::Clear));
    assert!(matches!(tap_mode_input(&mut measurer, "", 1_000_000_000), UserInput::Clear));
    let fourth = tap_mode_input(&mut measurer, "", 1_500_000_000);
    assert!(matches!(fourth, UserInput::SetTempoDirect(120)));
    // Taps keep accumulating until tap mode is left.
    assert!(matches!(
        tap_mode_input(&mut measurer, "", 2_000_000_000),
        UserInput::SetTempoDirect(120)
    ));
    assert!(matches!(tap_mode_input(&mut measurer, "q", 2_500_000_000), UserInput::Resume));
    assert_eq!(measurer.num_tapped(), 0);
}
