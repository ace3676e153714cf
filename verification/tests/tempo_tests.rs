use metronome::{
    duration_per_subdivided_beat_nanos, is_tempo_valid, TempoType, TimeSignature,
    TimeSignatureError,
};

#[test]
fn tempo_range_bounds() {
    assert!(!is_tempo_valid(9));
    assert!(is_tempo_valid(10));
    assert!(is_tempo_valid(60));
    assert!(is_tempo_valid(400));
    assert!(!is_tempo_valid(401));
}

#[test]
fn quarter_note_sixty_bpm_is_one_second() {
    let d = duration_per_subdivided_beat_nanos(60, TempoType::QuarterNote, TimeSignature(4, 4), 1);
    assert_eq!(d, 1_000_000_000);
}

#[test]
fn subdivision_splits_the_beat() {
    let d = duration_per_subdivided_beat_nanos(120, TempoType::QuarterNote, TimeSignature(4, 4), 2);
    assert_eq!(d, 250_000_000);
}

#[test]
fn dotted_quarter_in_six_eight() {
    // 960e9 / (6 * 60 * 8 * 1) nanoseconds, rounded down.
    let d = duration_per_subdivided_beat_nanos(60, TempoType::DottedQuarter, TimeSignature(6, 8), 1);
    assert_eq!(d, 333_333_333);
}

#[test]
fn extreme_settings_still_take_time() {
    // The largest everything: 960e9 / (24 * 400 * 128 * 255) nanoseconds,
    // short but never zero.
    let d = duration_per_subdivided_beat_nanos(
        400,
        TempoType::DottedWhole,
        TimeSignature(255, 128),
        255,
    );
    assert_eq!(d, 3063);
}

#[test]
fn faster_tempo_means_shorter_tick() {
    let slow = duration_per_subdivided_beat_nanos(119, TempoType::HalfNote, TimeSignature(3, 4), 3);
    let fast = duration_per_subdivided_beat_nanos(120, TempoType::HalfNote, TimeSignature(3, 4), 3);
    assert!(fast < slow);
}

#[test]
fn tempo_type_names_parse() {
    assert_eq!(TempoType::from_str("quarter-note"), Some(TempoType::QuarterNote));
    assert_eq!(TempoType::from_str("eighth-note"), Some(TempoType::EighthNote));
    assert_eq!(TempoType::from_str("sixteenth-note"), Some(TempoType::SixteenthNote));
    assert_eq!(TempoType::from_str("half-note"), Some(TempoType::HalfNote));
    assert_eq!(TempoType::from_str("whole-note"), Some(TempoType::WholeNote));
    assert_eq!(TempoType::from_str("dotted-quarter"), Some(TempoType::DottedQuarter));
    assert_eq!(TempoType::from_str("dotted-half"), Some(TempoType::DottedHalf));
    assert_eq!(TempoType::from_str("dotted-whole"), Some(TempoType::DottedWhole));
    assert_eq!(TempoType::from_str("waltz"), None);
    assert_eq!(TempoType::from_str(""), None);
}

#[test]
fn tempo_type_display_names() {
    assert_eq!(TempoType::QuarterNote.name(), "Quarter Note");
    assert_eq!(TempoType::DottedQuarter.name(), "Dotted Quarter Note");
}

#[test]
fn default_tempo_type_follows_the_meter() {
    assert_eq!(
        TempoType::get_default_based(TimeSignature(4, 4)),
        TempoType::QuarterNote
    );
    assert_eq!(
        TempoType::get_default_based(TimeSignature(6, 8)),
        TempoType::DottedQuarter
    );
    assert_eq!(
        TempoType::get_default_based(TimeSignature(2, 2)),
        TempoType::HalfNote
    );
}

#[test]
fn time_signature_parses() {
    assert_eq!(TimeSignature::from_str("4/4"), Ok(TimeSignature(4, 4)));
    assert_eq!(TimeSignature::from_str("6/8"), Ok(TimeSignature(6, 8)));
    assert_eq!(TimeSignature::from_str("12/16"), Ok(TimeSignature(12, 16)));
}

#[test]
fn time_signature_rejections() {
    assert_eq!(
        TimeSignature::from_str("44"),
        Err(TimeSignatureError::Format)
    );
    assert_eq!(
        TimeSignature::from_str("4/4/4"),
        Err(TimeSignatureError::Format)
    );
    assert_eq!(
        TimeSignature::from_str("0/4"),
        Err(TimeSignatureError::Numerator)
    );
    assert_eq!(
        TimeSignature::from_str("x/4"),
        Err(TimeSignatureError::Numerator)
    );
    assert_eq!(
        TimeSignature::from_str("4/3"),
        Err(TimeSignatureError::Denominator)
    );
    assert_eq!(
        TimeSignature::from_str("4/0"),
        Err(TimeSignatureError::Denominator)
    );
    assert_eq!(
        TimeSignature::from_str("4/999"),
        Err(TimeSignatureError::Denominator)
    );
}

#[test]
fn time_signature_renders() {
    assert_eq!(TimeSignature(4, 4).to_text(), "4/4");
    assert_eq!(TimeSignature(12, 16).to_text(), "12/16");
    assert_eq!(TimeSignature::default(), TimeSignature(4, 4));
}
