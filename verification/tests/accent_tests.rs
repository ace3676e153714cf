use metronome::{
    get_beat_accents_from_time_signature, get_beat_to_print, get_metronome_beat_accent, BeatInfo,
    MetronomeBeatAccent, MetronomeSoundType, TimeSignature,
};

use MetronomeBeatAccent::{Accented, Beat, Subdivision};

#[test]
fn common_time_accents_the_downbeat() {
    let accents = get_beat_accents_from_time_signature(TimeSignature(4, 4));
    assert_eq!(accents, vec![Accented, Beat, Beat, Beat]);
}

#[test]
fn every_meter_accents_beat_zero() {
    for &(beats, unit) in &[(1, 1), (3, 4), (5, 4), (6, 8), (7, 8), (9, 8), (12, 8), (2, 2)] {
        let accents = get_beat_accents_from_time_signature(TimeSignature(beats, unit));
        assert_eq!(accents[0], Accented);
        assert_eq!(accents.len(), beats as usize);
    }
}

#[test]
fn six_eight_groups_in_threes() {
    let accents = get_beat_accents_from_time_signature(TimeSignature(6, 8));
    assert_eq!(accents, vec![Accented, Subdivision, Subdivision, Beat, Subdivision, Subdivision]);
}

#[test]
fn seven_eight_accents_three_and_five() {
    let accents = get_beat_accents_from_time_signature(TimeSignature(7, 8));
    assert_eq!(accents[3], Beat);
    assert_eq!(accents[5], Beat);
    assert_eq!(
        accents,
        vec![Accented, Subdivision, Subdivision, Beat, Subdivision, Beat, Subdivision]
    );
}

#[test]
fn off_beat_ticks_are_subdivisions() {
    let accents = get_beat_accents_from_time_signature(TimeSignature(4, 4));
    let on_beat = get_metronome_beat_accent(
        &accents,
        BeatInfo { current_beat: 1, subdivided_beat: 0 },
    );
    assert_eq!(on_beat, Beat);
    let off_beat = get_metronome_beat_accent(
        &accents,
        BeatInfo { current_beat: 1, subdivided_beat: 1 },
    );
    assert_eq!(off_beat, Subdivision);
}

#[test]
fn sound_type_follows_the_position() {
    let downbeat = BeatInfo { current_beat: 0, subdivided_beat: 0 };
    let beat = BeatInfo { current_beat: 2, subdivided_beat: 0 };
    let tick = BeatInfo { current_beat: 2, subdivided_beat: 1 };
    assert_eq!(MetronomeSoundType::from_beat_info(downbeat, false), MetronomeSoundType::Accented);
    assert_eq!(MetronomeSoundType::from_beat_info(beat, false), MetronomeSoundType::Beat);
    assert_eq!(MetronomeSoundType::from_beat_info(tick, false), MetronomeSoundType::Subdivision);
    // In an eighths meter only every third beat keeps the ordinary sound.
    let second = BeatInfo { current_beat: 1, subdivided_beat: 0 };
    let third = BeatInfo { current_beat: 3, subdivided_beat: 0 };
    assert_eq!(MetronomeSoundType::from_beat_info(second, true), MetronomeSoundType::Subdivision);
    assert_eq!(MetronomeSoundType::from_beat_info(third, true), MetronomeSoundType::Beat);
}

#[test]
fn sound_type_from_bare_beat() {
    assert_eq!(MetronomeSoundType::from_beat(0, false), MetronomeSoundType::Accented);
    assert_eq!(MetronomeSoundType::from_beat(2, false), MetronomeSoundType::Beat);
    assert_eq!(MetronomeSoundType::from_beat(0, true), MetronomeSoundType::Accented);
    assert_eq!(MetronomeSoundType::from_beat(2, true), MetronomeSoundType::Subdivision);
    assert_eq!(MetronomeSoundType::from_beat(3, true), MetronomeSoundType::Beat);
}

#[test]
fn printed_beats_mark_the_groups() {
    assert_eq!(get_beat_to_print(0, false), 'X');
    assert_eq!(get_beat_to_print(1, false), 'x');
    assert_eq!(get_beat_to_print(0, true), 'X');
    assert_eq!(get_beat_to_print(1, true), '.');
    assert_eq!(get_beat_to_print(3, true), 'x');
    assert_eq!(get_beat_to_print(6, true), 'x');
}
