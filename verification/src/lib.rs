//! Core of an interactive terminal metronome: the musical time model (tempo,
//! time signature, tempo type, subdivision), beat position and accent rules,
//! beat scheduling against a wall clock, tap-tempo estimation, a countdown
//! timer, and the command interpreter that mutates the shared state.
//!
//! Everything here is pure with respect to the outside world: wall-clock
//! instants enter as nanosecond counters, command lines enter as strings, and
//! the audio/terminal collaborators live outside the library.
use vstd::prelude::*;

mod accent;
mod beat;
mod data;
mod display;
mod render_tracker;
mod sound_type;
mod subdivision_setting;
mod tempo;
mod tempo_measurer;
mod text;
mod time_signature;
mod timer;
mod user_input;

pub use accent::{accent_for_beat, get_beat_accents_from_time_signature, get_metronome_beat_accent,
    MetronomeBeatAccent};
pub use beat::{beat_advanced, beat_advanced_n, beat_in_range, lemma_beat_cycle,
    lemma_marked_scheduler_fires, modulo_increment, should_fire, BeatInfo, MetronomeBeatTracker};
pub use data::{after_set_subdivision, after_set_tempo, after_set_tempo_type,
    after_set_time_signature, clamped_tempo, outcome_message, outcome_silent,
    subdivision_text_ok, tempo_text_ok, ExecuteOutcome, MetronomeData};
pub use display::get_beat_to_print;
pub use render_tracker::TimerRenderTracker;
pub use sound_type::{sound_for_position, MetronomeSoundType};
pub use subdivision_setting::{setting_plays, setting_text_ok, SubdivisionSetting,
    SubdivisionSettingError};
pub use tempo::{default_tempo_type, duration_nanos, duration_per_subdivided_beat_nanos,
    is_tempo_valid, lemma_duration_positive, lemma_duration_strictly_decreasing,
    note_length_sixteenths,
    tempo_type_from_name, TempoType, TEMPO_MAX, TEMPO_MIN};
pub use tempo_measurer::{tap_mode_input, tap_tempo, taps_wf, TempoMeasurer, TAPS_NEEDED};
pub use text::{digits_value, is_digits, lower_seq};
pub use time_signature::{time_sig_ok, TimeSignature, TimeSignatureError};
pub use timer::{remaining_secs, rendered_duration, timer_text_ok, Timer, TimerError};
pub use user_input::{token0, token1, UserInput};

verus! {

} // verus!
