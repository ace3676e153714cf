//! The shared metronome state and the single entry point that commands
//! mutate it through.
use vstd::prelude::*;

use crate::beat::{beat_in_range, BeatInfo};
use crate::subdivision_setting::{setting_text_ok, SubdivisionSetting};
use crate::tempo::{
    default_tempo_type, duration_nanos, duration_per_subdivided_beat_nanos, tempo_type_from_name,
    TempoType, TEMPO_MAX, TEMPO_MIN,
};
use crate::text::{chars_of, digits_value, is_digits, parse_u64_chars};
use crate::time_signature::{parsed_time_sig, time_sig_ok, TimeSignature};
use crate::timer::{timer_split, timer_text_ok, timer_total_secs, Timer};
use crate::user_input::UserInput;
use vstd::string::StringExecFns;

verus! {

broadcast use vstd::string::group_string_axioms;

/// The aggregate the whole metronome runs on: the musical time model, the
/// position in the measure, the two mode flags and the optional countdown.
#[derive(Debug, Clone)]
pub struct MetronomeData {
    pub tempo: u16,
    pub beat_info: BeatInfo,
    pub tempo_type: TempoType,
    pub time_signature: TimeSignature,
    pub subdivision: u8,
    pub subdivision_setting: SubdivisionSetting,
    pub duration_per_subdivided_beat_nanos: u64,
    pub is_paused: bool,
    pub tap_mode: bool,
    pub timer: Option<Timer>,
}

/// What applying one command reports back: at most one message for the user,
/// whether the help text is wanted, and whether the metronome should quit.
#[derive(Debug, Clone)]
pub struct ExecuteOutcome {
    pub message: Option<String>,
    pub show_help: bool,
    pub quit: bool,
}

/// An outcome with nothing to say.
pub open spec fn outcome_silent(o: ExecuteOutcome) -> bool {
    o.message is None && !o.show_help && !o.quit
}

/// An outcome whose only effect is the message `m`.
pub open spec fn outcome_message(o: ExecuteOutcome, m: Seq<char>) -> bool {
    &&& o.message matches Some(s) && s@ == m
    &&& !o.show_help
    &&& !o.quit
}

/// A tempo forced into the valid range.
pub open spec fn clamped_tempo(t: int) -> int {
    if t < TEMPO_MIN {
        TEMPO_MIN as int
    } else if t > TEMPO_MAX {
        TEMPO_MAX as int
    } else {
        t
    }
}

/// The state after the tempo changes to `t` (clamped): the position resets
/// and the tick duration is recomputed; everything else stays.
pub open spec fn after_set_tempo(d: MetronomeData, t: int) -> MetronomeData {
    MetronomeData {
        tempo: clamped_tempo(t) as u16,
        beat_info: BeatInfo { current_beat: 0, subdivided_beat: 0 },
        duration_per_subdivided_beat_nanos: duration_nanos(
            clamped_tempo(t),
            d.tempo_type,
            d.time_signature,
            d.subdivision as int,
        ) as u64,
        ..d
    }
}

/// The state after the tempo type changes: the tempo is re-applied, which
/// resets the position and recomputes the tick duration.
pub open spec fn after_set_tempo_type(d: MetronomeData, t: TempoType) -> MetronomeData {
    after_set_tempo(MetronomeData { tempo_type: t, ..d }, d.tempo as int)
}

/// The state after the time signature changes: the tempo type falls back to
/// the meter's default, and the tempo is re-applied.
pub open spec fn after_set_time_signature(d: MetronomeData, sig: TimeSignature) -> MetronomeData {
    after_set_tempo_type(MetronomeData { time_signature: sig, ..d }, default_tempo_type(sig))
}

/// The state after the subdivision changes to `n`: the position resets and
/// the tick duration is recomputed.
pub open spec fn after_set_subdivision(d: MetronomeData, n: int) -> MetronomeData {
    MetronomeData {
        subdivision: n as u8,
        beat_info: BeatInfo { current_beat: 0, subdivided_beat: 0 },
        duration_per_subdivided_beat_nanos: duration_nanos(
            d.tempo as int,
            d.tempo_type,
            d.time_signature,
            n,
        ) as u64,
        ..d
    }
}

/// A subdivision argument is usable exactly when it is a number from 1 to
/// the most slots a beat can hold.
pub open spec fn subdivision_text_ok(s: Seq<char>) -> bool {
    is_digits(s) && 1 <= digits_value(s) <= 255
}

/// A tempo argument is usable exactly when it is a number in the valid range.
pub open spec fn tempo_text_ok(s: Seq<char>) -> bool {
    is_digits(s) && TEMPO_MIN <= digits_value(s) <= TEMPO_MAX
}

impl MetronomeData {
    /// The settings alone are sound: tempo in range, a well-formed meter,
    /// and at least one subdivision slot.
    pub open spec fn settings_wf(self) -> bool {
        &&& TEMPO_MIN <= self.tempo <= TEMPO_MAX
        &&& self.time_signature.wf()
        &&& self.subdivision >= 1
    }

    /// The invariant every command preserves: sound settings, the position
    /// inside the measure, and the cached tick duration in step with the
    /// settings.
    pub open spec fn wf(self) -> bool {
        &&& self.settings_wf()
        &&& beat_in_range(self.beat_info, self.time_signature.0 as int, self.subdivision as int)
        &&& self.duration_per_subdivided_beat_nanos == duration_nanos(
            self.tempo as int,
            self.tempo_type,
            self.time_signature,
            self.subdivision as int,
        ) as u64
    }

    /// A fresh metronome. The position starts on the last tick of the
    /// measure, so the very first tick that fires wraps onto the downbeat.
    pub fn new(
        tempo: u16,
        time_signature: TimeSignature,
        tempo_type: Option<TempoType>,
        subdivision: u8,
    ) -> (r: Self)
        requires
            TEMPO_MIN <= tempo <= TEMPO_MAX,
            time_signature.wf(),
            subdivision >= 1,
        ensures
            r.wf(),
            r.tempo == tempo,
            r.time_signature == time_signature,
            r.tempo_type == (match tempo_type {
                Some(t) => t,
                None => default_tempo_type(time_signature),
            }),
            r.subdivision == subdivision,
            r.beat_info == (BeatInfo {
                current_beat: (time_signature.0 - 1) as u8,
                subdivided_beat: (subdivision - 1) as u8,
            }),
            r.subdivision_setting.play_beat@.len() == 0,
            !r.is_paused,
            !r.tap_mode,
            r.timer is None,
    {
        let tempo_type = match tempo_type {
            Some(t) => t,
            None => TempoType::get_default_based(time_signature),
        };
        let duration = duration_per_subdivided_beat_nanos(
            tempo,
            tempo_type,
            time_signature,
            subdivision,
        );
        MetronomeData {
            tempo,
            time_signature,
            tempo_type,
            subdivision,
            subdivision_setting: SubdivisionSetting::default(),
            beat_info: BeatInfo {
                current_beat: time_signature.0 - 1,
                subdivided_beat: subdivision - 1,
            },
            duration_per_subdivided_beat_nanos: duration,
            is_paused: false,
            tap_mode: false,
            timer: None,
        }
    }

    /// Recomputes the cached tick duration from the current settings.
    fn recalculate_duration_per_subdivided_beat(&mut self)
        requires
            TEMPO_MIN <= old(self).tempo <= TEMPO_MAX,
            old(self).time_signature.wf(),
            old(self).subdivision >= 1,
        ensures
            *final(self) == (MetronomeData {
                duration_per_subdivided_beat_nanos: duration_nanos(
                    old(self).tempo as int,
                    old(self).tempo_type,
                    old(self).time_signature,
                    old(self).subdivision as int,
                ) as u64,
                ..*old(self)
            }),
    {
        self.duration_per_subdivided_beat_nanos = duration_per_subdivided_beat_nanos(
            self.tempo,
            self.tempo_type,
            self.time_signature,
            self.subdivision,
        );
    }

    /// Sets the tempo, clamped into the valid range; the position resets and
    /// the tick duration follows.
    pub fn change_tempo(&mut self, tempo: u16)
        requires
            old(self).settings_wf(),
        ensures
            *final(self) == after_set_tempo(*old(self), tempo as int),
            final(self).wf(),
    {
        self.tempo = if tempo < TEMPO_MIN {
            TEMPO_MIN
        } else if tempo > TEMPO_MAX {
            TEMPO_MAX
        } else {
            tempo
        };
        self.beat_info.reset();
        self.recalculate_duration_per_subdivided_beat();
    }

    /// Sets the tempo type; the tempo is re-applied so the position resets
    /// and the tick duration follows.
    pub fn change_tempo_type(&mut self, tempo_type: TempoType)
        requires
            old(self).settings_wf(),
        ensures
            *final(self) == after_set_tempo_type(*old(self), tempo_type),
            final(self).wf(),
    {
        self.tempo_type = tempo_type;
        let tempo = self.tempo;
        self.change_tempo(tempo);
    }

    /// Sets the time signature; the tempo type falls back to the meter's
    /// default, and the position resets.
    pub fn change_time_signature(&mut self, time_signature: TimeSignature)
        requires
            old(self).settings_wf(),
            time_signature.wf(),
        ensures
            *final(self) == after_set_time_signature(*old(self), time_signature),
            final(self).tempo_type == default_tempo_type(time_signature),
            final(self).beat_info == (BeatInfo { current_beat: 0, subdivided_beat: 0 }),
            final(self).wf(),
    {
        self.time_signature = time_signature;
        self.change_tempo_type(TempoType::get_default_based(time_signature));
    }

    /// Sets the subdivision; the position resets and the tick duration
    /// follows.
    pub fn change_subdivision(&mut self, subdivision: u8)
        requires
            old(self).settings_wf(),
            subdivision >= 1,
        ensures
            *final(self) == after_set_subdivision(*old(self), subdivision as int),
            final(self).wf(),
    {
        self.subdivision = subdivision;
        self.recalculate_duration_per_subdivided_beat();
        self.beat_info.reset();
    }

    /// The current tempo.
    pub fn tempo(&self) -> (r: u16)
        ensures
            r == self.tempo,
    {
        self.tempo
    }

    /// The current tempo type.
    pub fn tempo_type(&self) -> (r: TempoType)
        ensures
            r == self.tempo_type,
    {
        self.tempo_type
    }

    /// The current subdivision.
    pub fn subdivision(&self) -> (r: u8)
        ensures
            r == self.subdivision,
    {
        self.subdivision
    }

    /// The current time signature.
    pub fn time_signature(&self) -> (r: TimeSignature)
        ensures
            r == self.time_signature,
    {
        self.time_signature
    }

    /// The cached duration of one subdivided tick, in nanoseconds.
    pub fn duration_per_subdivided_beat(&self) -> (r: u64)
        ensures
            r == self.duration_per_subdivided_beat_nanos,
    {
        self.duration_per_subdivided_beat_nanos
    }

    /// Whether the meter is an eighths meter.
    pub fn time_signature_is_eighths(&self) -> (r: bool)
        ensures
            r == (self.time_signature.1 == 8),
    {
        self.time_signature.1 == 8
    }

    /// The single state-mutation entry point: applies one parsed command to
    /// the shared state. A command with a bad argument leaves the state
    /// untouched and reports a validation message; `Help` and `Quit` leave
    /// the state untouched and ask the caller to print the help text or shut
    /// down. `now_nanos` is the wall clock, which only a fresh timer reads.
    #[verifier::rlimit(100)]
    pub fn execute(&mut self, user_input: &UserInput, now_nanos: u64) -> (r: ExecuteOutcome)
        requires
            old(self).wf(),
        ensures
            final(self).wf(),
            *user_input is Pause ==> *final(self) == (MetronomeData {
                is_paused: true,
                ..*old(self)
            }) && outcome_silent(r),
            *user_input is Resume ==> *final(self) == (MetronomeData {
                is_paused: false,
                beat_info: BeatInfo { current_beat: 0, subdivided_beat: 0 },
                ..*old(self)
            }) && outcome_silent(r),
            *user_input is Help ==> *final(self) == *old(self) && r.show_help && r.message
                is None && !r.quit,
            *user_input is Clear ==> *final(self) == *old(self) && outcome_silent(r),
            *user_input is Tap ==> *final(self) == (MetronomeData {
                tap_mode: true,
                is_paused: true,
                ..*old(self)
            }) && outcome_silent(r),
            *user_input is Quit ==> *final(self) == *old(self) && r.quit && !r.show_help && (
            r.message matches Some(m) && m@ == "Goodbye!"@),
            *user_input matches UserInput::Unknown(c) ==> *final(self) == *old(self)
                && outcome_message(r, "Unknown command `"@ + c@ + "`!"@),
            *user_input matches UserInput::SetTempoDirect(t) ==> *final(self) == after_set_tempo(
                *old(self),
                t as int,
            ) && outcome_silent(r),
            *user_input matches UserInput::SetTempo(s) ==> (if tempo_text_ok(s@) {
                *final(self) == after_set_tempo(*old(self), digits_value(s@)) && outcome_silent(
                    r,
                )
            } else {
                *final(self) == *old(self) && outcome_message(
                    r,
                    "Invalid tempo `"@ + s@
                        + "`! Must be a valid whole number between 10-400!"@,
                )
            }),
            *user_input matches UserInput::SetTimeSignature(s) ==> (if time_sig_ok(s@) {
                *final(self) == after_set_time_signature(*old(self), parsed_time_sig(s@))
                    && outcome_silent(r)
            } else {
                *final(self) == *old(self) && outcome_message(
                    r,
                    "Invalid time signature `"@ + s@ + "`!"@,
                )
            }),
            *user_input matches UserInput::SetTempoType(s) ==> (match tempo_type_from_name(s@) {
                Some(t) => *final(self) == after_set_tempo_type(*old(self), t)
                    && outcome_silent(r),
                None => *final(self) == *old(self) && outcome_message(
                    r,
                    "Invalid tempo type "@ + s@ + "!"@,
                ),
            }),
            *user_input matches UserInput::SetSubdivision(s) ==> (if subdivision_text_ok(s@) {
                *final(self) == after_set_subdivision(*old(self), digits_value(s@))
                    && outcome_silent(r)
            } else {
                *final(self) == *old(self) && outcome_message(
                    r,
                    "Invalid subdivision "@ + s@
                        + "! Must be a whole number that is at least 1!"@,
                )
            }),
            *user_input matches UserInput::SetSubdivisionSetting(s) ==> (if setting_text_ok(
                s@,
            ) {
                &&& *final(self) == (MetronomeData {
                    subdivision_setting: final(self).subdivision_setting,
                    ..*old(self)
                })
                &&& final(self).subdivision_setting.play_beat@.len() == s@.len()
                &&& (forall|i: int|
                    0 <= i < s@.len() ==> final(self).subdivision_setting.play_beat@[i] == (
                    s@[i] == 'x'))
                &&& outcome_silent(r)
            } else {
                *final(self) == *old(self) && outcome_message(
                    r,
                    "Invalid subdivision setting \""@ + s@ + "\"! (Error: "@
                        + "Subdivision setting can only contain \"x\" or \"-\"!"@ + ")"@,
                )
            }),
            *user_input matches UserInput::SetTimer(s) ==> (if timer_text_ok(s@) {
                *final(self) == (MetronomeData { timer: final(self).timer, ..*old(self) }) && (
                timer_split(s@) matches Some(f) && final(self).timer == Some(
                    Timer {
                        created_timestamp_nanos: now_nanos,
                        duration_secs: timer_total_secs(f.0, f.1, f.2) as u64,
                    },
                )) && outcome_silent(r)
            } else {
                *final(self) == *old(self) && outcome_message(
                    r,
                    "Invalid timer string! Format: HH:MM:SS, hour and minutes optional"@,
                )
            }),
            *user_input is StopTimer ==> *final(self) == (MetronomeData {
                timer: None,
                ..*old(self)
            }) && outcome_silent(r),
    {
        let silent = ExecuteOutcome { message: None, show_help: false, quit: false };
        match user_input {
            UserInput::Pause => {
                self.is_paused = true;
                silent
            },
            UserInput::Resume => {
                self.is_paused = false;
                self.beat_info.reset();
                silent
            },
            UserInput::Help => ExecuteOutcome { message: None, show_help: true, quit: false },
            UserInput::Clear => silent,
            UserInput::Tap => {
                self.tap_mode = true;
                self.is_paused = true;
                silent
            },
            UserInput::Quit => ExecuteOutcome {
                message: Some("Goodbye!".to_owned()),
                show_help: false,
                quit: true,
            },
            UserInput::Unknown(command) => ExecuteOutcome {
                message: Some(
                    String::from_str("Unknown command `").concat(command.as_str()).concat("`!"),
                ),
                show_help: false,
                quit: false,
            },
            UserInput::SetTempoDirect(tempo) => {
                self.change_tempo(*tempo);
                silent
            },
            UserInput::SetTempo(tempo_str) => {
                let parsed = parse_u64_chars(chars_of(tempo_str.as_str()).as_slice());
                let valid: Option<u16> = match parsed {
                    Some(v) => if TEMPO_MIN as u64 <= v && v <= TEMPO_MAX as u64 {
                        Some(v as u16)
                    } else {
                        None
                    },
                    None => None,
                };
                match valid {
                    Some(tempo) => {
                        self.change_tempo(tempo);
                        silent
                    },
                    None => ExecuteOutcome {
                        message: Some(
                            String::from_str("Invalid tempo `").concat(
                                tempo_str.as_str(),
                            ).concat("`! Must be a valid whole number between 10-400!"),
                        ),
                        show_help: false,
                        quit: false,
                    },
                }
            },
            UserInput::SetTimeSignature(time_signature_str) => {
                match TimeSignature::from_str(time_signature_str.as_str()) {
                    Ok(time_signature) => {
                        self.change_time_signature(time_signature);
                        silent
                    },
                    Err(_) => ExecuteOutcome {
                        message: Some(
                            String::from_str("Invalid time signature `").concat(
                                time_signature_str.as_str(),
                            ).concat("`!"),
                        ),
                        show_help: false,
                        quit: false,
                    },
                }
            },
            UserInput::SetTempoType(tempo_type_str) => {
                match TempoType::from_str(tempo_type_str.as_str()) {
                    Some(tempo_type) => {
                        self.change_tempo_type(tempo_type);
                        silent
                    },
                    None => ExecuteOutcome {
                        message: Some(
                            String::from_str("Invalid tempo type ").concat(
                                tempo_type_str.as_str(),
                            ).concat("!"),
                        ),
                        show_help: false,
                        quit: false,
                    },
                }
            },
            UserInput::SetSubdivision(subdivision_str) => {
                let parsed = parse_u64_chars(chars_of(subdivision_str.as_str()).as_slice());
                let valid: Option<u8> = match parsed {
                    Some(v) => if 1 <= v && v <= 255 {
                        Some(v as u8)
                    } else {
                        None
                    },
                    None => None,
                };
                match valid {
                    Some(subdivision) => {
                        self.change_subdivision(subdivision);
                        silent
                    },
                    None => ExecuteOutcome {
                        message: Some(
                            String::from_str("Invalid subdivision ").concat(
                                subdivision_str.as_str(),
                            ).concat("! Must be a whole number that is at least 1!"),
                        ),
                        show_help: false,
                        quit: false,
                    },
                }
            },
            UserInput::SetSubdivisionSetting(subdivision_setting_str) => {
                match SubdivisionSetting::from_str(subdivision_setting_str.as_str()) {
                    Ok(subdivision_setting) => {
                        self.subdivision_setting = subdivision_setting;
                        silent
                    },
                    Err(err) => ExecuteOutcome {
                        message: Some(
                            String::from_str("Invalid subdivision setting \"").concat(
                                subdivision_setting_str.as_str(),
                            ).concat("\"! (Error: ").concat(err.message().as_str()).concat(
                                ")",
                            ),
                        ),
                        show_help: false,
                        quit: false,
                    },
                }
            },
            UserInput::SetTimer(duration_str) => {
                match Timer::from_duration_spec(duration_str.as_str(), now_nanos) {
                    Ok(timer) => {
                        self.timer = Some(timer);
                        silent
                    },
                    Err(_) => ExecuteOutcome {
                        message: Some(
                            "Invalid timer string! Format: HH:MM:SS, hour and minutes optional".to_owned(),
                        ),
                        show_help: false,
                        quit: false,
                    },
                }
            },
            UserInput::StopTimer => {
                self.timer = None;
                silent
            },
        }
    }
}

} // verus!
