//! Which of the three metronome sounds a tick triggers.
use vstd::prelude::*;

use crate::beat::BeatInfo;

verus! {

/// The three metronome sounds, from the accented downbeat of the measure down
/// to the quiet subdivision tick.
#[derive(Debug, Clone, Copy, PartialEq, Eq, Structural)]
pub enum MetronomeSoundType {
    Accented,
    Beat,
    Subdivision,
}

/// The sound for a position: the measure's downbeat is accented; any other
/// beat start is an ordinary beat, except that an eighths meter keeps only
/// every third beat ordinary and lets the rest tick as subdivisions.
pub open spec fn sound_for_position(
    beat_info: BeatInfo,
    is_eighths_time_signature: bool,
) -> MetronomeSoundType {
    if beat_info.current_beat == 0 && beat_info.subdivided_beat == 0 {
        MetronomeSoundType::Accented
    } else if beat_info.subdivided_beat == 0 && (!is_eighths_time_signature
        || beat_info.current_beat as int % 3 == 0) {
        MetronomeSoundType::Beat
    } else {
        MetronomeSoundType::Subdivision
    }
}

impl MetronomeSoundType {
    /// The sound for the current position of the measure.
    pub fn from_beat_info(beat_info: BeatInfo, is_eighths_time_signature: bool) -> (r: Self)
        ensures
            r == sound_for_position(beat_info, is_eighths_time_signature),
    {
        if is_eighths_time_signature {
            if beat_info.current_beat == 0 && beat_info.subdivided_beat == 0 {
                Self::Accented
            } else if beat_info.current_beat % 3 == 0 && beat_info.subdivided_beat == 0 {
                Self::Beat
            } else {
                Self::Subdivision
            }
        } else {
            if beat_info.current_beat == 0 && beat_info.subdivided_beat == 0 {
                Self::Accented
            } else if beat_info.subdivided_beat == 0 {
                Self::Beat
            } else {
                Self::Subdivision
            }
        }
    }

    /// The sound for a bare beat number, with no subdivision in play.
    pub fn from_beat(beat: u8, is_eighths_time_signature: bool) -> (r: Self)
        ensures
            r == sound_for_position(
                BeatInfo { current_beat: beat, subdivided_beat: 0 },
                is_eighths_time_signature,
            ),
    {
        if is_eighths_time_signature {
            if beat == 0 {
                Self::Accented
            } else if beat % 3 == 0 {
                Self::Beat
            } else {
                Self::Subdivision
            }
        } else {
            if beat == 0 {
                Self::Accented
            } else {
                Self::Beat
            }
        }
    }
}

} // verus!
