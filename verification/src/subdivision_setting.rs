//! Which subdivided ticks are played and which are kept silent.
use vstd::prelude::*;

use crate::beat::BeatInfo;
use crate::text::{chars_of, string_of_chars};

verus! {

/// One play/silence flag per subdivision slot, parsed from a text where `x`
/// plays and `-` is silent. An empty setting plays everything.
#[derive(Debug, Clone)]
pub struct SubdivisionSetting {
    pub play_beat: Vec<bool>,
}

impl Default for SubdivisionSetting {
    /// The empty setting: every tick plays.
    fn default() -> (r: Self)
        ensures
            r.play_beat@.len() == 0,
    {
        SubdivisionSetting { play_beat: Vec::new() }
    }
}

/// A reason a subdivision setting text is rejected.
#[derive(Debug, Clone, Copy, PartialEq, Eq, Structural)]
pub enum SubdivisionSettingError {
    /// A character other than `x` or `-` occurred.
    InvalidCharacter,
}

impl SubdivisionSettingError {
    /// The message shown to the user for this rejection.
    pub fn message(&self) -> (r: String)
        ensures
            r@ == "Subdivision setting can only contain \"x\" or \"-\"!"@,
    {
        "Subdivision setting can only contain \"x\" or \"-\"!".to_owned()
    }
}

/// A setting text is accepted exactly when every character is `x` or `-`.
pub open spec fn setting_text_ok(s: Seq<char>) -> bool {
    forall|i: int| 0 <= i < s.len() ==> (#[trigger] s[i]) == 'x' || s[i] == '-'
}

/// What the lookup answers: position (0,0) always plays; otherwise the
/// setting is indexed by the beat within its group of three (for an eighths
/// meter without explicit subdivision) or by the subdivided tick, and an
/// index past the end of the setting plays.
pub open spec fn setting_plays(
    setting: Seq<bool>,
    beat_info: BeatInfo,
    time_signature_is_eighths: bool,
    has_subdivision: bool,
) -> bool {
    if beat_info.current_beat == 0 && beat_info.subdivided_beat == 0 {
        true
    } else {
        let idx = if time_signature_is_eighths && !has_subdivision {
            beat_info.current_beat as int % 3
        } else {
            beat_info.subdivided_beat as int
        };
        if idx < setting.len() {
            setting[idx]
        } else {
            true
        }
    }
}

impl SubdivisionSetting {
    /// Parses a text of `x` and `-` flags; any other character is refused.
    pub fn from_str(s: &str) -> (r: Result<SubdivisionSetting, SubdivisionSettingError>)
        ensures
            r matches Ok(st) <==> setting_text_ok(s@),
            r matches Ok(st) ==> st.play_beat@.len() == s@.len() && (forall|i: int|
                0 <= i < s@.len() ==> st.play_beat@[i] == (s@[i] == 'x')),
            r matches Err(e) ==> e == SubdivisionSettingError::InvalidCharacter,
    {
        let v = chars_of(s);
        let mut play_beat: Vec<bool> = Vec::new();
        let n = v.len();
        for i in 0..n
            invariant
                n == v@.len(),
                v@ == s@,
                play_beat@.len() == i,
                forall|j: int| 0 <= j < i ==> (#[trigger] v@[j]) == 'x' || v@[j] == '-',
                forall|j: int| 0 <= j < i ==> play_beat@[j] == (v@[j] == 'x'),
        {
            let c = v[i];
            if c != 'x' && c != '-' {
                return Err(SubdivisionSettingError::InvalidCharacter);
            }
            play_beat.push(c == 'x');
        }
        Ok(SubdivisionSetting { play_beat })
    }

    /// Whether the tick at `beat_info` is played under this setting. The
    /// downbeat of the measure plays whatever the setting says.
    pub fn should_play_subdivision_beat(
        &self,
        beat_info: BeatInfo,
        time_signature_is_eighths: bool,
        has_subdivision: bool,
    ) -> (r: bool)
        ensures
            r == setting_plays(
                self.play_beat@,
                beat_info,
                time_signature_is_eighths,
                has_subdivision,
            ),
            beat_info.current_beat == 0 && beat_info.subdivided_beat == 0 ==> r,
    {
        if beat_info.current_beat == 0 && beat_info.subdivided_beat == 0 {
            return true;
        }
        let idx: usize = if time_signature_is_eighths && !has_subdivision {
            (beat_info.current_beat % 3) as usize
        } else {
            beat_info.subdivided_beat as usize
        };
        match self.play_beat.get(idx) {
            Some(p) => *p,
            None => true,
        }
    }

    /// Renders the setting back as a text of `x` and `-`.
    pub fn to_text(&self) -> (r: String)
        ensures
            r@.len() == self.play_beat@.len(),
            forall|i: int| 0 <= i < r@.len() ==> r@[i] == (if self.play_beat@[i] {
                'x'
            } else {
                '-'
            }),
    {
        let mut out: Vec<char> = Vec::new();
        let n = self.play_beat.len();
        for i in 0..n
            invariant
                n == self.play_beat@.len(),
                out@.len() == i,
                forall|j: int| 0 <= j < i ==> out@[j] == (if self.play_beat@[j] {
                    'x'
                } else {
                    '-'
                }),
        {
            if self.play_beat[i] {
                out.push('x');
            } else {
                out.push('-');
            }
        }
        string_of_chars(out.as_slice())
    }
}

} // verus!
