//! The accent class of each beat of a measure.
use vstd::prelude::*;

use crate::beat::BeatInfo;
use crate::time_signature::TimeSignature;

verus! {

/// How strongly a tick is struck: the accented downbeat of the measure, an
/// ordinary beat, or a subdivision tick.
#[derive(Debug, Clone, Copy, PartialEq, Eq, Structural)]
pub enum MetronomeBeatAccent {
    Accented,
    Beat,
    Subdivision,
}

/// The accent the meter assigns to beat `i` of a measure. Beat 0 is always
/// accented. In an eighths meter the beats at multiples of 3 are ordinary
/// beats and the rest subdivision ticks — except 7/8, whose groups are
/// asymmetric, so beats 3 and 5 take the ordinary-beat role instead. In any
/// other meter every beat after the first is an ordinary beat.
pub open spec fn accent_for_beat(time_signature: TimeSignature, i: int) -> MetronomeBeatAccent {
    if i == 0 {
        MetronomeBeatAccent::Accented
    } else if time_signature.1 == 8 {
        if time_signature.0 == 7 {
            if i == 3 || i == 5 {
                MetronomeBeatAccent::Beat
            } else {
                MetronomeBeatAccent::Subdivision
            }
        } else {
            if i % 3 == 0 {
                MetronomeBeatAccent::Beat
            } else {
                MetronomeBeatAccent::Subdivision
            }
        }
    } else {
        MetronomeBeatAccent::Beat
    }
}

/// Looks the current position up in a measure's accent table: every tick off
/// the beat is a subdivision tick, and on the beat the table decides.
pub fn get_metronome_beat_accent(
    metronome_beat_accents: &[MetronomeBeatAccent],
    beat_info: BeatInfo,
) -> (r: MetronomeBeatAccent)
    requires
        beat_info.subdivided_beat != 0 || beat_info.current_beat
            < metronome_beat_accents@.len(),
    ensures
        r == if beat_info.subdivided_beat != 0 {
            MetronomeBeatAccent::Subdivision
        } else {
            metronome_beat_accents@[beat_info.current_beat as int]
        },
{
    if beat_info.subdivided_beat != 0 {
        MetronomeBeatAccent::Subdivision
    } else {
        metronome_beat_accents[beat_info.current_beat as usize]
    }
}

/// The accent table of an eighths meter.
fn eighths_beat_accents(time_signature: TimeSignature) -> (r: Vec<MetronomeBeatAccent>)
    requires
        time_signature.wf(),
        time_signature.1 == 8,
    ensures
        r@.len() == time_signature.0,
        forall|i: int| 0 <= i < r@.len() ==> r@[i] == accent_for_beat(time_signature, i),
{
    let n = time_signature.0;
    let mut r: Vec<MetronomeBeatAccent> = Vec::new();
    let mut i: u8 = 0;
    while i < n
        invariant
            i <= n,
            time_signature.wf(),
            time_signature.1 == 8,
            time_signature.0 == n,
            r@.len() == i,
            forall|j: int| 0 <= j < i ==> r@[j] == accent_for_beat(time_signature, j),
        decreases n - i,
    {
        if i == 0 {
            r.push(MetronomeBeatAccent::Accented);
        } else if n == 7 {
            if i == 3 || i == 5 {
                r.push(MetronomeBeatAccent::Beat);
            } else {
                r.push(MetronomeBeatAccent::Subdivision);
            }
        } else if i % 3 == 0 {
            r.push(MetronomeBeatAccent::Beat);
        } else {
            r.push(MetronomeBeatAccent::Subdivision);
        }
        i = i + 1;
    }
    r
}

/// Builds the accent table of a full measure: one accent class per beat,
/// following `accent_for_beat`. Whatever the meter, beat 0 is accented, and
/// in 7/8 beats 3 and 5 are the ordinary beats.
pub fn get_beat_accents_from_time_signature(time_signature: TimeSignature) -> (r: Vec<
    MetronomeBeatAccent,
>)
    requires
        time_signature.wf(),
    ensures
        r@.len() == time_signature.0,
        forall|i: int| 0 <= i < r@.len() ==> r@[i] == accent_for_beat(time_signature, i),
        r@[0] == MetronomeBeatAccent::Accented,
        time_signature.1 == 8 && time_signature.0 == 7 ==> r@[3] == MetronomeBeatAccent::Beat
            && r@[5] == MetronomeBeatAccent::Beat,
{
    let r = build_beat_accents(time_signature);
    proof {
        assert(r@[0] == accent_for_beat(time_signature, 0));
        if time_signature.1 == 8 && time_signature.0 == 7 {
            assert(r@[3] == accent_for_beat(time_signature, 3));
            assert(r@[5] == accent_for_beat(time_signature, 5));
        }
    }
    r
}

/// Builds the accent table for either kind of meter.
fn build_beat_accents(time_signature: TimeSignature) -> (r: Vec<MetronomeBeatAccent>)
    requires
        time_signature.wf(),
    ensures
        r@.len() == time_signature.0,
        forall|i: int| 0 <= i < r@.len() ==> r@[i] == accent_for_beat(time_signature, i),
{
    if time_signature.1 == 8 {
        eighths_beat_accents(time_signature)
    } else {
        let n = time_signature.0;
        let mut r: Vec<MetronomeBeatAccent> = Vec::new();
        let mut i: u8 = 0;
        while i < n
            invariant
                i <= n,
                time_signature.wf(),
                time_signature.1 != 8,
                time_signature.0 == n,
                r@.len() == i,
                forall|j: int| 0 <= j < i ==> r@[j] == accent_for_beat(time_signature, j),
            decreases n - i,
        {
            if i == 0 {
                r.push(MetronomeBeatAccent::Accented);
            } else {
                r.push(MetronomeBeatAccent::Beat);
            }
            i = i + 1;
        }
        r
    }
}

} // verus!
