//! Pure pieces of the terminal display.
use vstd::prelude::*;

verus! {

/// The character that stands for beat `beat_index` in the rendered measure:
/// `X` for the downbeat; in an eighths meter `x` for the beats at multiples
/// of 3 and `.` for the rest; in any other meter `x` for every other beat.
pub fn get_beat_to_print(beat_index: u8, is_eighths_time_signature: bool) -> (r: char)
    ensures
        r == if beat_index == 0 {
            'X'
        } else if is_eighths_time_signature {
            if beat_index as int % 3 == 0 {
                'x'
            } else {
                '.'
            }
        } else {
            'x'
        },
{
    if is_eighths_time_signature {
        if beat_index == 0 {
            'X'
        } else if beat_index % 3 == 0 {
            'x'
        } else {
            '.'
        }
    } else {
        if beat_index == 0 {
            'X'
        } else {
            'x'
        }
    }
}

} // verus!
