//! Tempo range, the tempo type (the note value one BPM count refers to), and
//! the derived duration of one subdivided tick.
use vstd::prelude::*;

use crate::text::chars_eq;
use crate::text::chars_of;
use crate::time_signature::TimeSignature;

verus! {

broadcast use vstd::string::group_string_axioms;

/// Lowest tempo the metronome accepts, in beats per minute.
pub const TEMPO_MIN: u16 = 10;

/// Highest tempo the metronome accepts, in beats per minute.
pub const TEMPO_MAX: u16 = 400;

/// A tempo is valid exactly when it lies in `[TEMPO_MIN, TEMPO_MAX]`.
pub fn is_tempo_valid(tempo: u16) -> (r: bool)
    ensures
        r == (TEMPO_MIN <= tempo && tempo <= TEMPO_MAX),
{
    TEMPO_MIN <= tempo && tempo <= TEMPO_MAX
}

/// The note value that one count of the tempo refers to.
#[derive(Debug, Clone, Copy, PartialEq, Eq, Structural)]
pub enum TempoType {
    QuarterNote,
    EighthNote,
    SixteenthNote,
    HalfNote,
    WholeNote,
    DottedQuarter,
    DottedHalf,
    DottedWhole,
}

/// Length of the tempo type's note value, counted in sixteenth notes (so a
/// quarter note is 4 and a dotted quarter 6).
pub open spec fn note_length_sixteenths(t: TempoType) -> int {
    match t {
        TempoType::QuarterNote => 4,
        TempoType::EighthNote => 2,
        TempoType::SixteenthNote => 1,
        TempoType::HalfNote => 8,
        TempoType::WholeNote => 16,
        TempoType::DottedQuarter => 6,
        TempoType::DottedHalf => 12,
        TempoType::DottedWhole => 24,
    }
}

impl TempoType {
    /// Length of this note value in sixteenth notes.
    pub fn to_note_length(self) -> (r: u8)
        ensures
            r == note_length_sixteenths(self),
    {
        match self {
            TempoType::QuarterNote => 4,
            TempoType::EighthNote => 2,
            TempoType::SixteenthNote => 1,
            TempoType::HalfNote => 8,
            TempoType::WholeNote => 16,
            TempoType::DottedQuarter => 6,
            TempoType::DottedHalf => 12,
            TempoType::DottedWhole => 24,
        }
    }

    /// The default tempo type a time signature implies: a beat unit of 2 (cut
    /// time) counts half notes, a beat unit of 8 counts dotted quarters, and
    /// anything else counts quarter notes.
    pub fn get_default_based(time_signature: TimeSignature) -> (r: Self)
        ensures
            r == default_tempo_type(time_signature),
    {
        match time_signature.1 {
            2 => TempoType::HalfNote,
            8 => TempoType::DottedQuarter,
            _ => TempoType::QuarterNote,
        }
    }

    /// Parses a tempo type name such as `dotted-quarter`; exactly the eight
    /// note-value names are accepted.
    pub fn from_str(s: &str) -> (r: Option<Self>)
        ensures
            r == tempo_type_from_name(s@),
    {
        proof {
            reveal_strlit("quarter-note");
            reveal_strlit("eighth-note");
            reveal_strlit("sixteenth-note");
            reveal_strlit("half-note");
            reveal_strlit("whole-note");
            reveal_strlit("dotted-quarter");
            reveal_strlit("dotted-half");
            reveal_strlit("dotted-whole");
            // The names differ in length, or for equal lengths in their
            // first character, so no two of them can be the same text.
            assert("quarter-note"@.len() == 12);
            assert("eighth-note"@.len() == 11);
            assert("sixteenth-note"@.len() == 14);
            assert("half-note"@.len() == 9);
            assert("whole-note"@.len() == 10);
            assert("dotted-quarter"@.len() == 14);
            assert("dotted-half"@.len() == 11);
            assert("dotted-whole"@.len() == 12);
            assert("sixteenth-note"@[0] == 's' && "dotted-quarter"@[0] == 'd');
            assert("eighth-note"@[0] == 'e' && "dotted-half"@[0] == 'd');
            assert("quarter-note"@[0] == 'q' && "dotted-whole"@[0] == 'd');
        }
        let v = chars_of(s);
        let c = v.as_slice();
        if chars_eq(c, chars_of("quarter-note").as_slice()) {
            Some(TempoType::QuarterNote)
        } else if chars_eq(c, chars_of("eighth-note").as_slice()) {
            Some(TempoType::EighthNote)
        } else if chars_eq(c, chars_of("sixteenth-note").as_slice()) {
            Some(TempoType::SixteenthNote)
        } else if chars_eq(c, chars_of("half-note").as_slice()) {
            Some(TempoType::HalfNote)
        } else if chars_eq(c, chars_of("whole-note").as_slice()) {
            Some(TempoType::WholeNote)
        } else if chars_eq(c, chars_of("dotted-quarter").as_slice()) {
            Some(TempoType::DottedQuarter)
        } else if chars_eq(c, chars_of("dotted-half").as_slice()) {
            Some(TempoType::DottedHalf)
        } else if chars_eq(c, chars_of("dotted-whole").as_slice()) {
            Some(TempoType::DottedWhole)
        } else {
            None
        }
    }

    /// The human-readable name of the note value.
    pub fn name(&self) -> (r: String)
        ensures
            self is QuarterNote ==> r@ == "Quarter Note"@,
            self is EighthNote ==> r@ == "Eighth Note"@,
            self is SixteenthNote ==> r@ == "Sixteenth Note"@,
            self is HalfNote ==> r@ == "Half Note"@,
            self is WholeNote ==> r@ == "Whole Note"@,
            self is DottedQuarter ==> r@ == "Dotted Quarter Note"@,
            self is DottedHalf ==> r@ == "Dotted Half Note"@,
            self is DottedWhole ==> r@ == "Dotted Whole Note"@,
    {
        match self {
            TempoType::QuarterNote => "Quarter Note".to_owned(),
            TempoType::EighthNote => "Eighth Note".to_owned(),
            TempoType::SixteenthNote => "Sixteenth Note".to_owned(),
            TempoType::HalfNote => "Half Note".to_owned(),
            TempoType::WholeNote => "Whole Note".to_owned(),
            TempoType::DottedQuarter => "Dotted Quarter Note".to_owned(),
            TempoType::DottedHalf => "Dotted Half Note".to_owned(),
            TempoType::DottedWhole => "Dotted Whole Note".to_owned(),
        }
    }
}

/// The tempo type each of the eight note-value names stands for; any other
/// text names none.
pub open spec fn tempo_type_from_name(s: Seq<char>) -> Option<TempoType> {
    if s == "quarter-note"@ {
        Some(TempoType::QuarterNote)
    } else if s == "eighth-note"@ {
        Some(TempoType::EighthNote)
    } else if s == "sixteenth-note"@ {
        Some(TempoType::SixteenthNote)
    } else if s == "half-note"@ {
        Some(TempoType::HalfNote)
    } else if s == "whole-note"@ {
        Some(TempoType::WholeNote)
    } else if s == "dotted-quarter"@ {
        Some(TempoType::DottedQuarter)
    } else if s == "dotted-half"@ {
        Some(TempoType::DottedHalf)
    } else if s == "dotted-whole"@ {
        Some(TempoType::DottedWhole)
    } else {
        None
    }
}

/// The default tempo type a time signature implies.
pub open spec fn default_tempo_type(time_signature: TimeSignature) -> TempoType {
    if time_signature.1 == 2 {
        TempoType::HalfNote
    } else if time_signature.1 == 8 {
        TempoType::DottedQuarter
    } else {
        TempoType::QuarterNote
    }
}

/// How long one subdivided tick lasts, in nanoseconds. One beat of the meter
/// lasts `60 / (tempo * beat_unit * note_length / 16)` seconds, and a tick is
/// one `subdivision`-th of a beat, which works out to
/// `960e9 / (note_length_sixteenths * tempo * beat_unit * subdivision)`.
pub open spec fn duration_nanos(
    tempo: int,
    tempo_type: TempoType,
    time_signature: TimeSignature,
    subdivision: int,
) -> int {
    960_000_000_000int / (note_length_sixteenths(tempo_type) * tempo * time_signature.1
        * subdivision)
}

/// Computes the duration of one subdivided tick; it is always at least one
/// nanosecond, so a tick never takes no time at all.
pub fn duration_per_subdivided_beat_nanos(
    tempo: u16,
    tempo_type: TempoType,
    time_signature: TimeSignature,
    subdivision: u8,
) -> (r: u64)
    requires
        TEMPO_MIN <= tempo <= TEMPO_MAX,
        time_signature.wf(),
        subdivision >= 1,
    ensures
        r == duration_nanos(tempo as int, tempo_type, time_signature, subdivision as int),
        r >= 1,
{
    let note_length = tempo_type.to_note_length() as u64;
    proof {
        assert(1 <= (note_length as int) * (tempo as int) && (note_length as int) * (tempo
            as int) <= 24 * 400 && 1 <= (note_length as int) * (tempo as int) * (
        time_signature.1 as int) && (note_length as int) * (tempo as int) * (time_signature.1
            as int) <= 24 * 400 * 255 && 1 <= (note_length as int) * (tempo as int) * (
        time_signature.1 as int) * (subdivision as int) && (note_length as int) * (tempo
            as int) * (time_signature.1 as int) * (subdivision as int) <= 24 * 400 * 255 * 255)
            by (nonlinear_arith)
            requires
                1 <= note_length <= 24,
                1 <= tempo <= 400,
                1 <= time_signature.1 <= 255,
                1 <= subdivision <= 255,
        ;
    }
    let denominator = note_length * (tempo as u64) * (time_signature.1 as u64) * (subdivision
        as u64);
    let r = 960_000_000_000u64 / denominator;
    proof {
        vstd::arithmetic::div_mod::lemma_div_non_zero(960_000_000_000, denominator as int);
    }
    r
}

/// For every valid tempo, tempo type, meter and subdivision, the duration of
/// one subdivided tick is strictly positive: at least one nanosecond.
pub proof fn lemma_duration_positive(
    tempo: int,
    tempo_type: TempoType,
    time_signature: TimeSignature,
    subdivision: int,
)
    requires
        TEMPO_MIN <= tempo <= TEMPO_MAX,
        time_signature.wf(),
        1 <= subdivision <= 255,
    ensures
        duration_nanos(tempo, tempo_type, time_signature, subdivision) >= 1,
{
    let d = note_length_sixteenths(tempo_type) * tempo * time_signature.1 * subdivision;
    assert(1 <= d <= 24 * 400 * 255 * 255) by (nonlinear_arith)
        requires
            d == note_length_sixteenths(tempo_type) * tempo * time_signature.1 * subdivision,
            1 <= note_length_sixteenths(tempo_type) <= 24,
            10 <= tempo <= 400,
            1 <= time_signature.1 <= 255,
            1 <= subdivision <= 255,
    ;
    vstd::arithmetic::div_mod::lemma_div_non_zero(960_000_000_000, d);
}

/// Holding the tempo type, time signature and subdivision fixed, a faster
/// tempo always gives a strictly shorter tick: the duration decreases
/// monotonically over the whole valid tempo range.
pub proof fn lemma_duration_strictly_decreasing(
    t1: int,
    t2: int,
    tempo_type: TempoType,
    time_signature: TimeSignature,
    subdivision: int,
)
    requires
        TEMPO_MIN <= t1 < t2 <= TEMPO_MAX,
        time_signature.wf(),
        1 <= subdivision <= 255,
    ensures
        duration_nanos(t2, tempo_type, time_signature, subdivision) < duration_nanos(
            t1,
            tempo_type,
            time_signature,
            subdivision,
        ),
{
    let n: int = 960_000_000_000;
    let c = note_length_sixteenths(tempo_type) * time_signature.1 * subdivision;
    let a = note_length_sixteenths(tempo_type) * t1 * time_signature.1 * subdivision;
    let b = note_length_sixteenths(tempo_type) * t2 * time_signature.1 * subdivision;
    assert(a == c * t1 && b == c * t2 && 1 <= c <= 24 * 255 * 255) by (nonlinear_arith)
        requires
            c == note_length_sixteenths(tempo_type) * time_signature.1 * subdivision,
            a == note_length_sixteenths(tempo_type) * t1 * time_signature.1 * subdivision,
            b == note_length_sixteenths(tempo_type) * t2 * time_signature.1 * subdivision,
            1 <= note_length_sixteenths(tempo_type) <= 24,
            1 <= time_signature.1 <= 255,
            1 <= subdivision <= 255,
    ;
    assert(c * t1 < c * t2 && c * t2 <= (24 * 255 * 255) * 400 && c * 1 <= c * t1)
        by (nonlinear_arith)
        requires
            1 <= c <= 24 * 255 * 255,
            10 <= t1 < t2 <= 400,
    ;
    let qa = n / a;
    let qb = n / b;
    vstd::arithmetic::div_mod::lemma_fundamental_div_mod(n, a);
    vstd::arithmetic::div_mod::lemma_fundamental_div_mod(n, b);
    vstd::arithmetic::div_mod::lemma_div_is_ordered_by_denominator(
        n,
        b,
        (24 * 255 * 255 * 400) as int,
    );
    let d: int = (24 * 255 * 255 * 400) as int;
    vstd::arithmetic::div_mod::lemma_fundamental_div_mod(n, d);
    assert(n / d >= 400) by (nonlinear_arith)
        requires
            n == 960_000_000_000,
            d == 24 * 255 * 255 * 400,
            n == (n / d) * d + (n % d),
            0 <= (n % d) < d,
    ;
    assert(qa > qb) by (nonlinear_arith)
        requires
            n == qa * a + (n % a),
            0 <= (n % a) < a,
            n == qb * b + (n % b),
            0 <= (n % b) < b,
            a == c * t1,
            b == c * t2,
            1 <= c,
            1 <= t1 < t2,
            t1 <= 400,
            qb >= 400,
    ;
}

} // verus!
