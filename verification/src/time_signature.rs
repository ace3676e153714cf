//! The time signature: beats per measure over the note value of one beat.
use vstd::prelude::*;

use crate::text::{
    chars_of, digits_value, find_char, find_first, is_digits, lemma_find_first,
    lemma_find_first_at, parse_u64_chars, push_decimal, string_of_chars, subrange_chars,
};

verus! {

/// The time signature: the first number is how many beats a measure holds, the
/// second what note value each beat is equivalent to.
#[derive(Debug, Clone, Copy, PartialEq, Eq, Structural)]
pub struct TimeSignature(pub u8, pub u8);

/// The beat units a time signature accepts: the powers of two that fit a byte.
pub open spec fn is_power_of_two_val(n: int) -> bool {
    n == 1 || n == 2 || n == 4 || n == 8 || n == 16 || n == 32 || n == 64 || n == 128
}

/// A reason a time signature text is rejected.
#[derive(Debug, Clone, Copy, PartialEq, Eq, Structural)]
pub enum TimeSignatureError {
    /// Not exactly two fields around a single `/`.
    Format,
    /// The beats-per-measure field is not a number in `1..=255`.
    Numerator,
    /// The beat-unit field is not a number, or not a power of two.
    Denominator,
}

impl TimeSignature {
    /// A well-formed signature: at least one beat per measure, and a beat unit
    /// that is a power of two.
    pub open spec fn wf(self) -> bool {
        self.0 >= 1 && is_power_of_two_val(self.1 as int)
    }

    /// Whether the beat unit is eighth notes (a compound meter such as 6/8).
    pub open spec fn spec_is_eighths(self) -> bool {
        self.1 == 8
    }
}

impl Default for TimeSignature {
    /// Common time, 4/4.
    fn default() -> (r: Self)
        ensures
            r == (TimeSignature(4u8, 4u8)),
    {
        TimeSignature(4, 4)
    }
}

/// The position of the `/` in a time signature text, provided it occurs
/// exactly once.
pub open spec fn unique_slash(s: Seq<char>) -> Option<int> {
    match find_first(s, '/') {
        None => None,
        Some(i) => if find_first(s.skip(i + 1), '/') is Some {
            None
        } else {
            Some(i)
        },
    }
}

/// A time signature text is accepted exactly when it is two `/`-separated
/// decimal fields, each a number up to 255, the first nonzero and the second a
/// power of two.
pub open spec fn time_sig_ok(s: Seq<char>) -> bool {
    match unique_slash(s) {
        None => false,
        Some(i) => {
            let num = s.take(i);
            let den = s.skip(i + 1);
            &&& is_digits(num)
            &&& digits_value(num) <= 255
            &&& digits_value(num) >= 1
            &&& is_digits(den)
            &&& digits_value(den) <= 255
            &&& is_power_of_two_val(digits_value(den))
        },
    }
}

/// The signature an accepted text names.
pub open spec fn parsed_time_sig(s: Seq<char>) -> TimeSignature {
    match unique_slash(s) {
        Some(i) => TimeSignature(
            digits_value(s.take(i)) as u8,
            digits_value(s.skip(i + 1)) as u8,
        ),
        None => TimeSignature(0, 0),
    }
}

/// Which rejection a refused time signature text earns.
pub open spec fn time_sig_err(s: Seq<char>) -> TimeSignatureError {
    match unique_slash(s) {
        None => TimeSignatureError::Format,
        Some(i) => {
            let num = s.take(i);
            let den = s.skip(i + 1);
            if !(is_digits(num) && digits_value(num) <= 255) {
                TimeSignatureError::Numerator
            } else if !(is_digits(den) && digits_value(den) <= 255) {
                TimeSignatureError::Denominator
            } else if digits_value(num) == 0 {
                TimeSignatureError::Numerator
            } else {
                TimeSignatureError::Denominator
            }
        },
    }
}

impl TimeSignature {
    /// Parses a text such as `4/4` or `6/8`, accepting exactly the texts that
    /// `time_sig_ok` describes and reporting why the rest are refused.
    pub fn from_str(s: &str) -> (r: Result<TimeSignature, TimeSignatureError>)
        ensures
            r matches Ok(ts) ==> time_sig_ok(s@) && ts.wf() && ts == parsed_time_sig(s@) && (
            unique_slash(s@) matches Some(i) && ts.0 == digits_value(s@.take(i)) && ts.1
                == digits_value(s@.skip(i + 1))),
            r matches Err(e) ==> !time_sig_ok(s@) && e == time_sig_err(s@),
    {
        let v = chars_of(s);
        let slash = match find_char(v.as_slice(), '/', 0) {
            None => {
                proof {
                    lemma_find_first(v@, '/');
                    match find_first(v@, '/') {
                        Some(i) => {
                            assert(v@[i] != '/');
                        },
                        None => {},
                    }
                }
                return Err(TimeSignatureError::Format);
            },
            Some(i) => i,
        };
        proof {
            lemma_find_first_at(v@, '/', slash as int);
        }
        if find_char(v.as_slice(), '/', slash + 1).is_some() {
            proof {
                let rest = v@.skip(slash + 1);
                lemma_find_first(rest, '/');
                let j = choose|j: int|
                    slash + 1 <= j < v@.len() && v@[j] == '/' && (forall|k: int|
                        slash + 1 <= k < j ==> v@[k] != '/');
                if find_first(rest, '/') is None {
                    assert(rest[j - (slash + 1)] == v@[j]);
                }
            }
            return Err(TimeSignatureError::Format);
        }
        proof {
            let rest = v@.skip(slash + 1);
            lemma_find_first(rest, '/');
            match find_first(rest, '/') {
                Some(i) => {
                    assert(rest[i] == v@[slash + 1 + i]);
                },
                None => {},
            }
            assert(unique_slash(v@) == Some(slash as int));
        }
        let num_chars = subrange_chars(v.as_slice(), 0, slash);
        let den_chars = subrange_chars(v.as_slice(), slash + 1, v.len());
        proof {
            assert(num_chars@ =~= v@.take(slash as int));
            assert(den_chars@ =~= v@.skip(slash + 1));
        }
        let numerator: u8 = match parse_u64_chars(num_chars.as_slice()) {
            Some(n) if n <= 255 => n as u8,
            _ => {
                return Err(TimeSignatureError::Numerator);
            },
        };
        let denominator: u8 = match parse_u64_chars(den_chars.as_slice()) {
            Some(n) if n <= 255 => n as u8,
            _ => {
                return Err(TimeSignatureError::Denominator);
            },
        };
        if numerator == 0 {
            return Err(TimeSignatureError::Numerator);
        }
        let is_pow2 = denominator == 1 || denominator == 2 || denominator == 4 || denominator
            == 8 || denominator == 16 || denominator == 32 || denominator == 64 || denominator
            == 128;
        if !is_pow2 {
            return Err(TimeSignatureError::Denominator);
        }
        Ok(TimeSignature(numerator, denominator))
    }

    /// Renders the signature as `beats/unit`, the inverse of `from_str` on
    /// well-formed values.
    pub fn to_text(&self) -> (r: String)
        ensures
            r@ == crate::text::dec_digits(self.0 as int) + seq!['/'] + crate::text::dec_digits(
                self.1 as int,
            ),
    {
        let mut out: Vec<char> = Vec::new();
        push_decimal(&mut out, self.0 as u64);
        out.push('/');
        push_decimal(&mut out, self.1 as u64);
        proof {
            assert(out@ =~= crate::text::dec_digits(self.0 as int) + seq!['/']
                + crate::text::dec_digits(self.1 as int));
        }
        string_of_chars(out.as_slice())
    }
}

impl TimeSignatureError {
    /// The message shown to the user for this rejection.
    pub fn message(&self) -> (r: String)
        ensures
            self is Format ==> r@ == "Invalid time signature! Example time signature: 4/4 or 6/8"@,
            self is Numerator ==> r@ == "Numerator on the time signature cannot be 0!"@,
            self is Denominator ==> r@
                == "Denominator on the time signature must be a power of 2 and cannot be 0!"@,
    {
        match self {
            TimeSignatureError::Format => "Invalid time signature! Example time signature: 4/4 or 6/8".to_owned(),
            TimeSignatureError::Numerator => "Numerator on the time signature cannot be 0!".to_owned(),
            TimeSignatureError::Denominator => "Denominator on the time signature must be a power of 2 and cannot be 0!".to_owned(),
        }
    }
}

} // verus!
