//! The countdown timer: an independent wall-clock countdown set from a
//! `M:S` or `H:M:S` text.
use vstd::prelude::*;

use crate::text::{
    chars_of, dec_digits, digits_value, find_char, find_first, is_digits, lemma_find_first,
    lemma_find_first_at, parse_u64_chars, push_decimal, push_two_digits, string_of_chars,
    subrange_chars, two_digits,
};

verus! {

broadcast use vstd::string::group_string_axioms, crate::text::lemma_digits_value_nonneg;

/// A countdown: the instant it was created and how long it runs.
#[derive(Debug, Clone, Copy, PartialEq, Eq, Structural)]
pub struct Timer {
    pub created_timestamp_nanos: u64,
    pub duration_secs: u64,
}

/// A reason a timer text is rejected.
#[derive(Debug, Clone, Copy, PartialEq, Eq, Structural)]
pub enum TimerError {
    /// Not two or three `:`-separated numeric fields with seconds and
    /// minutes below sixty, or a total too large to count.
    InvalidFormat,
    /// The fields are well-formed but name no time at all.
    ZeroDuration,
}

/// The fields of a timer text: hours (absent in the two-field form), minutes
/// and seconds, split on `:`. `None` when there are not two or three fields.
pub open spec fn timer_split(s: Seq<char>) -> Option<(Option<Seq<char>>, Seq<char>, Seq<char>)> {
    match find_first(s, ':') {
        None => None,
        Some(i) => {
            let rest = s.skip(i + 1);
            match find_first(rest, ':') {
                None => Some((None, s.take(i), rest)),
                Some(j) => {
                    let rest2 = rest.skip(j + 1);
                    if find_first(rest2, ':') is Some {
                        None
                    } else {
                        Some((Some(s.take(i)), rest.take(j), rest2))
                    }
                },
            }
        },
    }
}

/// A minutes or seconds field: digits naming a value below sixty.
pub open spec fn timer_field_59(f: Seq<char>) -> bool {
    is_digits(f) && digits_value(f) <= 59
}

/// The total duration the fields name, in seconds.
pub open spec fn timer_total_secs(h: Option<Seq<char>>, m: Seq<char>, s: Seq<char>) -> int {
    (match h {
        None => 0,
        Some(f) => digits_value(f),
    }) * 3600 + digits_value(m) * 60 + digits_value(s)
}

/// A timer text is accepted exactly when it has two or three `:`-separated
/// fields, all digits, seconds and minutes below sixty, and names a positive
/// duration that a second counter can hold.
pub open spec fn timer_text_ok(s: Seq<char>) -> bool {
    match timer_split(s) {
        None => false,
        Some((h, m, sec)) => {
            &&& (h matches Some(f) ==> is_digits(f))
            &&& timer_field_59(m)
            &&& timer_field_59(sec)
            &&& timer_total_secs(h, m, sec) <= u64::MAX
            &&& timer_total_secs(h, m, sec) >= 1
        },
    }
}

/// Which rejection a refused timer text earns: naming no time at all is the
/// one complaint reserved for otherwise well-formed fields.
pub open spec fn timer_text_err(s: Seq<char>) -> TimerError {
    match timer_split(s) {
        None => TimerError::InvalidFormat,
        Some((h, m, sec)) => {
            if (h matches Some(f) ==> is_digits(f)) && timer_field_59(m) && timer_field_59(sec)
                && timer_total_secs(h, m, sec) <= u64::MAX {
                TimerError::ZeroDuration
            } else {
                TimerError::InvalidFormat
            }
        },
    }
}

/// Seconds left on the timer at `now`: the duration less the elapsed time
/// rounded up to whole seconds, floored at zero.
pub open spec fn remaining_secs(t: Timer, now_nanos: int) -> int {
    let elapsed = now_nanos - t.created_timestamp_nanos;
    let elapsed_secs = if elapsed % 1_000_000_000 == 0 {
        elapsed / 1_000_000_000
    } else {
        elapsed / 1_000_000_000 + 1
    };
    if elapsed_secs >= t.duration_secs {
        0
    } else {
        t.duration_secs - elapsed_secs
    }
}

/// A number padded to at least two digits, as the timer display shows them.
pub open spec fn padded2(n: int) -> Seq<char> {
    if n < 100 {
        two_digits(n)
    } else {
        dec_digits(n)
    }
}

/// The rendered remaining time: an hours field only when there is one, then
/// total minutes and seconds, and a reminder of the stop command once the
/// countdown has run out.
pub open spec fn rendered_duration(secs: int) -> Seq<char> {
    let hours_part = if secs / 3600 > 0 {
        padded2(secs / 3600) + seq![':']
    } else {
        Seq::<char>::empty()
    };
    let tail = if secs == 0 {
        " (Type `timer stop` to stop the alarm!)"@
    } else {
        Seq::<char>::empty()
    };
    hours_part + padded2(secs / 60) + seq![':'] + padded2(secs % 60) + tail
}

impl Timer {
    /// Parses a duration text such as `1:30` or `2:00:00` and starts the
    /// countdown at `now_nanos`. Accepts exactly the texts `timer_text_ok`
    /// describes and reports why the rest are refused.
    pub fn from_duration_spec(s: &str, now_nanos: u64) -> (r: Result<Timer, TimerError>)
        ensures
            r matches Ok(t) <==> timer_text_ok(s@),
            r matches Ok(t) ==> t.created_timestamp_nanos == now_nanos && (timer_split(s@)
                matches Some(f) && t.duration_secs == timer_total_secs(f.0, f.1, f.2)),
            r matches Err(e) ==> e == timer_text_err(s@),
    {
        let v = chars_of(s);
        let n = v.len();
        let first = match find_char(v.as_slice(), ':', 0) {
            None => {
                proof {
                    lemma_find_first(v@, ':');
                    match find_first(v@, ':') {
                        Some(i) => {
                            assert(v@[i] != ':');
                        },
                        None => {},
                    }
                }
                return Err(TimerError::InvalidFormat);
            },
            Some(i) => i,
        };
        proof {
            lemma_find_first_at(v@, ':', first as int);
        }
        let ghost rest = v@.skip(first + 1);
        let (hours_field, minutes_field, seconds_field): (Option<Vec<char>>, Vec<char>, Vec<
            char,
        >) = match find_char(v.as_slice(), ':', first + 1) {
            None => {
                proof {
                    lemma_find_first(rest, ':');
                    match find_first(rest, ':') {
                        Some(i) => {
                            assert(rest[i] == v@[first + 1 + i]);
                        },
                        None => {},
                    }
                }
                let m = subrange_chars(v.as_slice(), 0, first);
                let sec = subrange_chars(v.as_slice(), first + 1, n);
                proof {
                    assert(m@ =~= v@.take(first as int));
                    assert(sec@ =~= rest);
                }
                (None, m, sec)
            },
            Some(j) => {
                proof {
                    assert(rest[j - (first + 1)] == v@[j as int]);
                    assert forall|k: int| 0 <= k < j - (first + 1) implies rest[k] != ':' by {
                        assert(rest[k] == v@[first + 1 + k]);
                    }
                    lemma_find_first_at(rest, ':', j - (first + 1));
                }
                let ghost rest2 = rest.skip(j - first);
                if let Some(k) = find_char(v.as_slice(), ':', j + 1) {
                    proof {
                        lemma_find_first(rest2, ':');
                        assert(rest2[k - (j + 1)] == v@[k as int]);
                        match find_first(rest2, ':') {
                            Some(i) => {},
                            None => {
                                assert(rest2[k - (j + 1)] != ':');
                            },
                        }
                    }
                    return Err(TimerError::InvalidFormat);
                }
                proof {
                    lemma_find_first(rest2, ':');
                    match find_first(rest2, ':') {
                        Some(i) => {
                            assert(rest2[i] == v@[j + 1 + i]);
                        },
                        None => {},
                    }
                }
                let h = subrange_chars(v.as_slice(), 0, first);
                let m = subrange_chars(v.as_slice(), first + 1, j);
                let sec = subrange_chars(v.as_slice(), j + 1, n);
                proof {
                    assert(h@ =~= v@.take(first as int));
                    assert(m@ =~= rest.take(j - (first + 1)));
                    assert(sec@ =~= rest2);
                }
                (Some(h), m, sec)
            },
        };
        let hours: u64 = match &hours_field {
            None => 0,
            Some(f) => match parse_u64_chars(f.as_slice()) {
                Some(n) => n,
                None => {
                    return Err(TimerError::InvalidFormat);
                },
            },
        };
        let minutes: u64 = match parse_u64_chars(minutes_field.as_slice()) {
            Some(n) if n <= 59 => n,
            _ => {
                return Err(TimerError::InvalidFormat);
            },
        };
        let seconds: u64 = match parse_u64_chars(seconds_field.as_slice()) {
            Some(n) if n <= 59 => n,
            _ => {
                return Err(TimerError::InvalidFormat);
            },
        };
        let tail = minutes * 60 + seconds;
        let bound = (u64::MAX - tail) / 3600;
        if hours > bound {
            proof {
                vstd::arithmetic::div_mod::lemma_fundamental_div_mod((u64::MAX - tail) as int, 3600);
                assert(hours * 3600 + tail > u64::MAX) by (nonlinear_arith)
                    requires
                        hours > bound,
                        ((u64::MAX - tail) as int) == 3600 * (bound as int) + ((u64::MAX
                            - tail) as int % 3600),
                        0 <= ((u64::MAX - tail) as int % 3600) < 3600,
                ;
            }
            return Err(TimerError::InvalidFormat);
        }
        proof {
            vstd::arithmetic::div_mod::lemma_fundamental_div_mod((u64::MAX - tail) as int, 3600);
            assert(hours * 3600 + tail <= u64::MAX) by (nonlinear_arith)
                requires
                    hours <= bound,
                    ((u64::MAX - tail) as int) == 3600 * (bound as int) + ((u64::MAX - tail)
                        as int % 3600),
                    0 <= ((u64::MAX - tail) as int % 3600) < 3600,
            ;
        }
        let total = hours * 3600 + tail;
        if total == 0 {
            return Err(TimerError::ZeroDuration);
        }
        Ok(Timer { created_timestamp_nanos: now_nanos, duration_secs: total })
    }

    /// Seconds left at `now_nanos`; zero once the countdown has run out.
    pub fn time_remaining(&self, now_nanos: u64) -> (r: u64)
        requires
            now_nanos >= self.created_timestamp_nanos,
        ensures
            r == remaining_secs(*self, now_nanos as int),
    {
        let elapsed = now_nanos - self.created_timestamp_nanos;
        let mut elapsed_secs = elapsed / 1_000_000_000;
        if elapsed % 1_000_000_000 != 0 {
            elapsed_secs = elapsed_secs + 1;
        }
        if elapsed_secs >= self.duration_secs {
            0
        } else {
            self.duration_secs - elapsed_secs
        }
    }

    /// The remaining time as the display shows it.
    pub fn time_remaining_str(&self, now_nanos: u64) -> (r: String)
        requires
            now_nanos >= self.created_timestamp_nanos,
        ensures
            r@ == rendered_duration(remaining_secs(*self, now_nanos as int)),
    {
        let secs = self.time_remaining(now_nanos);
        duration_to_string(secs)
    }
}

/// Renders a second count for the timer display.
fn duration_to_string(secs: u64) -> (r: String)
    ensures
        r@ == rendered_duration(secs as int),
{
    let mut out: Vec<char> = Vec::new();
    let hours = secs / 3600;
    if hours > 0 {
        push_padded2(&mut out, hours);
        out.push(':');
    }
    push_padded2(&mut out, secs / 60);
    out.push(':');
    push_padded2(&mut out, secs % 60);
    if secs == 0 {
        proof {
            reveal_strlit(" (Type `timer stop` to stop the alarm!)");
        }
        let mut tail = chars_of(" (Type `timer stop` to stop the alarm!)");
        out.append(&mut tail);
    }
    proof {
        assert(out@ =~= rendered_duration(secs as int));
    }
    string_of_chars(out.as_slice())
}

/// Appends a number padded to at least two digits.
fn push_padded2(out: &mut Vec<char>, n: u64)
    ensures
        final(out)@ == old(out)@ + padded2(n as int),
{
    if n < 100 {
        push_two_digits(out, n);
    } else {
        push_decimal(out, n);
    }
}

} // verus!
