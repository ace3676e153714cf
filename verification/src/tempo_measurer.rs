//! The tap-tempo estimator: a sequence of tap instants and the tempo their
//! spacing implies.
use vstd::prelude::*;

use crate::text::{chars_eq, chars_of};
use crate::user_input::UserInput;

verus! {

broadcast use vstd::string::group_string_axioms;

/// How many taps tap mode needs before it changes the tempo.
pub const TAPS_NEEDED: usize = 4;

/// Tap instants in nanoseconds, oldest first, never decreasing.
pub open spec fn taps_wf(s: Seq<u64>) -> bool {
    forall|i: int, j: int| 0 <= i <= j < s.len() ==> s[i] <= s[j]
}

/// The tempo a span of taps implies: the mean interval between consecutive
/// taps is the span over the count of intervals, and the tempo is sixty
/// seconds over that mean, rounded down. Taps with no spread at all read as
/// the fastest tempo a beats-per-minute counter can hold.
pub open spec fn tap_tempo(total_nanos: int, intervals: int) -> int {
    if total_nanos == 0 {
        65535
    } else {
        let t = 60_000_000_000 * intervals / total_nanos;
        if t > 65535 {
            65535
        } else {
            t
        }
    }
}

/// Collects tap instants and turns them into a tempo.
#[derive(Debug, Clone)]
pub struct TempoMeasurer {
    pub timestamps: Vec<u64>,
}

impl TempoMeasurer {
    /// An estimator with no taps yet.
    pub fn new() -> (r: Self)
        ensures
            r.timestamps@.len() == 0,
    {
        TempoMeasurer { timestamps: Vec::new() }
    }

    /// Records a tap at `now_nanos`; the clock never runs backwards, so the
    /// new tap comes no earlier than the last.
    pub fn tap(&mut self, now_nanos: u64)
        requires
            old(self).timestamps@.len() > 0 ==> old(self).timestamps@.last() <= now_nanos,
            taps_wf(old(self).timestamps@),
        ensures
            final(self).timestamps@ == old(self).timestamps@.push(now_nanos),
            taps_wf(final(self).timestamps@),
    {
        self.timestamps.push(now_nanos);
        proof {
            let s = self.timestamps@;
            assert forall|i: int, j: int| 0 <= i <= j < s.len() implies s[i] <= s[j] by {
                if j < s.len() - 1 {
                    assert(old(self).timestamps@[i] <= old(self).timestamps@[j]);
                } else if i < j {
                    assert(old(self).timestamps@[i] <= old(self).timestamps@[s.len() - 2]);
                }
            }
        }
    }

    /// The tempo the collected taps imply, from the mean interval between
    /// consecutive taps.
    pub fn calculate_tempo(&self) -> (r: u16)
        requires
            self.timestamps@.len() >= 2,
            taps_wf(self.timestamps@),
        ensures
            r == tap_tempo(
                self.timestamps@.last() - self.timestamps@[0],
                self.timestamps@.len() - 1,
            ),
    {
        let n = self.timestamps.len();
        let first = self.timestamps[0];
        let last = self.timestamps[n - 1];
        proof {
            assert(first <= last);
        }
        let total = last - first;
        if total == 0 {
            return 65535;
        }
        let intervals = (n - 1) as u128;
        let t = 60_000_000_000u128 * intervals / (total as u128);
        proof {
            assert(60_000_000_000u128 * (intervals as u128) == 60_000_000_000 * ((n - 1)
                as int)) by (nonlinear_arith)
                requires
                    intervals == n - 1,
                    0 <= intervals <= u128::MAX / 60_000_000_000,
            ;
        }
        if t > 65535 {
            65535
        } else {
            t as u16
        }
    }

    /// How many taps have been collected.
    pub fn num_tapped(&self) -> (r: usize)
        ensures
            r == self.timestamps@.len(),
    {
        self.timestamps.len()
    }

    /// Forgets all collected taps.
    pub fn clear(&mut self)
        ensures
            final(self).timestamps@.len() == 0,
    {
        self.timestamps.clear();
    }
}

/// What one line of input does while tap mode is active: `quit` or `q` ends
/// tap mode and resumes the beat; anything else is a tap, which asks for the
/// implied tempo once enough taps have gathered and otherwise leaves the
/// screen to be cleared.
pub fn tap_mode_input(measurer: &mut TempoMeasurer, line: &str, now_nanos: u64) -> (r: UserInput)
    requires
        taps_wf(old(measurer).timestamps@),
        old(measurer).timestamps@.len() > 0 ==> old(measurer).timestamps@.last() <= now_nanos,
    ensures
        taps_wf(final(measurer).timestamps@),
        line@ == "quit"@ || line@ == "q"@ ==> final(measurer).timestamps@.len() == 0 && r
            == UserInput::Resume,
        line@ != "quit"@ && line@ != "q"@ ==> {
            let taps = old(measurer).timestamps@.push(now_nanos);
            &&& final(measurer).timestamps@ == taps
            &&& (taps.len() >= TAPS_NEEDED ==> r == UserInput::SetTempoDirect(
                tap_tempo(taps.last() - taps[0], taps.len() - 1) as u16,
            ))
            &&& (taps.len() < TAPS_NEEDED ==> r == UserInput::Clear)
        },
{
    let v = chars_of(line);
    let is_quit = chars_eq(v.as_slice(), chars_of("quit").as_slice()) || chars_eq(
        v.as_slice(),
        chars_of("q").as_slice(),
    );
    if is_quit {
        measurer.clear();
        return UserInput::Resume;
    }
    measurer.tap(now_nanos);
    if measurer.num_tapped() >= TAPS_NEEDED {
        UserInput::SetTempoDirect(measurer.calculate_tempo())
    } else {
        UserInput::Clear
    }
}

} // verus!
