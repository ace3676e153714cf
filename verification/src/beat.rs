//! The position inside a measure, its advance rule, and the scheduler that
//! decides when the next subdivided tick is due.
use vstd::prelude::*;

use crate::data::MetronomeData;

verus! {

/// Steps a counter forward by one, wrapping at `modulo_by`.
pub fn modulo_increment(num: &mut u8, modulo_by: u8)
    requires
        *old(num) < modulo_by,
    ensures
        *final(num) == (*old(num) + 1) % (modulo_by as int),
{
    if *num == modulo_by - 1 {
        *num = 0;
        proof {
            vstd::arithmetic::div_mod::lemma_mod_self_0(modulo_by as int);
        }
    } else {
        *num = *num + 1;
        proof {
            vstd::arithmetic::div_mod::lemma_small_mod(*num as nat, modulo_by as nat);
        }
    }
}

/// Where the metronome stands inside the measure: which beat, and which
/// subdivided tick of that beat.
#[derive(Debug, Clone, Copy, Default, PartialEq, Eq, Structural)]
pub struct BeatInfo {
    pub current_beat: u8,
    pub subdivided_beat: u8,
}

/// A position that fits the measure: `num_beats` beats, each cut into
/// `num_subdivided_beats` ticks.
pub open spec fn beat_in_range(b: BeatInfo, num_beats: int, num_subdivided_beats: int) -> bool {
    b.current_beat < num_beats && b.subdivided_beat < num_subdivided_beats
}

/// One advance step: the subdivided tick moves first, and the beat moves only
/// when the subdivided tick wraps back to zero.
pub open spec fn beat_advanced(b: BeatInfo, num_beats: int, num_subdivided_beats: int) -> BeatInfo {
    if b.subdivided_beat + 1 == num_subdivided_beats {
        BeatInfo {
            current_beat: if b.current_beat + 1 == num_beats {
                0
            } else {
                (b.current_beat + 1) as u8
            },
            subdivided_beat: 0,
        }
    } else {
        BeatInfo { current_beat: b.current_beat, subdivided_beat: (b.subdivided_beat + 1) as u8 }
    }
}

/// The advance step applied `n` times.
pub open spec fn beat_advanced_n(
    b: BeatInfo,
    num_beats: int,
    num_subdivided_beats: int,
    n: nat,
) -> BeatInfo
    decreases n,
{
    if n == 0 {
        b
    } else {
        beat_advanced(
            beat_advanced_n(b, num_beats, num_subdivided_beats, (n - 1) as nat),
            num_beats,
            num_subdivided_beats,
        )
    }
}

/// A position's rank inside the measure, counting ticks from the downbeat.
pub open spec fn beat_index(b: BeatInfo, num_subdivided_beats: int) -> int {
    b.current_beat * num_subdivided_beats + b.subdivided_beat
}

proof fn lemma_beat_advanced_index(b: BeatInfo, nb: int, ns: int)
    requires
        1 <= nb <= 255,
        1 <= ns <= 255,
        beat_in_range(b, nb, ns),
    ensures
        beat_in_range(beat_advanced(b, nb, ns), nb, ns),
        beat_index(beat_advanced(b, nb, ns), ns) == (beat_index(b, ns) + 1) % (nb * ns),
{
    let m = nb * ns;
    let i = beat_index(b, ns);
    assert(0 <= i && i < m && i == b.current_beat * ns + b.subdivided_beat) by (nonlinear_arith)
        requires
            i == b.current_beat * ns + b.subdivided_beat,
            m == nb * ns,
            0 <= b.current_beat < nb,
            0 <= b.subdivided_beat < ns,
    ;
    let b2 = beat_advanced(b, nb, ns);
    if b.subdivided_beat + 1 == ns {
        if b.current_beat + 1 == nb {
            assert(i + 1 == m) by (nonlinear_arith)
                requires
                    i == b.current_beat * ns + b.subdivided_beat,
                    m == nb * ns,
                    b.subdivided_beat + 1 == ns,
                    b.current_beat + 1 == nb,
            ;
            vstd::arithmetic::div_mod::lemma_mod_self_0(m);
            assert(beat_index(b2, ns) == 0);
        } else {
            assert(beat_index(b2, ns) == i + 1 && i + 1 < m) by (nonlinear_arith)
                requires
                    i == b.current_beat * ns + b.subdivided_beat,
                    m == nb * ns,
                    b.subdivided_beat + 1 == ns,
                    b.current_beat + 1 < nb,
                    beat_index(b2, ns) == (b.current_beat + 1) * ns,
            ;
            vstd::arithmetic::div_mod::lemma_small_mod((i + 1) as nat, m as nat);
        }
    } else {
        assert(i + 1 < m) by (nonlinear_arith)
            requires
                i == b.current_beat * ns + b.subdivided_beat,
                m == nb * ns,
                0 <= b.current_beat < nb,
                b.subdivided_beat + 1 < ns,
        ;
        vstd::arithmetic::div_mod::lemma_small_mod((i + 1) as nat, m as nat);
    }
}

proof fn lemma_beat_advanced_n_index(b: BeatInfo, nb: int, ns: int, n: nat)
    requires
        1 <= nb <= 255,
        1 <= ns <= 255,
        beat_in_range(b, nb, ns),
    ensures
        beat_in_range(beat_advanced_n(b, nb, ns, n), nb, ns),
        beat_index(beat_advanced_n(b, nb, ns, n), ns) == (beat_index(b, ns) + n) % (nb * ns),
    decreases n,
{
    let m = nb * ns;
    assert(1 <= m) by (nonlinear_arith)
        requires
            1 <= nb && 1 <= ns && m == nb * ns,
    ;
    if n == 0 {
        assert(0 <= beat_index(b, ns) < m) by (nonlinear_arith)
            requires
                m == nb * ns,
                0 <= b.current_beat < nb,
                0 <= b.subdivided_beat < ns,
                beat_index(b, ns) == b.current_beat * ns + b.subdivided_beat,
        ;
        vstd::arithmetic::div_mod::lemma_small_mod(beat_index(b, ns) as nat, m as nat);
    } else {
        lemma_beat_advanced_n_index(b, nb, ns, (n - 1) as nat);
        let prev = beat_advanced_n(b, nb, ns, (n - 1) as nat);
        lemma_beat_advanced_index(prev, nb, ns);
        vstd::arithmetic::div_mod::lemma_add_mod_noop(beat_index(b, ns) + n - 1, 1, m);
        vstd::arithmetic::div_mod::lemma_mod_twice(beat_index(b, ns) + n - 1, m);
        if m > 1 {
            vstd::arithmetic::div_mod::lemma_small_mod(1nat, m as nat);
        } else {
            vstd::arithmetic::div_mod::lemma_mod_self_0(m);
        }
    }
}

/// Two positions of the same measure with the same rank are the same position.
proof fn lemma_beat_index_injective(x: BeatInfo, y: BeatInfo, nb: int, ns: int)
    requires
        1 <= nb <= 255,
        1 <= ns <= 255,
        beat_in_range(x, nb, ns),
        beat_in_range(y, nb, ns),
        beat_index(x, ns) == beat_index(y, ns),
    ensures
        x == y,
{
    assert(x.current_beat == y.current_beat && x.subdivided_beat == y.subdivided_beat)
        by (nonlinear_arith)
        requires
            x.current_beat * ns + x.subdivided_beat == y.current_beat * ns + y.subdivided_beat,
            0 <= x.current_beat < nb,
            0 <= y.current_beat < nb,
            0 <= x.subdivided_beat < ns,
            0 <= y.subdivided_beat < ns,
    ;
}

/// Advancing a position once for every subdivided tick of the measure —
/// `num_beats * num_subdivided_beats` times — brings it back to where it
/// started, so the cycle of a measure is exactly one measure long.
pub proof fn lemma_beat_cycle(b: BeatInfo, num_beats: int, num_subdivided_beats: int)
    requires
        1 <= num_beats <= 255,
        1 <= num_subdivided_beats <= 255,
        beat_in_range(b, num_beats, num_subdivided_beats),
    ensures
        beat_advanced_n(
            b,
            num_beats,
            num_subdivided_beats,
            (num_beats * num_subdivided_beats) as nat,
        ) == b,
{
    let nb = num_beats;
    let ns = num_subdivided_beats;
    let m = nb * ns;
    assert(1 <= m) by (nonlinear_arith)
        requires
            1 <= nb && 1 <= ns && m == nb * ns,
    ;
    lemma_beat_advanced_n_index(b, nb, ns, m as nat);
    let i = beat_index(b, ns);
    assert(0 <= i < m) by (nonlinear_arith)
        requires
            i == b.current_beat * ns + b.subdivided_beat,
            m == nb * ns,
            0 <= b.current_beat < nb,
            0 <= b.subdivided_beat < ns,
    ;
    vstd::arithmetic::div_mod::lemma_add_mod_noop(i, m, m);
    vstd::arithmetic::div_mod::lemma_mod_self_0(m);
    vstd::arithmetic::div_mod::lemma_small_mod(i as nat, m as nat);
    lemma_beat_index_injective(beat_advanced_n(b, nb, ns, m as nat), b, nb, ns);
}

impl BeatInfo {
    /// Moves to the next subdivided tick, wrapping within the measure.
    pub fn next_subdivided_beat(&mut self, num_beats: u8, num_subdivided_beats: u8)
        requires
            beat_in_range(*old(self), num_beats as int, num_subdivided_beats as int),
        ensures
            *final(self) == beat_advanced(
                *old(self),
                num_beats as int,
                num_subdivided_beats as int,
            ),
    {
        proof {
            if old(self).subdivided_beat + 1 == num_subdivided_beats {
                vstd::arithmetic::div_mod::lemma_mod_self_0(num_subdivided_beats as int);
                if old(self).current_beat + 1 == num_beats {
                    vstd::arithmetic::div_mod::lemma_mod_self_0(num_beats as int);
                } else {
                    vstd::arithmetic::div_mod::lemma_small_mod(
                        (old(self).current_beat + 1) as nat,
                        num_beats as nat,
                    );
                }
            } else {
                vstd::arithmetic::div_mod::lemma_small_mod(
                    (old(self).subdivided_beat + 1) as nat,
                    num_subdivided_beats as nat,
                );
            }
        }
        modulo_increment(&mut self.subdivided_beat, num_subdivided_beats);
        if self.subdivided_beat == 0 {
            modulo_increment(&mut self.current_beat, num_beats);
        }
    }

    /// Back to the downbeat of the first beat.
    pub fn reset(&mut self)
        ensures
            *final(self) == (BeatInfo { current_beat: 0, subdivided_beat: 0 }),
    {
        *self = BeatInfo { current_beat: 0, subdivided_beat: 0 };
    }
}

/// Decides when the next subdivided tick is due, relative to a wall clock
/// read by the caller and handed in as nanosecond counters.
///
/// Beyond the timestamp of the last tick, the tracker keeps a force-immediate
/// mark: while it stands, the next poll fires at once, however little time has
/// passed. A fresh tracker carries the mark, and pausing sets it again, so the
/// first tick — and the first tick after a resume — comes with no wait.
#[derive(Debug, Clone, Copy, PartialEq, Eq, Structural)]
pub struct MetronomeBeatTracker {
    pub last_beat_timestamp_nanos: u64,
    pub fire_immediately: bool,
}

/// Whether a poll at `now_nanos` fires a tick.
pub open spec fn should_fire(t: MetronomeBeatTracker, now_nanos: int, duration_nanos: int) -> bool {
    t.fire_immediately || now_nanos - t.last_beat_timestamp_nanos >= duration_nanos
}

impl MetronomeBeatTracker {
    /// A fresh tracker, due immediately.
    pub fn new() -> (r: Self)
        ensures
            r.fire_immediately,
    {
        MetronomeBeatTracker { last_beat_timestamp_nanos: 0, fire_immediately: true }
    }

    /// Marks the tracker so that the next poll fires at once; called on pause
    /// so that resuming never waits out a partial interval.
    pub fn offset_beat_timestamp(&mut self)
        ensures
            *final(self) == (MetronomeBeatTracker {
                fire_immediately: true,
                ..*old(self)
            }),
    {
        self.fire_immediately = true;
    }

    /// Whether a tick is due at `now_nanos`, given the current duration of
    /// one subdivided tick.
    pub fn should_play_beat(&self, now_nanos: u64, duration_per_subdivided_beat_nanos: u64) -> (r:
        bool)
        requires
            now_nanos >= self.last_beat_timestamp_nanos,
        ensures
            r == should_fire(*self, now_nanos as int, duration_per_subdivided_beat_nanos as int),
    {
        self.fire_immediately || now_nanos - self.last_beat_timestamp_nanos
            >= duration_per_subdivided_beat_nanos
    }

    /// Fires a tick: advances the shared position by one subdivided beat and
    /// remembers `now_nanos` as the moment of this tick.
    pub fn move_to_next_subdivided_beat(&mut self, data: &mut MetronomeData, now_nanos: u64)
        requires
            old(data).wf(),
        ensures
            final(data).beat_info == beat_advanced(
                old(data).beat_info,
                old(data).time_signature.0 as int,
                old(data).subdivision as int,
            ),
            *final(data) == (MetronomeData { beat_info: final(data).beat_info, ..*old(data) }),
            final(data).wf(),
            *final(self) == (MetronomeBeatTracker {
                last_beat_timestamp_nanos: now_nanos,
                fire_immediately: false,
            }),
    {
        let num_beats = data.time_signature().0;
        let num_subdivided_beats = data.subdivision();
        data.beat_info.next_subdivided_beat(num_beats, num_subdivided_beats);
        self.last_beat_timestamp_nanos = now_nanos;
        self.fire_immediately = false;
    }

    /// Whether the shared position stands on a downbeat (the first subdivided
    /// tick of a beat).
    pub fn is_downbeat(&self, data: &MetronomeData) -> (r: bool)
        ensures
            r == (data.beat_info.subdivided_beat == 0),
    {
        data.beat_info.subdivided_beat == 0
    }
}

/// Once the scheduler carries the force-immediate mark — as it does right
/// after a pause — a poll fires whatever the clock says and however long the
/// configured tick is: resuming never inherits a wait from before the pause.
pub proof fn lemma_marked_scheduler_fires(
    t: MetronomeBeatTracker,
    now_nanos: int,
    duration_nanos: int,
)
    requires
        t.fire_immediately,
    ensures
        should_fire(t, now_nanos, duration_nanos),
{
}

} // verus!
