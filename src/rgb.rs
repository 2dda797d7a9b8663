//! The pulse generator: per-channel on and off times for one sweep.

use vstd::prelude::*;

use crate::settings::Settings;
use crate::LEVELS;

verus! {

/// Length of one tick, in microseconds, at the given refresh rate: a sweep
/// is `3 * LEVELS` ticks.
pub open spec fn tick_of(frame_rate: int) -> int {
    1_000_000int / (3 * frame_rate * LEVELS as int)
}

/// Active time of a channel at `level`, in microseconds.
pub open spec fn on_time(level: int, tick: int) -> int {
    level * tick
}

/// Idle time after a channel at `level`, in microseconds.
pub open spec fn off_time(level: int, tick: int) -> int {
    (LEVELS as int - level) * tick
}

/// Time that one sweep over the three channels takes, in microseconds.
pub open spec fn sweep_time(levels: [u32; 3], tick: int) -> int {
    on_time(levels[0] as int, tick) + off_time(levels[0] as int, tick)
        + on_time(levels[1] as int, tick) + off_time(levels[1] as int, tick)
        + on_time(levels[2] as int, tick) + off_time(levels[2] as int, tick)
}

/// What one channel's slice of a sweep does: drive the channel for
/// `on_micros`, then idle for `off_micros`. A phase of no length is `None`
/// and is skipped.
#[derive(Clone, Copy, Debug, PartialEq, Eq)]
pub struct Pulse {
    pub on_micros: Option<u64>,
    pub off_micros: Option<u64>,
}

/// The pulse of a channel at `level` with ticks of `tick` microseconds.
pub open spec fn pulse_of(level: int, tick: int) -> Pulse {
    Pulse {
        on_micros: if level == 0 {
            None
        } else {
            Some(on_time(level, tick) as u64)
        },
        off_micros: if level == LEVELS as int {
            None
        } else {
            Some(off_time(level, tick) as u64)
        },
    }
}

/// The pulse generator for three output channels `P`. It keeps its own copy
/// of the levels and of the tick length, taken at the start of each sweep.
pub struct Rgb<P> {
    pub rgb: [P; 3],
    levels: [u32; 3],
    tick_time: u64,
}

impl<P> Rgb<P> {
    /// The output pins, one per channel.
    pub closed spec fn pins(&self) -> [P; 3] {
        self.rgb
    }

    /// Levels in use for the current sweep.
    pub closed spec fn levels(&self) -> [u32; 3] {
        self.levels
    }

    /// Tick length in use for the current sweep, in microseconds.
    pub closed spec fn tick(&self) -> int {
        self.tick_time as int
    }

    pub open spec fn wf(&self) -> bool {
        &&& forall|i: int| 0 <= i < 3 ==> self.levels()[i] <= LEVELS
        &&& self.tick() <= 1_000_000
    }

    /// Tick length for a refresh rate of `frame_rate` sweeps per second.
    pub fn frame_tick_time(frame_rate: u64) -> (r: u64)
        requires
            0 < frame_rate,
            3 * frame_rate * LEVELS as int <= u64::MAX,
        ensures
            r == tick_of(frame_rate as int),
            r <= 1_000_000,
    {
        let d: u64 = 3 * frame_rate * LEVELS as u64;
        assert(1_000_000int / (d as int) <= 1_000_000) by (nonlinear_arith)
            requires d > 0;
        1_000_000 / d
    }

    /// A generator on the pins `rgb`, all channels at level zero, with the
    /// tick length of `initial_frame_rate`.
    pub fn new(rgb: [P; 3], initial_frame_rate: u64) -> (r: Self)
        requires
            0 < initial_frame_rate,
            3 * initial_frame_rate * LEVELS as int <= u64::MAX,
        ensures
            r.wf(),
            r.pins() == rgb,
            forall|i: int| 0 <= i < 3 ==> r.levels()[i] == 0,
            r.tick() == tick_of(initial_frame_rate as int),
    {
        let tick_time = Self::frame_tick_time(initial_frame_rate);
        Self { rgb, levels: [0; 3], tick_time }
    }

    /// Takes the levels and the refresh rate of `settings` for the next sweep.
    pub fn refresh(&mut self, settings: &Settings)
        requires
            settings.wf(),
        ensures
            final(self).wf(),
            final(self).pins() == old(self).pins(),
            final(self).levels() == settings.levels,
            final(self).tick() == tick_of(settings.frame_rate as int),
    {
        self.levels = settings.levels;
        self.tick_time = Self::frame_tick_time(settings.frame_rate);
    }

    /// The pulse of channel `led` in the current sweep.
    pub fn step(&self, led: usize) -> (r: Pulse)
        requires
            self.wf(),
            led < 3,
        ensures
            r == pulse_of(self.levels()[led as int] as int, self.tick()),
    {
        let level = self.levels[led];
        assert(level as int * self.tick_time as int <= LEVELS as int * 1_000_000) by (nonlinear_arith)
            requires level <= LEVELS, self.tick_time <= 1_000_000;
        let on_micros = if level > 0 {
            Some(level as u64 * self.tick_time)
        } else {
            None
        };
        let rest = LEVELS - level;
        assert(rest as int * self.tick_time as int <= LEVELS as int * 1_000_000) by (nonlinear_arith)
            requires rest <= LEVELS, self.tick_time <= 1_000_000;
        let off_micros = if rest > 0 {
            Some(rest as u64 * self.tick_time)
        } else {
            None
        };
        Pulse { on_micros, off_micros }
    }
}

/// A sweep takes `3 * LEVELS` ticks whatever the levels, so at `frame_rate`
/// sweeps per second it falls short of a second's share by less than
/// `3 * LEVELS` microseconds; at every rate the controller can set (at most
/// `10 * LEVELS`) it falls short by less than one tick.
pub proof fn lemma_sweep_time(levels: [u32; 3], frame_rate: int)
    requires
        0 < frame_rate,
    ensures
        sweep_time(levels, tick_of(frame_rate)) == 3 * LEVELS as int * tick_of(frame_rate),
        sweep_time(levels, tick_of(frame_rate)) * frame_rate <= 1_000_000,
        1_000_000 < (sweep_time(levels, tick_of(frame_rate)) + 3 * LEVELS as int) * frame_rate,
        frame_rate <= 10 * LEVELS as int ==> 1_000_000 < (sweep_time(levels, tick_of(frame_rate))
            + tick_of(frame_rate)) * frame_rate,
{
    let lv = LEVELS as int;
    let t = tick_of(frame_rate);
    let d = 3 * frame_rate * lv;
    assert(d == 48 * frame_rate);
    assert(sweep_time(levels, t) == 3 * lv * t) by (nonlinear_arith)
        requires
            sweep_time(levels, t) == levels[0] * t + (lv - levels[0]) * t
                + levels[1] * t + (lv - levels[1]) * t
                + levels[2] * t + (lv - levels[2]) * t;
    vstd::arithmetic::div_mod::lemma_fundamental_div_mod(1_000_000, d);
    let rem = 1_000_000int % d;
    assert(0 <= rem < d) by {
        vstd::arithmetic::div_mod::lemma_mod_bound(1_000_000, d);
    }
    assert(1_000_000 == d * t + rem);
    assert(48 * t * frame_rate == d * t) by (nonlinear_arith)
        requires d == 48 * frame_rate;
    assert((48 * t + 48) * frame_rate == d * t + d) by (nonlinear_arith)
        requires d == 48 * frame_rate;
    if frame_rate <= 10 * lv {
        assert(t >= 130) by (nonlinear_arith)
            requires 1_000_000 == d * t + rem, 0 <= rem < d, d == 48 * frame_rate,
                0 < frame_rate <= 160;
        assert((48 * t + t) * frame_rate == d * t + t * frame_rate) by (nonlinear_arith)
            requires d == 48 * frame_rate;
        assert(t * frame_rate > rem) by (nonlinear_arith)
            requires rem < d, t >= 130, frame_rate > 0, d == 48 * frame_rate;
    }
}

/// A channel at level zero is never driven and idles for the whole of its
/// slice; a channel at the top level is driven for all but one tick of it and
/// then idles for that one tick.
pub proof fn lemma_pulse_extremes(tick: int)
    requires
        0 <= tick <= 1_000_000,
    ensures
        pulse_of(0, tick).on_micros is None,
        pulse_of(0, tick).off_micros == Some((LEVELS as int * tick) as u64),
        pulse_of(LEVELS as int - 1, tick).on_micros == Some(((LEVELS as int - 1) * tick) as u64),
        pulse_of(LEVELS as int - 1, tick).off_micros == Some(tick as u64),
{
}

} // verus!
