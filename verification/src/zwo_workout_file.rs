//! The workout tree: an ordered sequence of steps, each of which is a lazy
//! iterator over `(duration, power level)` setpoints.
//!
//! Power levels are fractions of the FTP base carried in hundredths (a level
//! of `0.75` is stored as `75`); durations are whole seconds.  Ramping steps
//! (`Warmup`, `Ramp`, `Cooldown`) emit one setpoint per second with the
//! level interpolated linearly between their bounds; the end level itself is
//! never emitted (the quantisation step is `(high - low) / duration`).

use std::collections::VecDeque;
use vstd::prelude::*;
use vstd::arithmetic::div_mod::{
    lemma_div_is_ordered, lemma_div_multiples_vanish, lemma_div_pos_is_pos,
};
use vstd::arithmetic::mul::{lemma_mul_inequality, lemma_mul_nonnegative};

verus! {

/// How much power should be set for how long.  `duration` is in seconds,
/// `power_level` in hundredths of the FTP base.
#[derive(Debug, Clone, Copy, PartialEq, Eq, Structural)]
pub struct PowerDuration {
    pub duration: u64,
    pub power_level: u32,
}

/// The power level emitted `i` seconds into a ramp from `low` towards
/// `high` that lasts `dur` seconds: linear interpolation, rounded towards
/// the starting level.  The same formula serves ramps in both directions.
pub open spec fn ramp_level(low: int, high: int, dur: int, i: int) -> int {
    if low <= high {
        low + (i * (high - low)) / dur
    } else {
        low - (i * (low - high)) / dur
    }
}

/// The setpoints still to come from a ramp of `dur` seconds between `low`
/// and `high` of which `e` have already been emitted: one setpoint per
/// second, linearly interpolated.
pub open spec fn ramp_emissions_from(low: int, high: int, dur: int, e: int) -> Seq<PowerDuration>
    decreases dur - e,
{
    if !(0 <= e < dur) {
        Seq::empty()
    } else {
        seq![
            PowerDuration { duration: 1u64, power_level: ramp_level(low, high, dur, e) as u32 },
        ] + ramp_emissions_from(low, high, dur, e + 1)
    }
}

/// The setpoints still to come from an intervals step: alternating work and
/// rest halves, `repeat` pairs in all, with `ci` halves already begun.  An
/// even `ci` means the work half comes next.
pub open spec fn intervals_emissions_from(
    repeat: int,
    ci: int,
    on_d: int,
    off_d: int,
    on_p: int,
    off_p: int,
) -> Seq<PowerDuration>
    decreases repeat, (if ci % 2 == 0 { 1int } else { 0int }),
{
    if repeat <= 0 {
        Seq::empty()
    } else if ci % 2 == 0 {
        seq![PowerDuration { duration: on_d as u64, power_level: on_p as u32 }]
            + intervals_emissions_from(repeat, ci + 1, on_d, off_d, on_p, off_p)
    } else {
        seq![PowerDuration { duration: off_d as u64, power_level: off_p as u32 }]
            + intervals_emissions_from(repeat - 1, ci + 1, on_d, off_d, on_p, off_p)
    }
}

/// Linear ramp from `power_low` up to `power_high`, one setpoint per second.
#[derive(Debug, Clone, Copy, PartialEq, Eq, Structural)]
pub struct Warmup {
    pub duration: u64,
    pub power_low: u32,
    pub power_high: u32,
    /// How many one-second setpoints have been emitted so far.
    pub emitted: u64,
}

/// Identical semantics to `Warmup`; kept as a separate variant for
/// presentation.
#[derive(Debug, Clone, Copy, PartialEq, Eq, Structural)]
pub struct Ramp {
    pub duration: u64,
    pub power_low: u32,
    pub power_high: u32,
    /// How many one-second setpoints have been emitted so far.
    pub emitted: u64,
}

/// Reversed ramp: `power_low` is the starting, higher value.
#[derive(Debug, Clone, Copy, PartialEq, Eq, Structural)]
pub struct Cooldown {
    pub duration: u64,
    pub power_low: u32,
    pub power_high: u32,
    /// How many one-second setpoints have been emitted so far.
    pub emitted: u64,
}

/// One setpoint valid for the whole duration.
#[derive(Debug, Clone, Copy, PartialEq, Eq, Structural)]
pub struct SteadyState {
    pub duration: u64,
    pub power: u32,
}

/// `repeat` pairs of (work, rest) halves; `current_interval` counts the
/// halves begun so far, so an even value means a work half comes next.
#[derive(Debug, Clone, Copy, PartialEq, Eq, Structural)]
pub struct IntervalsT {
    pub repeat: u64,
    pub on_duration: u64,
    pub off_duration: u64,
    pub on_power: u32,
    pub off_power: u32,
    pub current_interval: u64,
}

/// One setpoint of power level 0 (ERG off) for the whole duration.
#[derive(Debug, Clone, Copy, PartialEq, Eq, Structural)]
pub struct FreeRide {
    pub duration: u64,
    pub flat_road: u32,
}

#[derive(Debug, Clone, Copy, PartialEq, Eq, Structural)]
pub enum WorkoutSteps {
    Warmup(Warmup),
    Ramp(Ramp),
    SteadyState(SteadyState),
    Cooldown(Cooldown),
    IntervalsT(IntervalsT),
    FreeRide(FreeRide),
}

/// The sequence of setpoints a step will emit from its current state on.
pub open spec fn step_emissions(s: WorkoutSteps) -> Seq<PowerDuration> {
    match s {
        WorkoutSteps::Warmup(w) => ramp_emissions_from(
            w.power_low as int,
            w.power_high as int,
            w.duration as int,
            w.emitted as int,
        ),
        WorkoutSteps::Ramp(w) => ramp_emissions_from(
            w.power_low as int,
            w.power_high as int,
            w.duration as int,
            w.emitted as int,
        ),
        WorkoutSteps::Cooldown(w) => ramp_emissions_from(
            w.power_low as int,
            w.power_high as int,
            w.duration as int,
            w.emitted as int,
        ),
        WorkoutSteps::SteadyState(st) => if st.duration == 0 {
            Seq::empty()
        } else {
            seq![PowerDuration { duration: st.duration, power_level: st.power }]
        },
        WorkoutSteps::FreeRide(f) => if f.duration == 0 {
            Seq::empty()
        } else {
            seq![PowerDuration { duration: f.duration, power_level: 0u32 }]
        },
        WorkoutSteps::IntervalsT(iv) => intervals_emissions_from(
            iv.repeat as int,
            iv.current_interval as int,
            iv.on_duration as int,
            iv.off_duration as int,
            iv.on_power as int,
            iv.off_power as int,
        ),
    }
}

/// Capacity guard for an intervals step.  The quantity
/// `current_interval / 2 + repeat` never changes while the step advances,
/// so bounding it keeps the half-interval counter from ever wrapping.
pub open spec fn step_wf(s: WorkoutSteps) -> bool {
    match s {
        WorkoutSteps::IntervalsT(iv) => iv.current_interval / 2 + iv.repeat <= u64::MAX / 2,
        _ => true,
    }
}

/// A step on which `advance` has not yet been called.
pub open spec fn step_fresh(s: WorkoutSteps) -> bool {
    match s {
        WorkoutSteps::Warmup(w) => w.emitted == 0,
        WorkoutSteps::Ramp(w) => w.emitted == 0,
        WorkoutSteps::Cooldown(w) => w.emitted == 0,
        WorkoutSteps::IntervalsT(iv) => iv.current_interval % 2 == 0,
        _ => true,
    }
}

/// The planned duration of a step as the state tracker accounts it:
/// the time left in ramping and steady steps, and the full
/// `repeat * (on + off)` for an intervals step.
pub open spec fn spec_step_duration(s: WorkoutSteps) -> int {
    match s {
        WorkoutSteps::Warmup(w) => if w.emitted <= w.duration {
            w.duration - w.emitted
        } else {
            0
        },
        WorkoutSteps::Ramp(w) => if w.emitted <= w.duration {
            w.duration - w.emitted
        } else {
            0
        },
        WorkoutSteps::Cooldown(w) => if w.emitted <= w.duration {
            w.duration - w.emitted
        } else {
            0
        },
        WorkoutSteps::SteadyState(st) => st.duration as int,
        WorkoutSteps::FreeRide(f) => f.duration as int,
        WorkoutSteps::IntervalsT(iv) => iv.repeat * (iv.on_duration + iv.off_duration),
    }
}

/// The seconds of setpoints a step will still emit.  It differs from
/// `spec_step_duration` only for an intervals step caught between the work
/// and rest half of a pair.
pub open spec fn spec_step_remaining(s: WorkoutSteps) -> int {
    match s {
        WorkoutSteps::IntervalsT(iv) => if iv.repeat == 0 {
            0
        } else {
            iv.repeat * (iv.on_duration + iv.off_duration)
                - (iv.current_interval % 2) * iv.on_duration
        },
        _ => spec_step_duration(s),
    }
}

/// How many setpoints a step will still emit.
pub open spec fn spec_step_item_count(s: WorkoutSteps) -> int {
    match s {
        WorkoutSteps::Warmup(w) => if w.emitted <= w.duration {
            w.duration - w.emitted
        } else {
            0
        },
        WorkoutSteps::Ramp(w) => if w.emitted <= w.duration {
            w.duration - w.emitted
        } else {
            0
        },
        WorkoutSteps::Cooldown(w) => if w.emitted <= w.duration {
            w.duration - w.emitted
        } else {
            0
        },
        WorkoutSteps::SteadyState(st) => if st.duration == 0 {
            0
        } else {
            1
        },
        WorkoutSteps::FreeRide(f) => if f.duration == 0 {
            0
        } else {
            1
        },
        WorkoutSteps::IntervalsT(iv) => if iv.repeat == 0 {
            0
        } else {
            2 * iv.repeat - iv.current_interval % 2
        },
    }
}

/// Sum of the durations of a sequence of setpoints.
pub open spec fn sum_durations(s: Seq<PowerDuration>) -> int
    decreases s.len(),
{
    if s.len() == 0 {
        0
    } else {
        s[0].duration + sum_durations(s.drop_first())
    }
}

/// Shared advance of the three ramping step kinds, operating on their
/// fields: emit the level `emitted` seconds into the ramp, then move on.
fn ramp_advance(duration: u64, power_low: u32, power_high: u32, emitted: &mut u64) -> (r: Option<
    PowerDuration,
>)
    ensures
        ({
            let em = ramp_emissions_from(
                power_low as int,
                power_high as int,
                duration as int,
                *old(emitted) as int,
            );
            if em.len() > 0 {
                &&& r == Some(em[0])
                &&& *final(emitted) == *old(emitted) + 1
            } else {
                &&& r is None
                &&& *final(emitted) == *old(emitted)
            }
        }),
{
    if *emitted >= duration {
        return None;
    }
    let e = *emitted;
    proof {
        lemma_ramp_head(power_low as int, power_high as int, duration as int, e as int);
    }
    let lvl: u32 = if power_low <= power_high {
        let diff = (power_high - power_low) as u64;
        proof {
            lemma_ramp_quotient_bound(e as int, diff as int, duration as int);
            lemma_u64_product_fits(e as int, diff as int);
        }
        let q = ((e as u128) * (diff as u128)) / (duration as u128);
        power_low + (q as u32)
    } else {
        let diff = (power_low - power_high) as u64;
        proof {
            lemma_ramp_quotient_bound(e as int, diff as int, duration as int);
            lemma_u64_product_fits(e as int, diff as int);
        }
        let q = ((e as u128) * (diff as u128)) / (duration as u128);
        power_low - (q as u32)
    };
    *emitted = e + 1;
    Some(PowerDuration { duration: 1, power_level: lvl })
}

/// The interpolation quotient never exceeds the ramp's span.
proof fn lemma_ramp_quotient_bound(e: int, diff: int, dur: int)
    requires
        0 <= e < dur,
        0 <= diff,
    ensures
        0 <= (e * diff) / dur <= diff,
{
    lemma_mul_nonnegative(e, diff);
    lemma_div_pos_is_pos(e * diff, dur);
    lemma_mul_inequality(e, dur, diff);
    lemma_div_is_ordered(e * diff, dur * diff, dur);
    lemma_div_multiples_vanish(diff, dur);
}

/// The product of two values that fit in `u64` fits in `u128`.
proof fn lemma_u64_product_fits(a: int, b: int)
    requires
        0 <= a <= 0xffff_ffff_ffff_ffff,
        0 <= b <= 0xffff_ffff_ffff_ffff,
    ensures
        0 <= a * b <= 0xffff_ffff_ffff_ffff * 0xffff_ffff_ffff_ffff,
{
    lemma_mul_nonnegative(a, b);
    lemma_mul_inequality(a, 0xffff_ffff_ffff_ffff, b);
    lemma_mul_inequality(b, 0xffff_ffff_ffff_ffff, 0xffff_ffff_ffff_ffff);
}

/// Head and tail of a non-empty ramp emission sequence.
proof fn lemma_ramp_head(low: int, high: int, dur: int, e: int)
    requires
        0 <= e < dur,
    ensures
        ramp_emissions_from(low, high, dur, e).len() > 0,
        ramp_emissions_from(low, high, dur, e)[0] == (PowerDuration {
            duration: 1u64,
            power_level: ramp_level(low, high, dur, e) as u32,
        }),
        ramp_emissions_from(low, high, dur, e).drop_first() == ramp_emissions_from(
            low,
            high,
            dur,
            e + 1,
        ),
{
    assert(ramp_emissions_from(low, high, dur, e).drop_first() =~= ramp_emissions_from(
        low,
        high,
        dur,
        e + 1,
    ));
}

impl Warmup {
    /// The setpoints this step will still emit.
    pub open spec fn emissions(self) -> Seq<PowerDuration> {
        step_emissions(WorkoutSteps::Warmup(self))
    }

    /// Get power level lasting for one second from span `[low, high)`.
    pub fn advance(&mut self) -> (r: Option<PowerDuration>)
        ensures
            step_advance_ensures(
                WorkoutSteps::Warmup(*old(self)),
                WorkoutSteps::Warmup(*final(self)),
                r,
            ),
    {
        let r = ramp_advance(self.duration, self.power_low, self.power_high, &mut self.emitted);
        proof {
            if 0 <= old(self).emitted < old(self).duration {
                lemma_ramp_head(
                    self.power_low as int,
                    self.power_high as int,
                    self.duration as int,
                    old(self).emitted as int,
                );
            }
        }
        r
    }
}

impl Ramp {
    /// The setpoints this step will still emit.
    pub open spec fn emissions(self) -> Seq<PowerDuration> {
        step_emissions(WorkoutSteps::Ramp(self))
    }

    /// Get power level lasting for one second from span `[low, high)`.
    pub fn advance(&mut self) -> (r: Option<PowerDuration>)
        ensures
            step_advance_ensures(WorkoutSteps::Ramp(*old(self)), WorkoutSteps::Ramp(*final(self)), r),
    {
        let r = ramp_advance(self.duration, self.power_low, self.power_high, &mut self.emitted);
        proof {
            if 0 <= old(self).emitted < old(self).duration {
                lemma_ramp_head(
                    self.power_low as int,
                    self.power_high as int,
                    self.duration as int,
                    old(self).emitted as int,
                );
            }
        }
        r
    }
}

impl Cooldown {
    /// The setpoints this step will still emit.
    pub open spec fn emissions(self) -> Seq<PowerDuration> {
        step_emissions(WorkoutSteps::Cooldown(self))
    }

    /// Get power level lasting for one second from span `[high, low)`:
    /// `power_low` holds the higher, starting value.
    pub fn advance(&mut self) -> (r: Option<PowerDuration>)
        ensures
            step_advance_ensures(
                WorkoutSteps::Cooldown(*old(self)),
                WorkoutSteps::Cooldown(*final(self)),
                r,
            ),
    {
        let r = ramp_advance(self.duration, self.power_low, self.power_high, &mut self.emitted);
        proof {
            if 0 <= old(self).emitted < old(self).duration {
                lemma_ramp_head(
                    self.power_low as int,
                    self.power_high as int,
                    self.duration as int,
                    old(self).emitted as int,
                );
            }
        }
        r
    }
}

impl SteadyState {
    /// The setpoints this step will still emit.
    pub open spec fn emissions(self) -> Seq<PowerDuration> {
        step_emissions(WorkoutSteps::SteadyState(self))
    }

    pub fn advance(&mut self) -> (r: Option<PowerDuration>)
        ensures
            step_advance_ensures(
                WorkoutSteps::SteadyState(*old(self)),
                WorkoutSteps::SteadyState(*final(self)),
                r,
            ),
    {
        if self.duration == 0 {
            return None;
        }
        let duration = self.duration;
        self.duration = 0;
        proof {
            assert(old(self).emissions().drop_first() =~= self.emissions());
        }
        Some(PowerDuration { duration, power_level: self.power })
    }
}

impl FreeRide {
    /// The setpoints this step will still emit.
    pub open spec fn emissions(self) -> Seq<PowerDuration> {
        step_emissions(WorkoutSteps::FreeRide(self))
    }

    pub fn advance(&mut self) -> (r: Option<PowerDuration>)
        ensures
            step_advance_ensures(
                WorkoutSteps::FreeRide(*old(self)),
                WorkoutSteps::FreeRide(*final(self)),
                r,
            ),
    {
        if self.duration == 0 {
            return None;
        }
        let duration = self.duration;
        self.duration = 0;
        proof {
            assert(old(self).emissions().drop_first() =~= self.emissions());
        }
        // ERG mode off for a free ride: command zero power.
        Some(PowerDuration { duration, power_level: 0 })
    }
}

impl IntervalsT {
    /// The setpoints this step will still emit.
    pub open spec fn emissions(self) -> Seq<PowerDuration> {
        step_emissions(WorkoutSteps::IntervalsT(self))
    }

    /// Capacity guard: see `step_wf`.
    pub open spec fn wf(self) -> bool {
        step_wf(WorkoutSteps::IntervalsT(self))
    }

    /// Whether the half-interval that `advance` emits next is a work half.
    pub fn is_work_interval(&self) -> (r: bool)
        ensures
            r == (self.current_interval % 2 == 0),
    {
        self.current_interval % 2 == 0
    }

    pub fn advance(&mut self) -> (r: Option<PowerDuration>)
        requires
            old(self).wf(),
        ensures
            final(self).wf(),
            step_advance_ensures(
                WorkoutSteps::IntervalsT(*old(self)),
                WorkoutSteps::IntervalsT(*final(self)),
                r,
            ),
    {
        if self.repeat == 0 {
            return None;
        }
        let step = if self.is_work_interval() {
            Some(
                PowerDuration { duration: self.on_duration, power_level: self.on_power },
            )
        } else {
            self.repeat = self.repeat - 1;
            Some(
                PowerDuration { duration: self.off_duration, power_level: self.off_power },
            )
        };
        self.current_interval = self.current_interval + 1;
        proof {
            assert(old(self).emissions().drop_first() =~= self.emissions());
        }
        step
    }
}

/// The state a step is left in by `skip`: exhausted, except for an
/// intervals step, which is left as it stands.
pub open spec fn spec_step_skipped(s: WorkoutSteps) -> WorkoutSteps {
    match s {
        WorkoutSteps::Warmup(w) => WorkoutSteps::Warmup(Warmup { emitted: w.duration, ..w }),
        WorkoutSteps::Ramp(w) => WorkoutSteps::Ramp(Ramp { emitted: w.duration, ..w }),
        WorkoutSteps::Cooldown(w) => WorkoutSteps::Cooldown(Cooldown { emitted: w.duration, ..w }),
        WorkoutSteps::SteadyState(st) => WorkoutSteps::SteadyState(
            SteadyState { duration: 0u64, ..st },
        ),
        WorkoutSteps::FreeRide(f) => WorkoutSteps::FreeRide(FreeRide { duration: 0u64, ..f }),
        WorkoutSteps::IntervalsT(iv) => WorkoutSteps::IntervalsT(iv),
    }
}

/// What one call of `advance` does: when setpoints remain, the head is
/// returned and the step moves to the state that will emit the tail;
/// once exhausted, the step is left unchanged and `None` returned, forever.
pub open spec fn step_advance_ensures(
    pre: WorkoutSteps,
    post: WorkoutSteps,
    r: Option<PowerDuration>,
) -> bool {
    if step_emissions(pre).len() > 0 {
        &&& r == Some(step_emissions(pre)[0])
        &&& step_emissions(post) == step_emissions(pre).drop_first()
        &&& spec_step_advanced(pre, post)
    } else {
        &&& r is None
        &&& post == pre
    }
}

/// Field-level description of a successful `advance`.
pub open spec fn spec_step_advanced(pre: WorkoutSteps, post: WorkoutSteps) -> bool {
    match pre {
        WorkoutSteps::Warmup(w) => post == WorkoutSteps::Warmup(
            Warmup { emitted: (w.emitted + 1) as u64, ..w },
        ),
        WorkoutSteps::Ramp(w) => post == WorkoutSteps::Ramp(
            Ramp { emitted: (w.emitted + 1) as u64, ..w },
        ),
        WorkoutSteps::Cooldown(w) => post == WorkoutSteps::Cooldown(
            Cooldown { emitted: (w.emitted + 1) as u64, ..w },
        ),
        WorkoutSteps::SteadyState(st) => post == WorkoutSteps::SteadyState(
            SteadyState { duration: 0u64, ..st },
        ),
        WorkoutSteps::FreeRide(f) => post == WorkoutSteps::FreeRide(
            FreeRide { duration: 0u64, ..f },
        ),
        WorkoutSteps::IntervalsT(iv) => post == WorkoutSteps::IntervalsT(
            IntervalsT {
                repeat: if iv.current_interval % 2 == 0 {
                    iv.repeat
                } else {
                    (iv.repeat - 1) as u64
                },
                current_interval: (iv.current_interval + 1) as u64,
                ..iv
            },
        ),
    }
}

impl WorkoutSteps {
    /// Emit the next setpoint of the step, or `None` once it is exhausted.
    pub fn advance(&mut self) -> (r: Option<PowerDuration>)
        requires
            step_wf(*old(self)),
        ensures
            step_wf(*final(self)),
            step_advance_ensures(*old(self), *final(self), r),
    {
        match self {
            WorkoutSteps::Warmup(w) => w.advance(),
            WorkoutSteps::SteadyState(w) => w.advance(),
            WorkoutSteps::Cooldown(w) => w.advance(),
            WorkoutSteps::IntervalsT(w) => w.advance(),
            WorkoutSteps::Ramp(w) => w.advance(),
            WorkoutSteps::FreeRide(w) => w.advance(),
        }
    }

    /// Force the next call to `advance` to return `None`; for an intervals
    /// step only the current half-interval is skipped, which needs no state
    /// change.
    pub fn skip(&mut self)
        ensures
            *final(self) == spec_step_skipped(*old(self)),
            !(*old(self) is IntervalsT) ==> step_emissions(*final(self))
                == Seq::<PowerDuration>::empty(),
            step_wf(*old(self)) ==> step_wf(*final(self)),
    {
        match self {
            // Enforce next call to advance() will return None
            WorkoutSteps::Warmup(w) => w.emitted = w.duration,
            WorkoutSteps::SteadyState(w) => w.duration = 0,
            WorkoutSteps::Cooldown(w) => w.emitted = w.duration,
            WorkoutSteps::Ramp(w) => w.emitted = w.duration,
            WorkoutSteps::FreeRide(w) => w.duration = 0,
            // In case of intervals, skip just the current part of it
            WorkoutSteps::IntervalsT(_) => (),
        }
    }

    /// The planned duration of the step in seconds, as `spec_step_duration`
    /// accounts it.
    pub fn get_step_duration(&self) -> (d: u64)
        requires
            spec_step_duration(*self) <= u64::MAX,
        ensures
            d == spec_step_duration(*self),
    {
        match self {
            WorkoutSteps::Warmup(w) => if w.emitted <= w.duration {
                w.duration - w.emitted
            } else {
                0
            },
            WorkoutSteps::Ramp(w) => if w.emitted <= w.duration {
                w.duration - w.emitted
            } else {
                0
            },
            WorkoutSteps::SteadyState(w) => w.duration,
            WorkoutSteps::Cooldown(w) => if w.emitted <= w.duration {
                w.duration - w.emitted
            } else {
                0
            },
            WorkoutSteps::IntervalsT(w) => {
                if w.repeat == 0 {
                    0
                } else {
                    proof {
                        lemma_mul_inequality(
                            1,
                            w.repeat as int,
                            w.on_duration + w.off_duration,
                        );
                    }
                    let pair = w.on_duration + w.off_duration;
                    w.repeat * pair
                }
            },
            WorkoutSteps::FreeRide(w) => w.duration,
        }
    }
}

/// A step's planned duration, or `None` where it exceeds `u64`.
pub fn checked_step_duration(step: &WorkoutSteps) -> (d: Option<u64>)
    ensures
        match d {
            Some(v) => v == spec_step_duration(*step),
            None => spec_step_duration(*step) > u64::MAX,
        },
{
    match step {
        WorkoutSteps::IntervalsT(w) => {
            if w.repeat == 0 {
                Some(0)
            } else {
                let pair = (w.on_duration as u128) + (w.off_duration as u128);
                proof {
                    lemma_mul_inequality(1, w.repeat as int, pair as int);
                }
                if pair > u64::MAX as u128 {
                    None
                } else {
                    proof {
                        lemma_u64_product_fits(w.repeat as int, pair as int);
                    }
                    let total = (w.repeat as u128) * pair;
                    if total > u64::MAX as u128 {
                        None
                    } else {
                        Some(total as u64)
                    }
                }
            }
        },
        _ => Some(step.get_step_duration()),
    }
}

// XML schema definition: the parsed workout file, with the steps the
// engine consumes.
#[derive(Debug)]
pub struct WorkoutFile {
    pub author: String,
    pub name: String,
    pub description: String,
    pub sport_type: String,
    pub workout: Workout,
}

#[derive(Debug)]
pub struct Workout {
    pub steps: VecDeque<WorkoutSteps>,
}

/// Sum of the planned durations of a sequence of steps.
pub open spec fn spec_steps_duration(steps: Seq<WorkoutSteps>) -> int
    decreases steps.len(),
{
    if steps.len() == 0 {
        0
    } else {
        spec_step_duration(steps[0]) + spec_steps_duration(steps.drop_first())
    }
}

/// Every step contributes a non-negative planned duration.
pub proof fn lemma_steps_duration_nonneg(steps: Seq<WorkoutSteps>)
    ensures
        spec_steps_duration(steps) >= 0,
    decreases steps.len(),
{
    if steps.len() > 0 {
        lemma_step_duration_nonneg(steps[0]);
        lemma_steps_duration_nonneg(steps.drop_first());
    }
}

pub proof fn lemma_step_duration_nonneg(s: WorkoutSteps)
    ensures
        spec_step_duration(s) >= 0,
{
    match s {
        WorkoutSteps::IntervalsT(iv) => {
            lemma_mul_nonnegative(iv.repeat as int, iv.on_duration + iv.off_duration);
        },
        _ => (),
    }
}

/// Summing a prefix one step at a time.
pub proof fn lemma_steps_duration_push(steps: Seq<WorkoutSteps>, s: WorkoutSteps)
    ensures
        spec_steps_duration(steps.push(s)) == spec_steps_duration(steps) + spec_step_duration(s),
    decreases steps.len(),
{
    assert(steps.push(s).len() == steps.len() + 1);
    assert(spec_steps_duration(steps.push(s)) == spec_step_duration(steps.push(s)[0])
        + spec_steps_duration(steps.push(s).drop_first()));
    if steps.len() == 0 {
        assert(steps.push(s)[0] == s);
        assert(steps.push(s).drop_first() =~= Seq::<WorkoutSteps>::empty());
        assert(spec_steps_duration(Seq::<WorkoutSteps>::empty()) == 0);
    } else {
        assert(steps.push(s)[0] == steps[0]);
        assert(steps.push(s).drop_first() =~= steps.drop_first().push(s));
        lemma_steps_duration_push(steps.drop_first(), s);
        assert(spec_steps_duration(steps) == spec_step_duration(steps[0])
            + spec_steps_duration(steps.drop_first()));
    }
}

/// Total time the remaining workout will take, or `None` where the sum
/// exceeds `u64`.
pub fn remaining_workout_duration(workout: &Workout) -> (r: Option<u64>)
    ensures
        match r {
            Some(t) => t == spec_steps_duration(workout.steps@),
            None => spec_steps_duration(workout.steps@) > u64::MAX,
        },
{
    let n = workout.steps.len();
    let mut acc: u64 = 0;
    let mut i: usize = 0;
    while i < n
        invariant
            i <= n,
            n == workout.steps@.len(),
            acc == spec_steps_duration(workout.steps@.take(i as int)),
        decreases n - i,
    {
        let d = checked_step_duration(&workout.steps[i]);
        proof {
            lemma_steps_duration_push(workout.steps@.take(i as int), workout.steps@[i as int]);
            assert(workout.steps@.take(i as int).push(workout.steps@[i as int]) =~= workout.steps@
                .take(i as int + 1));
            lemma_steps_duration_suffix_bound(workout.steps@, i as int);
        }
        match d {
            Some(v) => {
                match acc.checked_add(v) {
                    Some(sum) => {
                        acc = sum;
                    },
                    None => {
                        return None;
                    },
                }
            },
            None => {
                return None;
            },
        }
        i = i + 1;
    }
    proof {
        assert(workout.steps@.take(n as int) =~= workout.steps@);
    }
    Some(acc)
}

/// The whole-sequence sum is at least any prefix sum plus the next step:
/// used to conclude that an overflow while summing means the total
/// overflows too.
pub proof fn lemma_steps_duration_suffix_bound(steps: Seq<WorkoutSteps>, i: int)
    requires
        0 <= i < steps.len(),
    ensures
        spec_steps_duration(steps) >= spec_steps_duration(steps.take(i)) + spec_step_duration(
            steps[i],
        ),
    decreases i,
{
    if i == 0 {
        assert(steps.take(0) =~= Seq::empty());
        lemma_step_duration_nonneg(steps[0]);
        lemma_steps_duration_nonneg(steps.drop_first());
        assert(spec_steps_duration(steps) == spec_step_duration(steps[0]) + spec_steps_duration(
            steps.drop_first(),
        ));
        lemma_steps_duration_first_bound(steps.drop_first(), steps[0]);
    } else {
        lemma_steps_duration_suffix_bound(steps.drop_first(), i - 1);
        assert(steps.drop_first().take(i - 1) =~= steps.take(i).drop_first());
        assert(spec_steps_duration(steps.take(i)) == spec_step_duration(steps[0])
            + spec_steps_duration(steps.take(i).drop_first()));
    }
}

/// Helper: a sequence's sum plus one leading step bounds the lead-step sum.
proof fn lemma_steps_duration_first_bound(rest: Seq<WorkoutSteps>, s: WorkoutSteps)
    ensures
        spec_step_duration(s) + spec_steps_duration(rest) >= spec_step_duration(s),
{
    lemma_steps_duration_nonneg(rest);
}


/// The setpoints an ordered sequence of steps will emit, in order.
pub open spec fn steps_emissions(steps: Seq<WorkoutSteps>) -> Seq<PowerDuration>
    decreases steps.len(),
{
    if steps.len() == 0 {
        Seq::empty()
    } else {
        step_emissions(steps[0]) + steps_emissions(steps.drop_first())
    }
}

/// Sum of `spec_step_remaining` over a sequence of steps.
pub open spec fn spec_steps_remaining(steps: Seq<WorkoutSteps>) -> int
    decreases steps.len(),
{
    if steps.len() == 0 {
        0
    } else {
        spec_step_remaining(steps[0]) + spec_steps_remaining(steps.drop_first())
    }
}

/// Sum of `spec_step_item_count` over a sequence of steps.
pub open spec fn spec_steps_item_count(steps: Seq<WorkoutSteps>) -> int
    decreases steps.len(),
{
    if steps.len() == 0 {
        0
    } else {
        spec_step_item_count(steps[0]) + spec_steps_item_count(steps.drop_first())
    }
}

/// Concatenation distributes over the duration sum.
pub proof fn lemma_sum_durations_concat(a: Seq<PowerDuration>, b: Seq<PowerDuration>)
    ensures
        sum_durations(a + b) == sum_durations(a) + sum_durations(b),
    decreases a.len(),
{
    if a.len() == 0 {
        assert(a + b =~= b);
    } else {
        assert((a + b)[0] == a[0]);
        assert((a + b).drop_first() =~= a.drop_first() + b);
        lemma_sum_durations_concat(a.drop_first(), b);
    }
}

/// Length and duration sum of a ramp's remaining emissions: one setpoint
/// of one second for every second left.
proof fn lemma_ramp_emissions_props(low: int, high: int, dur: int, e: int)
    ensures
        ramp_emissions_from(low, high, dur, e).len() == if 0 <= e < dur {
            dur - e
        } else {
            0
        },
        sum_durations(ramp_emissions_from(low, high, dur, e)) == if 0 <= e < dur {
            dur - e
        } else {
            0
        },
    decreases dur - e,
{
    if 0 <= e < dur {
        lemma_ramp_emissions_props(low, high, dur, e + 1);
        lemma_ramp_head(low, high, dur, e);
        let em = ramp_emissions_from(low, high, dur, e);
        assert(sum_durations(em) == em[0].duration + sum_durations(em.drop_first()));
    }
}

/// Length and duration sum of an intervals step's remaining emissions.
proof fn lemma_intervals_emissions_props(
    repeat: int,
    ci: int,
    on_d: int,
    off_d: int,
    on_p: int,
    off_p: int,
)
    requires
        0 <= ci,
        0 <= on_d <= u64::MAX,
        0 <= off_d <= u64::MAX,
    ensures
        intervals_emissions_from(repeat, ci, on_d, off_d, on_p, off_p).len() == if repeat <= 0 {
            0
        } else {
            2 * repeat - ci % 2
        },
        sum_durations(intervals_emissions_from(repeat, ci, on_d, off_d, on_p, off_p))
            == if repeat <= 0 {
            0
        } else {
            repeat * (on_d + off_d) - (ci % 2) * on_d
        },
    decreases repeat, (if ci % 2 == 0 { 1int } else { 0int }),
{
    let em = intervals_emissions_from(repeat, ci, on_d, off_d, on_p, off_p);
    if repeat <= 0 {
    } else if ci % 2 == 0 {
        lemma_intervals_emissions_props(repeat, ci + 1, on_d, off_d, on_p, off_p);
        let rest = intervals_emissions_from(repeat, ci + 1, on_d, off_d, on_p, off_p);
        assert(em.drop_first() =~= rest);
        assert(em[0] == (PowerDuration { duration: on_d as u64, power_level: on_p as u32 }));
        assert(em[0].duration == on_d);
        assert((ci + 1) % 2 == 1);
        assert(sum_durations(em) == em[0].duration + sum_durations(em.drop_first()));
        assert(sum_durations(rest) == repeat * (on_d + off_d) - 1 * on_d);
        assert(1 * on_d == on_d) by (nonlinear_arith);
        assert(sum_durations(em) == repeat * (on_d + off_d));
        assert((ci % 2) * on_d == 0) by (nonlinear_arith)
            requires ci % 2 == 0;
    } else {
        lemma_intervals_emissions_props(repeat - 1, ci + 1, on_d, off_d, on_p, off_p);
        let rest = intervals_emissions_from(repeat - 1, ci + 1, on_d, off_d, on_p, off_p);
        assert(em.drop_first() =~= rest);
        assert(em[0] == (PowerDuration { duration: off_d as u64, power_level: off_p as u32 }));
        assert(em[0].duration == off_d);
        assert((ci + 1) % 2 == 0);
        assert(sum_durations(em) == em[0].duration + sum_durations(em.drop_first()));
        assert((repeat - 1) * (on_d + off_d) == repeat * (on_d + off_d) - (on_d + off_d))
            by (nonlinear_arith);
        if repeat - 1 <= 0 {
            assert(sum_durations(rest) == 0);
            assert(repeat == 1);
            assert(1 * (on_d + off_d) == on_d + off_d) by (nonlinear_arith);
            assert(sum_durations(em) == off_d);
        } else {
            assert(sum_durations(rest) == (repeat - 1) * (on_d + off_d) - 0 * on_d);
            assert(0 * on_d == 0) by (nonlinear_arith);
        }
        assert((ci % 2) * on_d == on_d) by (nonlinear_arith)
            requires ci % 2 == 1;
        assert(sum_durations(em) == repeat * (on_d + off_d) - on_d);
    }
}

/// A step emits exactly `spec_step_item_count` setpoints whose durations
/// add up to exactly `spec_step_remaining` seconds.
pub proof fn lemma_step_emissions_totals(s: WorkoutSteps)
    ensures
        step_emissions(s).len() == spec_step_item_count(s),
        sum_durations(step_emissions(s)) == spec_step_remaining(s),
{
    match s {
        WorkoutSteps::Warmup(w) => {
            lemma_ramp_emissions_props(
                w.power_low as int,
                w.power_high as int,
                w.duration as int,
                w.emitted as int,
            );
        },
        WorkoutSteps::Ramp(w) => {
            lemma_ramp_emissions_props(
                w.power_low as int,
                w.power_high as int,
                w.duration as int,
                w.emitted as int,
            );
        },
        WorkoutSteps::Cooldown(w) => {
            lemma_ramp_emissions_props(
                w.power_low as int,
                w.power_high as int,
                w.duration as int,
                w.emitted as int,
            );
        },
        WorkoutSteps::SteadyState(st) => {
            if st.duration != 0 {
                let em = step_emissions(s);
                assert(em.drop_first() =~= Seq::<PowerDuration>::empty());
                assert(sum_durations(em) == em[0].duration + sum_durations(em.drop_first()));
            }
        },
        WorkoutSteps::FreeRide(f) => {
            if f.duration != 0 {
                let em = step_emissions(s);
                assert(em.drop_first() =~= Seq::<PowerDuration>::empty());
                assert(sum_durations(em) == em[0].duration + sum_durations(em.drop_first()));
            }
        },
        WorkoutSteps::IntervalsT(iv) => {
            lemma_intervals_emissions_props(
                iv.repeat as int,
                iv.current_interval as int,
                iv.on_duration as int,
                iv.off_duration as int,
                iv.on_power as int,
                iv.off_power as int,
            );
        },
    }
}

/// The emissions of a sequence of steps, taken together, number
/// `spec_steps_item_count` and last `spec_steps_remaining` seconds.
pub proof fn lemma_steps_emissions_totals(steps: Seq<WorkoutSteps>)
    ensures
        steps_emissions(steps).len() == spec_steps_item_count(steps),
        sum_durations(steps_emissions(steps)) == spec_steps_remaining(steps),
    decreases steps.len(),
{
    if steps.len() > 0 {
        lemma_step_emissions_totals(steps[0]);
        lemma_steps_emissions_totals(steps.drop_first());
        lemma_sum_durations_concat(step_emissions(steps[0]), steps_emissions(steps.drop_first()));
    }
}

/// On a step not yet advanced, the seconds still to be emitted equal the
/// planned step duration.
pub proof fn lemma_fresh_step_remaining(s: WorkoutSteps)
    requires
        step_fresh(s),
    ensures
        spec_step_remaining(s) == spec_step_duration(s),
{
}

/// Over a workout none of whose steps has been advanced or skipped, the
/// setpoints that `advance` will emit have durations summing to exactly the
/// planned total workout duration, and number exactly the planned item
/// count: `duration` items for a ramping step, one for a steady or free
/// ride step with time on it, and `2 * repeat` for an intervals step.
pub proof fn lemma_workout_emission_totals(steps: Seq<WorkoutSteps>)
    requires
        forall|i: int| 0 <= i < steps.len() ==> step_fresh(#[trigger] steps[i]),
    ensures
        sum_durations(steps_emissions(steps)) == spec_steps_duration(steps),
        steps_emissions(steps).len() == spec_steps_item_count(steps),
    decreases steps.len(),
{
    lemma_steps_emissions_totals(steps);
    lemma_fresh_steps_remaining(steps);
}

/// Pointwise version of `lemma_fresh_step_remaining` over a sequence.
proof fn lemma_fresh_steps_remaining(steps: Seq<WorkoutSteps>)
    requires
        forall|i: int| 0 <= i < steps.len() ==> step_fresh(#[trigger] steps[i]),
    ensures
        spec_steps_remaining(steps) == spec_steps_duration(steps),
    decreases steps.len(),
{
    if steps.len() > 0 {
        lemma_fresh_step_remaining(steps[0]);
        assert(forall|i: int|
            0 <= i < steps.drop_first().len() ==> step_fresh(#[trigger] steps.drop_first()[i]));
        lemma_fresh_steps_remaining(steps.drop_first());
    }
}

} // verus!
