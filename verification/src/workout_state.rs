//! User-visible progress snapshot of a running workout.
//!
//! The tracker owns no clock: callers pass the current reading of a
//! monotonic clock, in whole seconds, whenever an operation needs the time.
//! `started` fields hold such clock readings; `elapsed` fields are derived
//! from them by `update_ts`.

use vstd::prelude::*;
use vstd::pervasive::unreached;

use crate::zwo_workout_file::{
    checked_step_duration, lemma_steps_duration_suffix_bound, remaining_workout_duration,
    spec_step_duration, spec_steps_duration, IntervalsT, WorkoutFile, WorkoutSteps,
};

verus! {

/// Elapsed time between a recorded start and the clock reading `now`,
/// clamped at zero should the clock ever be read lower than the anchor.
pub open spec fn spec_elapsed(started: int, now: int) -> int {
    if now >= started {
        now - started
    } else {
        0
    }
}

/// Subtraction that stops at zero.
pub open spec fn spec_sat_sub(a: int, b: int) -> int {
    if a >= b {
        a - b
    } else {
        0
    }
}

/// The step currently being executed, with its planned duration and the
/// time spent on it so far.
#[derive(Debug, Clone, Copy, PartialEq, Eq, Structural)]
pub struct StepState {
    pub duration: u64,
    pub step: WorkoutSteps,
    pub elapsed: u64,
    pub started: u64,
}

/// Progress within the current half-interval of an intervals step.
#[derive(Debug, Clone, Copy, PartialEq, Eq, Structural)]
pub struct IntervalState {
    /// 1-based pair number within the intervals step.
    pub repetition: u64,
    pub is_work_interval: bool,
    pub elapsed: u64,
    pub duration: u64,
    pub started: u64,
}

/// Snapshot of workout progress, broadcast to every subscriber once a
/// second.
#[derive(Debug, Clone, Copy, PartialEq, Eq, Structural)]
pub struct WorkoutState {
    pub total_steps: usize,
    /// Note it's 1-based for human readability!
    pub current_step_number: usize,
    pub total_workout_duration: u64,
    pub next_step: Option<WorkoutSteps>,
    pub current_power_set: i16,
    /// FTP base in hundredths of a watt.
    pub ftp_base: u32,
    pub current_step: StepState,
    pub current_interval: Option<IntervalState>,
    pub workout_elapsed: u64,
    pub workout_started: u64,
}

impl WorkoutState {
    /// Returns real time to be spent on the given workout step.
    pub fn calculate_step_duration(workout_step: &WorkoutSteps) -> (d: u64)
        requires
            spec_step_duration(*workout_step) <= u64::MAX,
        ensures
            d == spec_step_duration(*workout_step),
    {
        workout_step.get_step_duration()
    }

    /// Total time this workout will take, or `None` where the sum exceeds
    /// `u64`.
    pub fn calculate_total_workout_duration(workout: &WorkoutFile) -> (r: Option<u64>)
        ensures
            match r {
                Some(t) => t == spec_steps_duration(workout.workout.steps@),
                None => spec_steps_duration(workout.workout.steps@) > u64::MAX,
            },
    {
        remaining_workout_duration(&workout.workout)
    }

    /// Initial snapshot for a workout about to start: the first step is
    /// current, nothing has elapsed, and no power has been commanded yet.
    pub fn new(workout: &WorkoutFile, ftp_base: u32, now: u64) -> (s: WorkoutState)
        requires
            workout.workout.steps@.len() > 0,
            spec_steps_duration(workout.workout.steps@) <= u64::MAX,
        ensures
            s == spec_initial_workout_state(workout.workout.steps@, ftp_base, now),
    {
        proof {
            lemma_steps_duration_suffix_bound(workout.workout.steps@, 0);
        }
        let total_workout_duration = match Self::calculate_total_workout_duration(workout) {
            Some(t) => t,
            None => unreached(),
        };
        let total_steps = workout.workout.steps.len();
        let current_workout_step = workout.workout.steps[0];
        let current_step = StepState {
            duration: Self::calculate_step_duration(&current_workout_step),
            step: current_workout_step,
            elapsed: 0,
            started: now,
        };
        let next_step = if workout.workout.steps.len() > 1 {
            Some(workout.workout.steps[1])
        } else {
            None
        };
        WorkoutState {
            total_steps,
            total_workout_duration,
            // Note it's 1-based for human readability!
            current_step_number: 1,
            current_step,
            next_step,
            current_interval: None,
            current_power_set: 0,
            ftp_base,
            workout_elapsed: 0,
            workout_started: now,
        }
    }

    /// Sets the workout step that is currently executed, together with the
    /// snapshot update: the front of the queue becomes the current step,
    /// the step number grows by one, the step clock restarts, and interval
    /// progress is cleared unless the new step is itself an intervals step.
    /// Counter and duration saturate at their types' ceilings, so the step
    /// number never decreases whatever the state.
    pub fn handle_next_step(&mut self, workout: &WorkoutFile, now: u64)
        ensures
            *final(self) == (if workout.workout.steps@.len() > 0 {
                WorkoutState {
                    current_step: StepState {
                        duration: spec_step_duration_capped(workout.workout.steps@[0]) as u64,
                        step: workout.workout.steps@[0],
                        elapsed: 0u64,
                        started: now,
                    },
                    current_step_number: if old(self).current_step_number < usize::MAX {
                        (old(self).current_step_number + 1) as usize
                    } else {
                        old(self).current_step_number
                    },
                    current_interval: if workout.workout.steps@[0] is IntervalsT {
                        old(self).current_interval
                    } else {
                        None
                    },
                    next_step: if workout.workout.steps@.len() > 1 {
                        Some(workout.workout.steps@[1])
                    } else {
                        None
                    },
                    ..*old(self)
                }
            } else {
                *old(self)
            }),
    {
        if workout.workout.steps.len() > 0 {
            let next = workout.workout.steps[0];
            self.current_step.step = next;
            self.current_step.duration = match checked_step_duration(&self.current_step.step) {
                Some(d) => d,
                None => u64::MAX,
            };
            if self.current_step_number < usize::MAX {
                self.current_step_number = self.current_step_number + 1;
            }
            self.current_step.elapsed = 0;
            self.current_step.started = now;
            // Clear interval info if step is not interval
            match self.current_step.step {
                WorkoutSteps::IntervalsT(_) => (),
                _ => {
                    self.current_interval = None;
                },
            }
            self.next_step = if workout.workout.steps.len() > 1 {
                Some(workout.workout.steps[1])
            } else {
                None
            };
        }
    }

    /// Recompute every `elapsed` field from the clock reading `now`.
    pub fn update_ts(&mut self, now: u64)
        ensures
            *final(self) == (WorkoutState {
                current_step: StepState {
                    elapsed: spec_elapsed(old(self).current_step.started as int, now as int) as u64,
                    ..old(self).current_step
                },
                workout_elapsed: spec_elapsed(old(self).workout_started as int, now as int) as u64,
                current_interval: match old(self).current_interval {
                    Some(iv) => Some(
                        IntervalState {
                            elapsed: spec_elapsed(iv.started as int, now as int) as u64,
                            ..iv
                        },
                    ),
                    None => None,
                },
                ..*old(self)
            }),
    {
        self.current_step.elapsed = if now >= self.current_step.started {
            now - self.current_step.started
        } else {
            0
        };
        self.workout_elapsed = if now >= self.workout_started {
            now - self.workout_started
        } else {
            0
        };
        match self.current_interval {
            Some(interval_state) => {
                let elapsed = if now >= interval_state.started {
                    now - interval_state.started
                } else {
                    0
                };
                self.current_interval = Some(IntervalState { elapsed, ..interval_state });
            },
            None => (),
        }
    }

    /// On each setpoint of an intervals step, record which half-interval is
    /// starting; other step kinds leave the interval info untouched.
    pub fn handle_step_advance(&mut self, current_step: &WorkoutSteps, now: u64)
        ensures
            *final(self) == (match *current_step {
                WorkoutSteps::IntervalsT(interval) => WorkoutState {
                    current_interval: Some(
                        IntervalState {
                            repetition: (interval.current_interval / 2 + 1) as u64,
                            is_work_interval: interval.current_interval % 2 == 0,
                            elapsed: 0u64,
                            duration: if interval.current_interval % 2 == 0 {
                                interval.on_duration
                            } else {
                                interval.off_duration
                            },
                            started: now,
                        },
                    ),
                    ..*old(self)
                },
                _ => *old(self),
            }),
    {
        match current_step {
            WorkoutSteps::IntervalsT(interval) => {
                let interval_duration = if interval.is_work_interval() {
                    interval.on_duration
                } else {
                    interval.off_duration
                };
                self.current_interval = Some(
                    IntervalState {
                        is_work_interval: interval.is_work_interval(),
                        repetition: interval.current_interval / 2 + 1,
                        elapsed: 0,
                        duration: interval_duration,
                        started: now,
                    },
                );
            },
            _ => (),
        }
    }

    /// Skipping drops the unspent remainder of the current half-interval
    /// (or of the current step, outside an intervals step) from the total
    /// workout duration, so that progress math remains consistent.
    pub fn handle_skip_step(&mut self)
        ensures
            *final(self) == (WorkoutState {
                total_workout_duration: spec_sat_sub(
                    old(self).total_workout_duration as int,
                    spec_skip_remaining(*old(self)),
                ) as u64,
                ..*old(self)
            }),
    {
        let remaining_time: u64 = match self.current_interval {
            Some(interval) => {
                if interval.duration >= interval.elapsed {
                    interval.duration - interval.elapsed
                } else {
                    0
                }
            },
            None => {
                if self.current_step.duration >= self.current_step.elapsed {
                    self.current_step.duration - self.current_step.elapsed
                } else {
                    0
                }
            },
        };
        self.total_workout_duration = if self.total_workout_duration >= remaining_time {
            self.total_workout_duration - remaining_time
        } else {
            0
        };
    }
}

/// A step's planned duration, stopping at the largest `u64` where the
/// interval arithmetic would exceed it.
pub open spec fn spec_step_duration_capped(s: WorkoutSteps) -> int {
    if spec_step_duration(s) <= u64::MAX {
        spec_step_duration(s)
    } else {
        u64::MAX as int
    }
}

/// The snapshot `WorkoutState::new` produces for a workout about to
/// start.
pub open spec fn spec_initial_workout_state(
    steps: Seq<WorkoutSteps>,
    ftp_base: u32,
    now: u64,
) -> WorkoutState {
    WorkoutState {
        total_steps: steps.len() as usize,
        current_step_number: 1usize,
        total_workout_duration: spec_steps_duration(steps) as u64,
        next_step: if steps.len() > 1 {
            Some(steps[1])
        } else {
            None
        },
        current_power_set: 0i16,
        ftp_base: ftp_base,
        current_step: StepState {
            duration: spec_step_duration(steps[0]) as u64,
            step: steps[0],
            elapsed: 0u64,
            started: now,
        },
        current_interval: None,
        workout_elapsed: 0u64,
        workout_started: now,
    }
}

/// The unspent time that `handle_skip_step` removes from the total: what
/// is left of the current half-interval, or of the current step where no
/// interval is in progress.
pub open spec fn spec_skip_remaining(s: WorkoutState) -> int {
    match s.current_interval {
        Some(interval) => spec_sat_sub(interval.duration as int, interval.elapsed as int),
        None => spec_sat_sub(s.current_step.duration as int, s.current_step.elapsed as int),
    }
}

/// Snapshot monotonicity: reading the clock later never shrinks an
/// elapsed field, and removing skipped time never grows the total workout
/// duration.  Together with `handle_next_step`, whose contract grows the
/// step number by exactly one, this pins down the direction in which every
/// snapshot field may move.
pub proof fn lemma_snapshot_monotonicity(started: int, total: int, n1: int, n2: int)
    requires
        n1 <= n2,
    ensures
        spec_elapsed(started, n1) <= spec_elapsed(started, n2),
        forall|d: int| 0 <= d && 0 <= total ==> #[trigger] spec_sat_sub(total, d) <= total,
{
}

} // verus!
