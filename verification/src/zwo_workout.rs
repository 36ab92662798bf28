//! The workout engine: sequences the steps of a workout file, hands out the
//! next power setpoint whenever its timer fires, and supports pause, resume,
//! skip and clean exhaustion.
//!
//! The engine owns no timer.  The `pending` field tells the caller how long
//! to wait before calling `next_command` again; the caller passes the
//! current reading of a monotonic clock, in whole seconds, into each call
//! that needs the time.

use vstd::prelude::*;

use crate::cli::UserCommands;
use crate::common::{get_power, spec_get_power};
use crate::workout_state::{spec_initial_workout_state, spec_sat_sub, spec_skip_remaining,
    WorkoutState};
use crate::zwo_workout_file::{
    remaining_workout_duration, spec_step_skipped, spec_steps_duration, step_emissions, step_wf,
    steps_emissions, PowerDuration, WorkoutFile, WorkoutSteps,
};

verus! {

/// When the engine's caller should next call `next_command`.
#[derive(Debug, Clone, Copy, PartialEq, Eq, Structural)]
pub enum PendingTimer {
    /// Immediately: the current setpoint is spent (or none was issued yet).
    Ready,
    /// After this many seconds: the current setpoint runs that long.
    After(u64),
    /// Not at all until a further command re-arms the timer (pause).
    Never,
}

/// Why a workout cannot be started.
#[derive(Debug, Clone, Copy, PartialEq, Eq, Structural)]
pub enum WorkoutError {
    /// Workout does not contain any workout steps.
    EmptyWorkout,
    /// The planned durations add up to more than `u64` seconds.
    DurationOverflow,
    /// An intervals step carries counters too large to run.
    CapacityExceeded,
}

/// The engine driving one workout.
#[derive(Debug)]
pub struct ZwoWorkout {
    /// The not-yet-started remainder of the workout.
    pub workout_file: WorkoutFile,
    /// When the caller should ask for the next setpoint.
    pub pending: PendingTimer,
    pub workout_state: WorkoutState,
    pub current_step: WorkoutSteps,
}

impl ZwoWorkout {
    /// Every setpoint the engine will still emit: the rest of the current
    /// step, then every queued step in order.
    pub open spec fn emissions(self) -> Seq<PowerDuration> {
        step_emissions(self.current_step) + steps_emissions(self.workout_file.workout.steps@)
    }

    /// Structural facts the engine maintains: the capacity guard on every
    /// step, and bounded step numbering.
    pub open spec fn wf(self) -> bool {
        &&& step_wf(self.current_step)
        &&& (forall|i: int|
            0 <= i < self.workout_file.workout.steps@.len() ==> step_wf(
                #[trigger] self.workout_file.workout.steps@[i],
            ))
        &&& self.workout_state.current_step_number + self.workout_file.workout.steps@.len()
            <= usize::MAX
    }

    /// Start the workout described by `workout`: validate it, set up the
    /// progress snapshot, pop the first step as the current step, and arm
    /// the timer to fire at once.
    pub fn new(workout: WorkoutFile, ftp_base: u32, now: u64) -> (r: Result<ZwoWorkout,
        WorkoutError>)
        ensures
            match r {
                Ok(engine) => {
                    &&& workout.workout.steps@.len() > 0
                    &&& (forall|i: int|
                        0 <= i < workout.workout.steps@.len() ==> step_wf(
                            #[trigger] workout.workout.steps@[i],
                        ))
                    &&& spec_steps_duration(workout.workout.steps@) <= u64::MAX
                    &&& engine.wf()
                    &&& engine.emissions() == steps_emissions(workout.workout.steps@)
                    &&& engine.current_step == workout.workout.steps@[0]
                    &&& engine.workout_file.workout.steps@ == workout.workout.steps@.drop_first()
                    &&& engine.pending == PendingTimer::Ready
                    &&& engine.workout_state == spec_initial_workout_state(
                        workout.workout.steps@,
                        ftp_base,
                        now,
                    )
                },
                Err(WorkoutError::EmptyWorkout) => workout.workout.steps@.len() == 0,
                Err(WorkoutError::CapacityExceeded) => workout.workout.steps@.len() > 0
                    && !(forall|i: int|
                    0 <= i < workout.workout.steps@.len() ==> step_wf(
                        #[trigger] workout.workout.steps@[i],
                    )),
                Err(WorkoutError::DurationOverflow) => workout.workout.steps@.len() > 0 && (
                forall|i: int|
                    0 <= i < workout.workout.steps@.len() ==> step_wf(
                        #[trigger] workout.workout.steps@[i],
                    )) && spec_steps_duration(workout.workout.steps@) > u64::MAX,
            },
    {
        let mut workout = workout;
        let n = workout.workout.steps.len();
        if n == 0 {
            return Err(WorkoutError::EmptyWorkout);
        }
        let mut i: usize = 0;
        #[verifier::loop_isolation(false)]
        while i < n
            invariant
                i <= n,
                n == workout.workout.steps@.len(),
                forall|j: int| 0 <= j < i ==> step_wf(#[trigger] workout.workout.steps@[j]),
            decreases n - i,
        {
            if !step_wf_check(&workout.workout.steps[i]) {
                proof {
                    assert(!step_wf(workout.workout.steps@[i as int]));
                    assert(!(forall|j: int|
                        0 <= j < workout.workout.steps@.len() ==> step_wf(
                            #[trigger] workout.workout.steps@[j],
                        )));
                }
                return Err(WorkoutError::CapacityExceeded);
            }
            i = i + 1;
        }
        match remaining_workout_duration(&workout.workout) {
            Some(_) => (),
            None => {
                return Err(WorkoutError::DurationOverflow);
            },
        }
        let workout_state = WorkoutState::new(&workout, ftp_base, now);
        let ghost all_steps = workout.workout.steps@;
        let current_step = match workout.workout.steps.pop_front() {
            Some(s) => s,
            None => vstd::pervasive::unreached(),
        };
        let engine = ZwoWorkout {
            workout_file: workout,
            pending: PendingTimer::Ready,
            workout_state,
            current_step,
        };
        proof {
            assert(engine.workout_file.workout.steps@ =~= all_steps.drop_first());
            assert(engine.emissions() =~= steps_emissions(all_steps));
        }
        Ok(engine)
    }

    /// Workout paused: the timer is disarmed, and the trainer keeps
    /// whatever power was last commanded.
    pub fn pause(&mut self)
        ensures
            *final(self) == (ZwoWorkout { pending: PendingTimer::Never, ..*old(self) }),
    {
        self.pending = PendingTimer::Never;
    }

    /// Resume after a pause: the timer is re-armed so that the next
    /// setpoint is emitted immediately.
    pub fn resume(&mut self)
        ensures
            *final(self) == (ZwoWorkout { pending: PendingTimer::Ready, ..*old(self) }),
    {
        self.pending = PendingTimer::Ready;
    }

    /// Skipping step: exhaust the current step (or half-interval), arm the
    /// timer to fire immediately, and drop the unspent remainder from the
    /// total workout duration.
    pub fn skip_step(&mut self)
        ensures
            *final(self) == (ZwoWorkout {
                current_step: spec_step_skipped(old(self).current_step),
                pending: PendingTimer::Ready,
                workout_state: WorkoutState {
                    total_workout_duration: spec_sat_sub(
                        old(self).workout_state.total_workout_duration as int,
                        spec_skip_remaining(old(self).workout_state),
                    ) as u64,
                    ..old(self).workout_state
                },
                ..*old(self)
            }),
            old(self).wf() ==> final(self).wf(),
    {
        self.current_step.skip();
        self.pending = PendingTimer::Ready;
        self.workout_state.handle_skip_step();
    }

    /// Record the interval bookkeeping for the half-interval about to be
    /// emitted, then advance the current step.
    fn advance_step(&mut self, now: u64) -> (r: Option<PowerDuration>)
        requires
            step_wf(old(self).current_step),
        ensures
            step_wf(final(self).current_step),
            crate::zwo_workout_file::step_advance_ensures(
                old(self).current_step,
                final(self).current_step,
                r,
            ),
            final(self).workout_file == old(self).workout_file,
            final(self).pending == old(self).pending,
            ({
                let mid = WorkoutState {
                    current_interval: match old(self).current_step {
                        WorkoutSteps::IntervalsT(interval) => Some(
                            crate::workout_state::IntervalState {
                                repetition: (interval.current_interval / 2 + 1) as u64,
                                is_work_interval: interval.current_interval % 2 == 0,
                                elapsed: 0u64,
                                duration: if interval.current_interval % 2 == 0 {
                                    interval.on_duration
                                } else {
                                    interval.off_duration
                                },
                                started: now,
                            },
                        ),
                        _ => old(self).workout_state.current_interval,
                    },
                    ..old(self).workout_state
                };
                final(self).workout_state == mid
            }),
    {
        self.workout_state.handle_step_advance(&self.current_step, now);
        self.current_step.advance()
    }

    /// Pop setpoints off the active step, moving to the next step whenever
    /// the active one is exhausted; `None` once the whole tree is spent.
    /// On success the commanded power is recorded in the snapshot.
    pub fn advance_workout(&mut self, now: u64) -> (r: Option<PowerDuration>)
        requires
            old(self).wf(),
        ensures
            final(self).wf(),
            final(self).pending == old(self).pending,
            final(self).workout_state.total_workout_duration == old(self).workout_state.total_workout_duration,
            final(self).workout_state.workout_elapsed == old(self).workout_state.workout_elapsed,
            final(self).workout_state.workout_started == old(self).workout_state.workout_started,
            final(self).workout_state.ftp_base == old(self).workout_state.ftp_base,
            final(self).workout_state.total_steps == old(self).workout_state.total_steps,
            final(self).workout_state.current_step_number >= old(self).workout_state.current_step_number,
            ({
                let em = old(self).emissions();
                if em.len() > 0 {
                    &&& r == Some(em[0])
                    &&& final(self).emissions() == em.drop_first()
                    &&& final(self).workout_state.current_power_set == spec_get_power(
                        old(self).workout_state.ftp_base as int,
                        em[0].power_level as int,
                    ) as i16
                } else {
                    &&& r is None
                    &&& final(self).emissions().len() == 0
                    &&& final(self).workout_state.current_power_set == old(self).workout_state.current_power_set
                }
            }),
    {
        loop
            invariant
                self.wf(),
                self.emissions() == old(self).emissions(),
                self.pending == old(self).pending,
                self.workout_state.total_workout_duration == old(self).workout_state.total_workout_duration,
                self.workout_state.workout_elapsed == old(self).workout_state.workout_elapsed,
                self.workout_state.workout_started == old(self).workout_state.workout_started,
                self.workout_state.ftp_base == old(self).workout_state.ftp_base,
                self.workout_state.total_steps == old(self).workout_state.total_steps,
                self.workout_state.current_step_number >= old(self).workout_state.current_step_number,
                self.workout_state.current_power_set == old(self).workout_state.current_power_set,
            decreases self.workout_file.workout.steps@.len(),
        {
            let ghost pre = *self;
            match self.advance_step(now) {
                Some(power_duration) => {
                    proof {
                        assert(pre.emissions()[0] == step_emissions(pre.current_step)[0]);
                        assert(self.emissions() =~= pre.emissions().drop_first());
                    }
                    self.workout_state.current_power_set = get_power(
                        self.workout_state.ftp_base,
                        power_duration.power_level,
                    );
                    return Some(power_duration);
                },
                None => {
                    // Current step exhausted, get next one
                    if self.workout_file.workout.steps.len() > 0 {
                        self.workout_state.handle_next_step(&self.workout_file, now);
                        let ghost queue = self.workout_file.workout.steps@;
                        let next = match self.workout_file.workout.steps.pop_front() {
                            Some(s) => s,
                            None => vstd::pervasive::unreached(),
                        };
                        // Start with next workout
                        self.current_step = next;
                        proof {
                            assert(self.workout_file.workout.steps@ =~= queue.drop_first());
                            assert(self.emissions() =~= steps_emissions(queue));
                            assert(self.emissions() =~= pre.emissions());
                        }
                    } else {
                        // Nothing left
                        return None;
                    }
                },
            }
        }
    }

    /// The engine's timer fired: emit the next target-power command and arm
    /// the timer for the setpoint's duration, or report the workout done.
    /// Advancing never touches the FTP base, the clocks, the planned total
    /// or the step count, and only grows the step number.
    pub fn next_command(&mut self, now: u64) -> (r: Option<UserCommands>)
        requires
            old(self).wf(),
        ensures
            final(self).wf(),
            final(self).workout_state.ftp_base == old(self).workout_state.ftp_base,
            final(self).workout_state.total_workout_duration == old(
                self,
            ).workout_state.total_workout_duration,
            final(self).workout_state.workout_elapsed == old(self).workout_state.workout_elapsed,
            final(self).workout_state.workout_started == old(self).workout_state.workout_started,
            final(self).workout_state.total_steps == old(self).workout_state.total_steps,
            final(self).workout_state.current_step_number >= old(
                self,
            ).workout_state.current_step_number,
            ({
                let em = old(self).emissions();
                if em.len() > 0 {
                    &&& r == Some(
                        UserCommands::SetTargetPower {
                            power: spec_get_power(
                                old(self).workout_state.ftp_base as int,
                                em[0].power_level as int,
                            ) as i16,
                        },
                    )
                    &&& final(self).emissions() == em.drop_first()
                    &&& final(self).pending == PendingTimer::After(em[0].duration)
                    &&& final(self).workout_state.current_power_set == spec_get_power(
                        old(self).workout_state.ftp_base as int,
                        em[0].power_level as int,
                    ) as i16
                } else {
                    &&& r is None
                    &&& final(self).emissions().len() == 0
                    &&& final(self).pending == old(self).pending
                    &&& final(self).workout_state.current_power_set == old(
                        self,
                    ).workout_state.current_power_set
                }
            }),
    {
        match self.advance_workout(now) {
            Some(power_duration) => {
                self.pending = PendingTimer::After(power_duration.duration);
                Some(
                    UserCommands::SetTargetPower {
                        power: get_power(
                            self.workout_state.ftp_base,
                            power_duration.power_level,
                        ),
                    },
                )
            },
            // Whole workout exhausted
            None => None,
        }
    }
}

/// Executable form of the `step_wf` capacity guard.
fn step_wf_check(s: &WorkoutSteps) -> (b: bool)
    ensures
        b == step_wf(*s),
{
    match s {
        WorkoutSteps::IntervalsT(iv) => {
            let halves = (iv.current_interval / 2) as u128 + (iv.repeat as u128);
            halves <= (u64::MAX / 2) as u128
        },
        _ => true,
    }
}

/// Over a complete run of a freshly started workout, the engine emits one
/// command per planned setpoint and the emitted durations sum to the
/// planned total workout duration.  The hypothesis is exactly what
/// `ZwoWorkout::new` ensures of an engine built from steps none of which
/// has been advanced.
pub proof fn lemma_engine_emits_plan(engine: ZwoWorkout, steps: Seq<WorkoutSteps>)
    requires
        engine.emissions() == crate::zwo_workout_file::steps_emissions(steps),
        forall|i: int|
            0 <= i < steps.len() ==> crate::zwo_workout_file::step_fresh(#[trigger] steps[i]),
    ensures
        crate::zwo_workout_file::sum_durations(engine.emissions()) == spec_steps_duration(steps),
        engine.emissions().len() == crate::zwo_workout_file::spec_steps_item_count(steps),
{
    crate::zwo_workout_file::lemma_workout_emission_totals(steps);
}

} // verus!
