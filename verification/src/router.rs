//! The command-routing state machines that bind the engine to the trainer.
//!
//! The workout router serializes the three event sources of the workout
//! task — the engine timer, the 1 Hz snapshot tick, and user commands —
//! into bus outputs.  The control-point session serializes the trainer
//! side: one write request at a time, each completed by exactly one
//! indication before the next write is issued.
//!
//! The loops that wait on timers, channels and the radio live outside the
//! library; they feed events in and carry the returned actions out.

use vstd::prelude::*;

use crate::cli::{UserCommands, WorkoutCommands};
use crate::common::spec_get_power;
use crate::indoor_bike_client::{le_i16, set_power_frame, spec_clamp, reset_frame};
use crate::indoor_bike_data_defs::{
    ControlPointNotificationData, ControlPointOpCode, ControlPointResult, Range,
};
use crate::workout_state::WorkoutState;
use crate::zwo_workout::{PendingTimer, ZwoWorkout};

verus! {

/// What the workout task does in reaction to one event.
#[derive(Debug, Clone, Copy, PartialEq, Eq, Structural)]
pub enum RouterOutput {
    /// Broadcast this command on the trainer command bus.
    Command(UserCommands),
    /// Broadcast this snapshot on the state bus.
    State(WorkoutState),
    /// Broadcast `Exit` on the trainer command bus and terminate the task.
    Exit,
    /// Nothing to send.
    Quiet,
}

/// The workout task: owns the engine and the state tracker, reacts to the
/// timer, the snapshot tick and user commands.
#[derive(Debug)]
pub struct WorkoutRouter {
    pub workout: ZwoWorkout,
    /// Set once the workout ended or was aborted; no further events are
    /// handled.
    pub finished: bool,
}

impl WorkoutRouter {
    pub open spec fn wf(self) -> bool {
        self.workout.wf()
    }

    /// A router around a freshly constructed engine.
    pub fn new(workout: ZwoWorkout) -> (r: WorkoutRouter)
        ensures
            r.workout == workout,
            !r.finished,
    {
        WorkoutRouter { workout, finished: false }
    }

    /// The engine timer fired: emit the next target-power command, or
    /// `Exit` (and finish) once the workout is exhausted.  The FTP base,
    /// the clocks, the planned total and the step count are untouched, and
    /// the step number only grows.
    pub fn handle_timer_fired(&mut self, now: u64) -> (out: RouterOutput)
        requires
            old(self).wf(),
            !old(self).finished,
        ensures
            final(self).wf(),
            final(self).workout.workout_state.ftp_base == old(
                self,
            ).workout.workout_state.ftp_base,
            final(self).workout.workout_state.total_workout_duration == old(
                self,
            ).workout.workout_state.total_workout_duration,
            final(self).workout.workout_state.workout_elapsed == old(
                self,
            ).workout.workout_state.workout_elapsed,
            final(self).workout.workout_state.workout_started == old(
                self,
            ).workout.workout_state.workout_started,
            final(self).workout.workout_state.total_steps == old(
                self,
            ).workout.workout_state.total_steps,
            final(self).workout.workout_state.current_step_number >= old(
                self,
            ).workout.workout_state.current_step_number,
            ({
                let em = old(self).workout.emissions();
                if em.len() > 0 {
                    &&& out == RouterOutput::Command(
                        UserCommands::SetTargetPower {
                            power: spec_get_power(
                                old(self).workout.workout_state.ftp_base as int,
                                em[0].power_level as int,
                            ) as i16,
                        },
                    )
                    &&& final(self).workout.emissions() == em.drop_first()
                    &&& final(self).workout.pending == PendingTimer::After(em[0].duration)
                    &&& final(self).workout.workout_state.current_power_set == spec_get_power(
                        old(self).workout.workout_state.ftp_base as int,
                        em[0].power_level as int,
                    ) as i16
                    &&& !final(self).finished
                } else {
                    &&& out == RouterOutput::Exit
                    &&& final(self).finished
                }
            }),
    {
        match self.workout.next_command(now) {
            Some(command) => RouterOutput::Command(command),
            None => {
                self.finished = true;
                RouterOutput::Exit
            },
        }
    }

    /// The 1 Hz tick: refresh the elapsed fields and broadcast the
    /// snapshot.
    pub fn handle_tick(&mut self, now: u64) -> (out: RouterOutput)
        requires
            old(self).wf(),
        ensures
            final(self).wf(),
            final(self).finished == old(self).finished,
            final(self).workout.pending == old(self).workout.pending,
            final(self).workout.emissions() == old(self).workout.emissions(),
            out == RouterOutput::State(final(self).workout.workout_state),
            ({
                let ws = old(self).workout.workout_state;
                final(self).workout.workout_state == (WorkoutState {
                    current_step: crate::workout_state::StepState {
                        elapsed: crate::workout_state::spec_elapsed(
                            ws.current_step.started as int,
                            now as int,
                        ) as u64,
                        ..ws.current_step
                    },
                    workout_elapsed: crate::workout_state::spec_elapsed(
                        ws.workout_started as int,
                        now as int,
                    ) as u64,
                    current_interval: match ws.current_interval {
                        Some(iv) => Some(
                            crate::workout_state::IntervalState {
                                elapsed: crate::workout_state::spec_elapsed(
                                    iv.started as int,
                                    now as int,
                                ) as u64,
                                ..iv
                            },
                        ),
                        None => None,
                    },
                    ..ws
                })
            }),
    {
        self.workout.workout_state.update_ts(now);
        RouterOutput::State(self.workout.workout_state)
    }

    /// A user command: pause, resume or skip act on the engine quietly;
    /// abort broadcasts `Exit` and finishes the task.
    pub fn handle_control(&mut self, control: WorkoutCommands) -> (out: RouterOutput)
        requires
            old(self).wf(),
            !old(self).finished,
        ensures
            final(self).wf(),
            match control {
                WorkoutCommands::Pause => out == RouterOutput::Quiet && !final(self).finished
                    && final(self).workout == (ZwoWorkout {
                    pending: PendingTimer::Never,
                    ..old(self).workout
                }),
                WorkoutCommands::Resume => out == RouterOutput::Quiet && !final(self).finished
                    && final(self).workout == (ZwoWorkout {
                    pending: PendingTimer::Ready,
                    ..old(self).workout
                }),
                WorkoutCommands::SkipStep => out == RouterOutput::Quiet && !final(self).finished
                    && final(self).workout == (ZwoWorkout {
                    current_step: crate::zwo_workout_file::spec_step_skipped(
                        old(self).workout.current_step,
                    ),
                    pending: PendingTimer::Ready,
                    workout_state: WorkoutState {
                        total_workout_duration: crate::workout_state::spec_sat_sub(
                            old(self).workout.workout_state.total_workout_duration as int,
                            crate::workout_state::spec_skip_remaining(
                                old(self).workout.workout_state,
                            ),
                        ) as u64,
                        ..old(self).workout.workout_state
                    },
                    ..old(self).workout
                }),
                WorkoutCommands::Abort => out == RouterOutput::Exit && final(self).finished
                    && final(self).workout == old(self).workout,
            },
    {
        match control {
            WorkoutCommands::Pause => {
                self.workout.pause();
                RouterOutput::Quiet
            },
            WorkoutCommands::Resume => {
                self.workout.resume();
                RouterOutput::Quiet
            },
            WorkoutCommands::SkipStep => {
                self.workout.skip_step();
                RouterOutput::Quiet
            },
            WorkoutCommands::Abort => {
                self.finished = true;
                RouterOutput::Exit
            },
        }
    }
}

/// What the control task does in reaction to one bus command.
#[derive(Debug, Clone, PartialEq, Eq)]
pub enum ControlAction {
    /// Write these bytes to the control point with response, then await
    /// the indication.
    Write(Vec<u8>),
    /// The command was rejected locally; nothing was written and no
    /// indication will come.
    Rejected,
    /// Stop the control task (and disconnect).
    Stop,
}

/// The control-point session: one outstanding request at a time.
/// `awaiting` holds the opcode of the write whose indication is still due.
#[derive(Debug, Clone, Copy, PartialEq, Eq, Structural)]
pub struct ControlPointSession {
    pub awaiting: Option<ControlPointOpCode>,
    pub finished: bool,
}

impl ControlPointSession {
    /// A session with no outstanding request.
    pub fn new() -> (s: ControlPointSession)
        ensures
            s.awaiting is None,
            !s.finished,
    {
        ControlPointSession { awaiting: None, finished: false }
    }

    /// Turn one bus command into a control-point action.  A new write may
    /// only be issued once the previous one's indication has been handled
    /// (`awaiting` is `None`).  Target powers outside the trainer's
    /// supported range are rejected locally, with nothing written.
    ///
    /// Resistance commands are not implemented by this driver and must be
    /// kept off the bus.
    pub fn handle_command(&mut self, command: &UserCommands, power_range: &Range<i16, u16>) -> (a:
        ControlAction)
        requires
            old(self).awaiting is None,
            !old(self).finished,
            !(*command is SetResistance),
        ensures
            match *command {
                UserCommands::Exit => a == ControlAction::Stop && final(self).finished && final(self).awaiting is None,
                UserCommands::StartWorkout => (a matches ControlAction::Write(f) && f@ == seq![
                    0x01u8,
                ]) && final(self).awaiting == Some(ControlPointOpCode::Reset) && !final(self).finished,
                UserCommands::SetTargetPower { power } => !final(self).finished && (
                if power_range.min <= power <= power_range.max {
                    &&& (a matches ControlAction::Write(f) && f@.len() == 3 && f@[0] == 0x05u8
                        && le_i16(f@, 1) == power as int)
                    &&& final(self).awaiting == Some(ControlPointOpCode::SetTargetPower)
                } else {
                    a == ControlAction::Rejected && final(self).awaiting is None
                }),
                UserCommands::SetResistance { .. } => false,
            },
    {
        match command {
            UserCommands::Exit => {
                self.finished = true;
                ControlAction::Stop
            },
            UserCommands::StartWorkout => {
                self.awaiting = Some(ControlPointOpCode::Reset);
                ControlAction::Write(reset_frame())
            },
            UserCommands::SetTargetPower { power } => {
                match set_power_frame(*power, power_range) {
                    Ok(frame) => {
                        self.awaiting = Some(ControlPointOpCode::SetTargetPower);
                        ControlAction::Write(frame)
                    },
                    Err(_) => ControlAction::Rejected,
                }
            },
            UserCommands::SetResistance { .. } => vstd::pervasive::unreached(),
        }
    }

    /// Handle the indication completing the outstanding write; the
    /// returned flag says whether the trainer acknowledged the request.
    pub fn handle_indication(&mut self, response: &ControlPointNotificationData) -> (ack: bool)
        requires
            old(self).awaiting is Some,
        ensures
            final(self).awaiting is None,
            final(self).finished == old(self).finished,
            ack == (response.request_status is Success),
    {
        self.awaiting = None;
        match response.request_status {
            ControlPointResult::Success => true,
            _ => false,
        }
    }
}

/// One step of the control-point wire dialogue, as seen on the bus.
#[derive(Debug, Clone, Copy, PartialEq, Eq, Structural)]
pub enum CtrlEvent {
    /// A write request issued to the control point.
    Write,
    /// An indication received and decoded by the driver.
    Indication,
}

/// A dialogue the session discipline admits, starting with `awaiting`
/// outstanding requests: a write only when none is outstanding, an
/// indication only when one is.
pub open spec fn cp_valid_from(events: Seq<CtrlEvent>, awaiting: bool) -> bool
    decreases events.len(),
{
    if events.len() == 0 {
        true
    } else {
        match events[0] {
            CtrlEvent::Write => !awaiting && cp_valid_from(events.drop_first(), true),
            CtrlEvent::Indication => awaiting && cp_valid_from(events.drop_first(), false),
        }
    }
}

/// While a request is outstanding, the first thing the dialogue may do is
/// deliver its indication; in particular any later write is preceded by
/// one.
proof fn lemma_cp_awaiting_first_indication(events: Seq<CtrlEvent>, j: int)
    requires
        cp_valid_from(events, true),
        0 <= j < events.len(),
        events[j] is Write,
    ensures
        exists|k: int| 0 <= k < j && events[k] is Indication,
{
    assert(events[0] is Indication);
    assert(j != 0);
    assert(0 <= 0 < j && events[0] is Indication);
}

/// A control-point write is always followed by exactly one indication
/// decoded by the driver before the next write is issued: in any dialogue
/// the session discipline admits, an indication stands strictly between
/// any two writes.
pub proof fn lemma_control_point_round_trip(events: Seq<CtrlEvent>, i: int, j: int)
    requires
        cp_valid_from(events, false),
        0 <= i < j < events.len(),
        events[i] is Write,
        events[j] is Write,
    ensures
        exists|k: int| i < k < j && events[k] is Indication,
    decreases events.len(),
{
    if i == 0 {
        let rest = events.drop_first();
        assert(cp_valid_from(rest, true));
        assert(rest[j - 1] is Write);
        lemma_cp_awaiting_first_indication(rest, j - 1);
        let k0 = choose|k: int| 0 <= k < j - 1 && rest[k] is Indication;
        assert(events[k0 + 1] is Indication);
        assert(i < k0 + 1 < j && events[k0 + 1] is Indication);
    } else {
        let rest = events.drop_first();
        match events[0] {
            CtrlEvent::Write => {
                assert(cp_valid_from(rest, true));
                // The dialogue must open with that write's indication, after
                // which the rest is again a valid dialogue; recurse past it.
                assert(rest[i - 1] is Write);
                assert(rest[j - 1] is Write);
                assert(rest[0] is Indication);
                assert(i - 1 != 0);
                let tail = rest.drop_first();
                assert(cp_valid_from(tail, false));
                assert(tail[i - 2] is Write);
                assert(tail[j - 2] is Write);
                lemma_control_point_round_trip(tail, i - 2, j - 2);
                let k0 = choose|k: int| i - 2 < k < j - 2 && tail[k] is Indication;
                assert(events[k0 + 2] is Indication);
                assert(i < k0 + 2 < j && events[k0 + 2] is Indication);
            },
            CtrlEvent::Indication => {
                assert(false);
            },
        }
    }
}

/// Every target power the engine emits is the rounded product of the FTP
/// base and the step's power level, and after the driver clamps it to the
/// trainer's supported range it lies within that range.
pub proof fn lemma_emitted_power_in_range(ftp: int, level: int, min: int, max: int)
    requires
        min <= max,
    ensures
        min <= spec_clamp(spec_get_power(ftp, level) as i16 as int, min, max) <= max,
{
}

} // verus!
