//! Engine, state tracker, router and scan behaviour against the clock.

use std::collections::VecDeque;

use zwo_trainer::ble_client::{ConnectedAction, ServiceScan};
use zwo_trainer::cli::{parse_workout_command, UserCommands, WorkoutCommands};
use zwo_trainer::common::{duration_to_string, get_power};
use zwo_trainer::router::{RouterOutput, WorkoutRouter};
use zwo_trainer::workout_state::WorkoutState;
use zwo_trainer::zwo_workout::{PendingTimer, WorkoutError, ZwoWorkout};
use zwo_trainer::zwo_workout_file::{
    IntervalsT, SteadyState, Warmup, Workout, WorkoutFile, WorkoutSteps,
};

/// A power level in hundredths.
fn pl(level: f64) -> u32 {
    (level * 100.0).round() as u32
}

/// An FTP base in hundredths of a watt.
fn ftp(watts: f64) -> u32 {
    (watts * 100.0).round() as u32
}

fn workout_of(steps: Vec<WorkoutSteps>) -> WorkoutFile {
    WorkoutFile {
        author: String::from("test author"),
        name: String::from("test workout"),
        description: String::from("a short ride"),
        sport_type: String::from("bike"),
        workout: Workout {
            steps: VecDeque::from(steps),
        },
    }
}

#[test]
fn setpoint_stream_matches_plan() {
    // SteadyState(10 s, 0.5) then IntervalsT(2x: 60 s at 1.0, 120 s at 0.5)
    // at 200 W FTP: 100 W for 10 s, then 200/100/200/100 W, then the end.
    let file = workout_of(vec![
        WorkoutSteps::SteadyState(SteadyState {
            duration: 10,
            power: pl(0.5),
        }),
        WorkoutSteps::IntervalsT(IntervalsT {
            repeat: 2,
            on_duration: 60,
            off_duration: 120,
            on_power: pl(1.0),
            off_power: pl(0.5),
            current_interval: 0,
        }),
    ]);
    let mut engine = ZwoWorkout::new(file, ftp(200.0), 0).expect("workout starts");
    assert_eq!(engine.workout_state.total_workout_duration, 370);
    assert_eq!(engine.workout_state.total_steps, 2);
    assert_eq!(engine.workout_state.current_step_number, 1);

    let expected: [(i16, u64); 5] = [(100, 10), (200, 60), (100, 120), (200, 60), (100, 120)];
    for (watts, secs) in expected {
        let command = engine.next_command(1);
        assert_eq!(
            command,
            Some(UserCommands::SetTargetPower { power: watts })
        );
        assert_eq!(engine.pending, PendingTimer::After(secs));
        assert_eq!(engine.workout_state.current_power_set, watts);
    }
    assert_eq!(engine.next_command(400), None);
    assert_eq!(engine.next_command(401), None);
    // The total never changed: nothing was skipped.
    assert_eq!(engine.workout_state.total_workout_duration, 370);
}

#[test]
fn empty_workout_is_refused() {
    let file = workout_of(vec![]);
    match ZwoWorkout::new(file, ftp(200.0), 0) {
        Err(WorkoutError::EmptyWorkout) => (),
        other => panic!("unexpected construction result: {other:?}"),
    }
}

#[test]
fn single_step_workout_runs_to_completion() {
    let file = workout_of(vec![WorkoutSteps::SteadyState(SteadyState {
        duration: 30,
        power: pl(1.0),
    })]);
    let mut engine = ZwoWorkout::new(file, ftp(250.0), 0).expect("workout starts");
    assert_eq!(
        engine.next_command(0),
        Some(UserCommands::SetTargetPower { power: 250 })
    );
    assert_eq!(engine.next_command(30), None);
}

#[test]
fn zero_ftp_commands_zero_watts() {
    let file = workout_of(vec![WorkoutSteps::SteadyState(SteadyState {
        duration: 30,
        power: pl(1.5),
    })]);
    let mut engine = ZwoWorkout::new(file, ftp(0.0), 0).expect("workout starts");
    assert_eq!(
        engine.next_command(0),
        Some(UserCommands::SetTargetPower { power: 0 })
    );
}

#[test]
fn pause_and_resume_rearm_the_timer() {
    let file = workout_of(vec![WorkoutSteps::SteadyState(SteadyState {
        duration: 30,
        power: pl(1.0),
    })]);
    let mut engine = ZwoWorkout::new(file, ftp(200.0), 0).expect("workout starts");
    assert_eq!(engine.pending, PendingTimer::Ready);
    engine.next_command(0);
    assert_eq!(engine.pending, PendingTimer::After(30));
    engine.pause();
    assert_eq!(engine.pending, PendingTimer::Never);
    engine.resume();
    assert_eq!(engine.pending, PendingTimer::Ready);
}

#[test]
fn skipping_a_step_drops_its_remaining_time() {
    // Two steps of 100 s and 50 s; after 30 s of the first step a skip
    // removes exactly the 70 unspent seconds.
    let file = workout_of(vec![
        WorkoutSteps::SteadyState(SteadyState {
            duration: 100,
            power: pl(1.0),
        }),
        WorkoutSteps::SteadyState(SteadyState {
            duration: 50,
            power: pl(0.5),
        }),
    ]);
    let mut engine = ZwoWorkout::new(file, ftp(200.0), 0).expect("workout starts");
    assert_eq!(engine.workout_state.total_workout_duration, 150);
    engine.next_command(0);
    engine.workout_state.update_ts(30);
    engine.skip_step();
    assert_eq!(engine.pending, PendingTimer::Ready);
    assert_eq!(engine.workout_state.total_workout_duration, 80);
    // The next command starts the second step.
    assert_eq!(
        engine.next_command(30),
        Some(UserCommands::SetTargetPower { power: 100 })
    );
    assert_eq!(engine.workout_state.current_step_number, 2);
    assert_eq!(engine.next_command(80), None);
}

#[test]
fn snapshot_elapsed_fields_follow_the_clock() {
    let file = workout_of(vec![WorkoutSteps::SteadyState(SteadyState {
        duration: 100,
        power: pl(1.0),
    })]);
    let mut engine = ZwoWorkout::new(file, ftp(200.0), 5).expect("workout starts");
    engine.workout_state.update_ts(5);
    assert_eq!(engine.workout_state.workout_elapsed, 0);
    engine.workout_state.update_ts(12);
    assert_eq!(engine.workout_state.workout_elapsed, 7);
    assert_eq!(engine.workout_state.current_step.elapsed, 7);
    // Monotone: a later clock reading never shrinks the elapsed time.
    engine.workout_state.update_ts(13);
    assert_eq!(engine.workout_state.workout_elapsed, 8);
}

#[test]
fn interval_bookkeeping_tracks_half_intervals() {
    let file = workout_of(vec![WorkoutSteps::IntervalsT(IntervalsT {
        repeat: 2,
        on_duration: 60,
        off_duration: 120,
        on_power: pl(1.0),
        off_power: pl(0.5),
        current_interval: 0,
    })]);
    let mut engine = ZwoWorkout::new(file, ftp(200.0), 0).expect("workout starts");

    engine.next_command(0);
    let first = engine.workout_state.current_interval.expect("interval info");
    assert_eq!(first.repetition, 1);
    assert!(first.is_work_interval);
    assert_eq!(first.duration, 60);

    engine.next_command(60);
    let second = engine.workout_state.current_interval.expect("interval info");
    assert_eq!(second.repetition, 1);
    assert!(!second.is_work_interval);
    assert_eq!(second.duration, 120);

    engine.next_command(180);
    let third = engine.workout_state.current_interval.expect("interval info");
    assert_eq!(third.repetition, 2);
    assert!(third.is_work_interval);
}

#[test]
fn router_routes_engine_and_user_events() {
    let file = workout_of(vec![WorkoutSteps::SteadyState(SteadyState {
        duration: 10,
        power: pl(0.5),
    })]);
    let engine = ZwoWorkout::new(file, ftp(200.0), 0).expect("workout starts");
    let mut router = WorkoutRouter::new(engine);

    let out = router.handle_timer_fired(0);
    assert_eq!(
        out,
        RouterOutput::Command(UserCommands::SetTargetPower { power: 100 })
    );

    let out = router.handle_tick(4);
    match out {
        RouterOutput::State(state) => {
            assert_eq!(state.workout_elapsed, 4);
            assert_eq!(state.current_power_set, 100);
        }
        other => panic!("expected a state broadcast, got {other:?}"),
    }

    assert_eq!(
        router.handle_control(WorkoutCommands::Pause),
        RouterOutput::Quiet
    );
    assert_eq!(router.workout.pending, PendingTimer::Never);
    assert_eq!(
        router.handle_control(WorkoutCommands::Resume),
        RouterOutput::Quiet
    );

    let out = router.handle_timer_fired(10);
    assert_eq!(out, RouterOutput::Exit);
    assert!(router.finished);
}

#[test]
fn router_abort_exits_immediately() {
    let file = workout_of(vec![WorkoutSteps::SteadyState(SteadyState {
        duration: 10,
        power: pl(0.5),
    })]);
    let engine = ZwoWorkout::new(file, ftp(200.0), 0).expect("workout starts");
    let mut router = WorkoutRouter::new(engine);
    assert_eq!(
        router.handle_control(WorkoutCommands::Abort),
        RouterOutput::Exit
    );
    assert!(router.finished);
}

#[test]
fn warmup_ramps_across_step_transitions() {
    // A 4-second warmup from 0 to 1.0 of a 100 W FTP, then the end:
    // 0, 25, 50, 75 W and five items in all over a steady tail.
    let file = workout_of(vec![
        WorkoutSteps::Warmup(Warmup {
            duration: 4,
            power_low: pl(0.0),
            power_high: pl(1.0),
            emitted: 0,
        }),
        WorkoutSteps::SteadyState(SteadyState {
            duration: 10,
            power: pl(1.0),
        }),
    ]);
    let mut engine = ZwoWorkout::new(file, ftp(100.0), 0).expect("workout starts");
    let mut watts = Vec::new();
    while let Some(UserCommands::SetTargetPower { power }) = engine.next_command(0) {
        watts.push(power);
    }
    assert_eq!(watts, vec![0, 25, 50, 75, 100]);
}

#[test]
fn scan_connects_to_matching_name_once() {
    let mut scan = ServiceScan::new(b"SUITO".to_vec());
    assert!(!scan.should_connect(b"KICKR"));
    assert!(scan.should_connect(b"SUITO"));
    scan.on_connect_result(false);
    // A failed attempt keeps scanning.
    assert!(scan.should_connect(b"SUITO"));
    scan.on_connect_result(true);
    // With a connection pending, further discoveries are ignored.
    assert!(!scan.should_connect(b"SUITO"));
}

#[test]
fn scan_drops_device_without_target_service() {
    let mut scan = ServiceScan::new(b"SUITO".to_vec());
    scan.on_connect_result(true);
    assert_eq!(
        scan.on_device_connected(false),
        ConnectedAction::DisconnectAndResume
    );
    // Scanning resumed: the next matching device may be tried.
    assert!(scan.should_connect(b"SUITO"));
    scan.on_connect_result(true);
    assert_eq!(scan.on_device_connected(true), ConnectedAction::UseDevice);
}

#[test]
fn stdin_commands_parse_case_insensitively() {
    assert_eq!(parse_workout_command("S"), Some(WorkoutCommands::SkipStep));
    assert_eq!(parse_workout_command("s"), Some(WorkoutCommands::SkipStep));
    assert_eq!(parse_workout_command("Q"), Some(WorkoutCommands::Abort));
    assert_eq!(parse_workout_command("q"), Some(WorkoutCommands::Abort));
    assert_eq!(parse_workout_command(""), None);
    assert_eq!(parse_workout_command("SS"), None);
    assert_eq!(parse_workout_command("x"), None);
}

#[test]
fn durations_render_with_hour_and_minute_parts() {
    assert_eq!(duration_to_string(0), "0s");
    assert_eq!(duration_to_string(59), "59s");
    assert_eq!(duration_to_string(60), "1m 0s");
    assert_eq!(duration_to_string(120), "2m 0s");
    assert_eq!(duration_to_string(3601), "1h 1s");
    assert_eq!(duration_to_string(3723), "1h 2m 3s");
    assert_eq!(duration_to_string(86400), "24h 0s");
}

#[test]
fn watts_round_to_nearest_and_saturate() {
    assert_eq!(get_power(ftp(200.0), pl(0.5)), 100);
    assert_eq!(get_power(ftp(200.0), pl(0.75)), 150);
    // 199.5 W rounds up.
    assert_eq!(get_power(ftp(133.0), pl(1.5)), 200);
    // 0.49 W rounds down.
    assert_eq!(get_power(ftp(0.98), pl(0.5)), 0);
    assert_eq!(get_power(0, pl(2.0)), 0);
    // Far past any trainer: saturates at the i16 ceiling.
    assert_eq!(get_power(u32::MAX, u32::MAX), i16::MAX);
}

#[test]
fn skip_inside_interval_uses_half_interval_remainder() {
    let file = workout_of(vec![WorkoutSteps::IntervalsT(IntervalsT {
        repeat: 2,
        on_duration: 60,
        off_duration: 120,
        on_power: pl(1.0),
        off_power: pl(0.5),
        current_interval: 0,
    })]);
    let mut engine = ZwoWorkout::new(file, ftp(200.0), 0).expect("workout starts");
    assert_eq!(engine.workout_state.total_workout_duration, 360);
    engine.next_command(0);
    engine.workout_state.update_ts(10);
    // 50 s of the 60 s work half are unspent.
    engine.skip_step();
    assert_eq!(engine.workout_state.total_workout_duration, 310);
}

#[test]
fn tracker_state_numbers_steps_from_one() {
    let file = workout_of(vec![
        WorkoutSteps::SteadyState(SteadyState {
            duration: 10,
            power: pl(0.5),
        }),
        WorkoutSteps::SteadyState(SteadyState {
            duration: 20,
            power: pl(1.0),
        }),
    ]);
    let state = WorkoutState::new(&file, ftp(200.0), 0);
    assert_eq!(state.current_step_number, 1);
    assert_eq!(state.total_steps, 2);
    assert_eq!(state.total_workout_duration, 30);
    assert_eq!(state.current_power_set, 0);
    assert!(state.next_step.is_some());
}
