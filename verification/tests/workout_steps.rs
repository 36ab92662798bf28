//! Step iterator behaviour: one test per step kind, plus boundaries.
//!
//! Power levels are integers in hundredths of the FTP base; `pl` converts
//! the conventional fractional notation.

use zwo_trainer::zwo_workout_file::{
    Cooldown, FreeRide, IntervalsT, PowerDuration, Ramp, SteadyState, Warmup, WorkoutSteps,
};

/// A power level in hundredths.
fn pl(level: f64) -> u32 {
    (level * 100.0).round() as u32
}

#[test]
fn zwo_workout_file_warmup_works() {
    let mut w = Warmup {
        duration: 4,
        power_low: pl(0.0),
        power_high: pl(100.0),
        emitted: 0,
    };

    assert_eq!(
        w.advance(),
        Some(PowerDuration {
            duration: 1,
            power_level: pl(0.0)
        })
    );
    assert_eq!(
        w.advance(),
        Some(PowerDuration {
            duration: 1,
            power_level: pl(25.0)
        })
    );
    assert_eq!(
        w.advance(),
        Some(PowerDuration {
            duration: 1,
            power_level: pl(50.0)
        })
    );
    assert_eq!(
        w.advance(),
        Some(PowerDuration {
            duration: 1,
            power_level: pl(75.0)
        })
    );
    // note no power level 100, that's the result of quantization.
    assert_eq!(w.advance(), None);
}

#[test]
fn zwo_workout_file_ramp_works() {
    let mut w = Ramp {
        duration: 4,
        power_low: pl(0.0),
        power_high: pl(100.0),
        emitted: 0,
    };

    assert_eq!(
        w.advance(),
        Some(PowerDuration {
            duration: 1,
            power_level: pl(0.0)
        })
    );
    assert_eq!(
        w.advance(),
        Some(PowerDuration {
            duration: 1,
            power_level: pl(25.0)
        })
    );
    assert_eq!(
        w.advance(),
        Some(PowerDuration {
            duration: 1,
            power_level: pl(50.0)
        })
    );
    assert_eq!(
        w.advance(),
        Some(PowerDuration {
            duration: 1,
            power_level: pl(75.0)
        })
    );
    assert_eq!(w.advance(), None);
}

#[test]
fn zwo_workout_file_cooldown_works() {
    let mut w = Cooldown {
        duration: 4,
        power_low: pl(100.0),
        power_high: pl(0.0),
        emitted: 0,
    };

    assert_eq!(
        w.advance(),
        Some(PowerDuration {
            duration: 1,
            power_level: pl(100.0)
        })
    );
    assert_eq!(
        w.advance(),
        Some(PowerDuration {
            duration: 1,
            power_level: pl(75.0)
        })
    );
    assert_eq!(
        w.advance(),
        Some(PowerDuration {
            duration: 1,
            power_level: pl(50.0)
        })
    );
    assert_eq!(
        w.advance(),
        Some(PowerDuration {
            duration: 1,
            power_level: pl(25.0)
        })
    );
    // note no power level 0, that's the result of quantization.
    assert_eq!(w.advance(), None);
}

#[test]
fn zwo_workout_file_steady_works() {
    let mut w = SteadyState {
        duration: 4,
        power: pl(1.23),
    };

    assert_eq!(
        w.advance(),
        Some(PowerDuration {
            duration: 4,
            power_level: pl(1.23)
        })
    );
    assert_eq!(w.advance(), None);
}

#[test]
fn zwo_workout_file_free_ride_works() {
    let mut w = FreeRide {
        duration: 4,
        flat_road: pl(1.0),
    };

    assert_eq!(
        w.advance(),
        Some(PowerDuration {
            duration: 4,
            power_level: pl(0.0)
        })
    );
    assert_eq!(w.advance(), None);
}

#[test]
fn zwo_workout_file_intervals_t_works() {
    let mut w = IntervalsT {
        repeat: 3,
        on_duration: 10,
        off_duration: 20,
        on_power: pl(80.0),
        off_power: pl(150.0),
        current_interval: 0,
    };

    assert_eq!(
        w.advance(),
        Some(PowerDuration {
            duration: 10,
            power_level: pl(80.0)
        })
    );
    assert_eq!(
        w.advance(),
        Some(PowerDuration {
            duration: 20,
            power_level: pl(150.0)
        })
    );
    assert_eq!(
        w.advance(),
        Some(PowerDuration {
            duration: 10,
            power_level: pl(80.0)
        })
    );
    assert_eq!(
        w.advance(),
        Some(PowerDuration {
            duration: 20,
            power_level: pl(150.0)
        })
    );
    assert_eq!(
        w.advance(),
        Some(PowerDuration {
            duration: 10,
            power_level: pl(80.0)
        })
    );
    assert_eq!(
        w.advance(),
        Some(PowerDuration {
            duration: 20,
            power_level: pl(150.0)
        })
    );
    assert_eq!(w.advance(), None);
}

#[test]
fn zwo_workout_steps_warmup_works() {
    let mut w = WorkoutSteps::Warmup(Warmup {
        duration: 4,
        power_low: pl(0.0),
        power_high: pl(100.0),
        emitted: 0,
    });

    let expected = [pl(0.0), pl(25.0), pl(50.0), pl(75.0)];
    for level in expected {
        assert_eq!(
            w.advance(),
            Some(PowerDuration {
                duration: 1,
                power_level: level
            })
        );
    }
    assert_eq!(w.advance(), None);
}

#[test]
fn zwo_workout_steps_ramp_works() {
    let mut w = WorkoutSteps::Ramp(Ramp {
        duration: 4,
        power_low: pl(0.0),
        power_high: pl(100.0),
        emitted: 0,
    });

    let expected = [pl(0.0), pl(25.0), pl(50.0), pl(75.0)];
    for level in expected {
        assert_eq!(
            w.advance(),
            Some(PowerDuration {
                duration: 1,
                power_level: level
            })
        );
    }
    assert_eq!(w.advance(), None);
}

#[test]
fn zwo_workout_steps_cooldown_works() {
    let mut w = WorkoutSteps::Cooldown(Cooldown {
        duration: 4,
        power_low: pl(100.0),
        power_high: pl(0.0),
        emitted: 0,
    });

    let expected = [pl(100.0), pl(75.0), pl(50.0), pl(25.0)];
    for level in expected {
        assert_eq!(
            w.advance(),
            Some(PowerDuration {
                duration: 1,
                power_level: level
            })
        );
    }
    assert_eq!(w.advance(), None);
}

#[test]
fn zwo_workout_steps_steady_works() {
    let mut w = WorkoutSteps::SteadyState(SteadyState {
        duration: 4,
        power: pl(1.23),
    });

    assert_eq!(
        w.advance(),
        Some(PowerDuration {
            duration: 4,
            power_level: pl(1.23)
        })
    );
    assert_eq!(w.advance(), None);
}

#[test]
fn zwo_workout_steps_free_ride_works() {
    let mut w = WorkoutSteps::FreeRide(FreeRide {
        duration: 4,
        flat_road: pl(1.0),
    });

    assert_eq!(
        w.advance(),
        Some(PowerDuration {
            duration: 4,
            power_level: pl(0.0)
        })
    );
    assert_eq!(w.advance(), None);
}

#[test]
fn zwo_workout_steps_intervals_t_works() {
    let mut w = WorkoutSteps::IntervalsT(IntervalsT {
        repeat: 3,
        on_duration: 10,
        off_duration: 20,
        on_power: pl(80.0),
        off_power: pl(150.0),
        current_interval: 0,
    });

    for _ in 0..3 {
        assert_eq!(
            w.advance(),
            Some(PowerDuration {
                duration: 10,
                power_level: pl(80.0)
            })
        );
        assert_eq!(
            w.advance(),
            Some(PowerDuration {
                duration: 20,
                power_level: pl(150.0)
            })
        );
    }
    assert_eq!(w.advance(), None);
}

#[test]
fn one_second_ramp_emits_once() {
    let mut w = Warmup {
        duration: 1,
        power_low: pl(0.5),
        power_high: pl(1.0),
        emitted: 0,
    };
    assert_eq!(
        w.advance(),
        Some(PowerDuration {
            duration: 1,
            power_level: pl(0.5)
        })
    );
    assert_eq!(w.advance(), None);
}

#[test]
fn intervals_with_zero_repeat_emit_nothing() {
    let mut w = IntervalsT {
        repeat: 0,
        on_duration: 60,
        off_duration: 120,
        on_power: pl(1.0),
        off_power: pl(0.5),
        current_interval: 0,
    };
    assert_eq!(w.advance(), None);
    assert_eq!(w.advance(), None);
}

#[test]
fn skip_exhausts_every_plain_step() {
    let mut w = WorkoutSteps::Warmup(Warmup {
        duration: 100,
        power_low: pl(0.5),
        power_high: pl(1.0),
        emitted: 0,
    });
    w.skip();
    assert_eq!(w.advance(), None);

    let mut s = WorkoutSteps::SteadyState(SteadyState {
        duration: 100,
        power: pl(0.8),
    });
    s.skip();
    assert_eq!(s.advance(), None);
}

#[test]
fn skip_leaves_intervals_running() {
    let mut w = WorkoutSteps::IntervalsT(IntervalsT {
        repeat: 1,
        on_duration: 10,
        off_duration: 20,
        on_power: pl(1.0),
        off_power: pl(0.5),
        current_interval: 0,
    });
    // Skipping an intervals step drops only the current half-interval,
    // which the engine does by re-arming its timer; the step itself keeps
    // emitting.
    w.skip();
    assert_eq!(
        w.advance(),
        Some(PowerDuration {
            duration: 10,
            power_level: pl(1.0)
        })
    );
    assert_eq!(
        w.advance(),
        Some(PowerDuration {
            duration: 20,
            power_level: pl(0.5)
        })
    );
    assert_eq!(w.advance(), None);
}

#[test]
fn step_duration_counts_whole_intervals() {
    let step = WorkoutSteps::IntervalsT(IntervalsT {
        repeat: 2,
        on_duration: 60,
        off_duration: 120,
        on_power: pl(1.0),
        off_power: pl(0.5),
        current_interval: 0,
    });
    assert_eq!(step.get_step_duration(), 360);

    let ramp = WorkoutSteps::Ramp(Ramp {
        duration: 45,
        power_low: pl(0.4),
        power_high: pl(0.9),
        emitted: 0,
    });
    assert_eq!(ramp.get_step_duration(), 45);
}

#[test]
fn emitted_durations_sum_to_step_duration() {
    // The durations a step emits add up to its planned duration.
    let mut step = WorkoutSteps::IntervalsT(IntervalsT {
        repeat: 3,
        on_duration: 10,
        off_duration: 20,
        on_power: pl(80.0),
        off_power: pl(150.0),
        current_interval: 0,
    });
    let planned = step.get_step_duration();
    let mut total = 0u64;
    let mut count = 0u64;
    while let Some(pd) = step.advance() {
        total += pd.duration;
        count += 1;
    }
    assert_eq!(total, planned);
    assert_eq!(count, 6);
}
