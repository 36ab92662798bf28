//! Commands that reach the controller from the user (stdin or web socket)
//! and the commands that travel on the trainer command bus.

use vstd::prelude::*;
use vstd::string::StringSliceAdditionalSpecFns;

verus! {

/// Commands broadcast on the trainer command bus; the control task turns
/// them into Fitness Machine control-point writes.
#[derive(Debug, Clone, Copy, PartialEq, Eq, Structural)]
pub enum UserCommands {
    /// Prepare machine for new workout
    StartWorkout,
    SetResistance { resistance: u8 },
    SetTargetPower { power: i16 },
    /// Exits the application
    Exit,
}

/// Commands to control flow of the workout
#[derive(Debug, Clone, Copy, PartialEq, Eq, Structural)]
pub enum WorkoutCommands {
    Pause,
    Resume,
    SkipStep,
    Abort,
}

/// Things possible to control from the CLI
#[derive(Debug, Clone, Copy, PartialEq, Eq, Structural)]
pub enum CLIMessages {
    SetResistance { resistance: u8 },
    SetTargetPower { power: i16 },
    /// Exits the application
    Exit,
}

/// What a trimmed line of interactive input means: `S`/`s` skips the current
/// step, `Q`/`q` aborts, anything else is not a command.
pub open spec fn spec_workout_command(bytes: Seq<u8>) -> Option<WorkoutCommands> {
    if bytes.len() == 1 && (bytes[0] == 83u8 || bytes[0] == 115u8) {
        Some(WorkoutCommands::SkipStep)
    } else if bytes.len() == 1 && (bytes[0] == 81u8 || bytes[0] == 113u8) {
        Some(WorkoutCommands::Abort)
    } else {
        None
    }
}

/// Parse one trimmed line of interactive input, case-insensitively.
pub fn parse_workout_command(input: &str) -> (r: Option<WorkoutCommands>)
    ensures
        r == spec_workout_command(input.spec_bytes()),
{
    let bytes = input.as_bytes();
    if bytes.len() == 1 && (bytes[0] == 83u8 || bytes[0] == 115u8) {
        Some(WorkoutCommands::SkipStep)
    } else if bytes.len() == 1 && (bytes[0] == 81u8 || bytes[0] == 113u8) {
        Some(WorkoutCommands::Abort)
    } else {
        None
    }
}

} // verus!
