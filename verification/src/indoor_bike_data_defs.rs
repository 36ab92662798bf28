//! Data format definitions for the Fitness Machine Service (FTMS) as used
//! by an indoor bike: characteristic identifiers, feature bits, status
//! opcodes, control-point opcodes and results, and the decoded
//! indoor-bike-data record.
//!
//! Characteristics are named by their 16-bit Bluetooth SIG identifiers.

use vstd::prelude::*;

verus! {

/// GATTS service identifier of the Fitness Machine Service.
pub const SERVICE_UUID: u16 = 0x1826;

/// READ, characteristic to retrieve supported features,
/// like cadence, power measurement, etc.
pub const MACHINE_FEATURE: u16 = 0x2ACC;

/// NOTIFY, gets current speed, cadence, power, etc.
pub const INDOOR_BIKE_DATA: u16 = 0x2AD2;

/// NOTIFY: something like idle, warming up, low/high interval, fitness
/// test, cool down, manual mode.
pub const TRAINING_STATUS: u16 = 0x2AD3;

/// READ: gets supported resistance level.
pub const SUPPORTED_RESISTANCE_LEVEL: u16 = 0x2AD6;

/// READ: gets supported power range.
pub const SUPPORTED_POWER_RANGE: u16 = 0x2AD8;

/// NOTIFY, gets machine status changes.
pub const MACHINE_STATUS: u16 = 0x2ADA;

/// INDICATE, WRITE: send control messages.
pub const CONTROL_POINT: u16 = 0x2AD9;

/// Features announced in the first word of the feature characteristic.
#[derive(Debug, Clone, Copy, PartialEq, Eq, Structural)]
#[non_exhaustive]
pub enum FitnessMachineFeatures {
    AvgSpeed,
    Cadence,
    TotalDistance,
    Inclination,
    Elevation,
    Pace,
    StepCount,
    Resistance,
    StrideCount,
    ExpendedEnergy,
    HRMeasurement,
    MetabolicEquivalent,
    ElapsedTime,
    RemainingTime,
    PowerMeasurement,
    ForceOnBeltAndPowerOutputSupported,
    UserDataRetention,
}

pub const FITNESS_MACHINE_FEATURES_LEN: u32 = 17;

/// The feature announced by bit `i` of the fitness-features word.
pub open spec fn spec_fitness_feature(i: int) -> Option<FitnessMachineFeatures> {
    if i == 0 {
        Some(FitnessMachineFeatures::AvgSpeed)
    } else if i == 1 {
        Some(FitnessMachineFeatures::Cadence)
    } else if i == 2 {
        Some(FitnessMachineFeatures::TotalDistance)
    } else if i == 3 {
        Some(FitnessMachineFeatures::Inclination)
    } else if i == 4 {
        Some(FitnessMachineFeatures::Elevation)
    } else if i == 5 {
        Some(FitnessMachineFeatures::Pace)
    } else if i == 6 {
        Some(FitnessMachineFeatures::StepCount)
    } else if i == 7 {
        Some(FitnessMachineFeatures::Resistance)
    } else if i == 8 {
        Some(FitnessMachineFeatures::StrideCount)
    } else if i == 9 {
        Some(FitnessMachineFeatures::ExpendedEnergy)
    } else if i == 10 {
        Some(FitnessMachineFeatures::HRMeasurement)
    } else if i == 11 {
        Some(FitnessMachineFeatures::MetabolicEquivalent)
    } else if i == 12 {
        Some(FitnessMachineFeatures::ElapsedTime)
    } else if i == 13 {
        Some(FitnessMachineFeatures::RemainingTime)
    } else if i == 14 {
        Some(FitnessMachineFeatures::PowerMeasurement)
    } else if i == 15 {
        Some(FitnessMachineFeatures::ForceOnBeltAndPowerOutputSupported)
    } else if i == 16 {
        Some(FitnessMachineFeatures::UserDataRetention)
    } else {
        None
    }
}

impl FitnessMachineFeatures {
    /// The feature announced by bit `i` of the fitness-features word.
    pub fn from_bit_index(i: u32) -> (r: Option<FitnessMachineFeatures>)
        ensures
            r == spec_fitness_feature(i as int),
    {
        match i {
            0 => Some(FitnessMachineFeatures::AvgSpeed),
            1 => Some(FitnessMachineFeatures::Cadence),
            2 => Some(FitnessMachineFeatures::TotalDistance),
            3 => Some(FitnessMachineFeatures::Inclination),
            4 => Some(FitnessMachineFeatures::Elevation),
            5 => Some(FitnessMachineFeatures::Pace),
            6 => Some(FitnessMachineFeatures::StepCount),
            7 => Some(FitnessMachineFeatures::Resistance),
            8 => Some(FitnessMachineFeatures::StrideCount),
            9 => Some(FitnessMachineFeatures::ExpendedEnergy),
            10 => Some(FitnessMachineFeatures::HRMeasurement),
            11 => Some(FitnessMachineFeatures::MetabolicEquivalent),
            12 => Some(FitnessMachineFeatures::ElapsedTime),
            13 => Some(FitnessMachineFeatures::RemainingTime),
            14 => Some(FitnessMachineFeatures::PowerMeasurement),
            15 => Some(FitnessMachineFeatures::ForceOnBeltAndPowerOutputSupported),
            16 => Some(FitnessMachineFeatures::UserDataRetention),
            _ => None,
        }
    }
}

/// Target settings announced in the second word of the feature
/// characteristic.
#[derive(Debug, Clone, Copy, PartialEq, Eq, Structural)]
#[non_exhaustive]
pub enum TargetSettingFeatures {
    SpeedTarget,
    Inclination,
    Resistance,
    Power,
    HR,
    TargetedExpendedEnergyConfiguration,
    TargetedStepNumber,
    TargetedStrideNumber,
    TargetedDistance,
    TargetedTrainingTime,
    TargetedTimeIn2HRZones,
    TargetedTimeIn3HRZones,
    TargetedTimeIn5HRZones,
    IndoorBikeSimulation,
    WheelCircumference,
    SpinDownControl,
    TargetedCadence,
}

pub const TARGET_SETTING_FEATURES_LEN: u32 = 17;

/// The target-setting feature announced by bit `i`.
pub open spec fn spec_target_setting_feature(i: int) -> Option<TargetSettingFeatures> {
    if i == 0 {
        Some(TargetSettingFeatures::SpeedTarget)
    } else if i == 1 {
        Some(TargetSettingFeatures::Inclination)
    } else if i == 2 {
        Some(TargetSettingFeatures::Resistance)
    } else if i == 3 {
        Some(TargetSettingFeatures::Power)
    } else if i == 4 {
        Some(TargetSettingFeatures::HR)
    } else if i == 5 {
        Some(TargetSettingFeatures::TargetedExpendedEnergyConfiguration)
    } else if i == 6 {
        Some(TargetSettingFeatures::TargetedStepNumber)
    } else if i == 7 {
        Some(TargetSettingFeatures::TargetedStrideNumber)
    } else if i == 8 {
        Some(TargetSettingFeatures::TargetedDistance)
    } else if i == 9 {
        Some(TargetSettingFeatures::TargetedTrainingTime)
    } else if i == 10 {
        Some(TargetSettingFeatures::TargetedTimeIn2HRZones)
    } else if i == 11 {
        Some(TargetSettingFeatures::TargetedTimeIn3HRZones)
    } else if i == 12 {
        Some(TargetSettingFeatures::TargetedTimeIn5HRZones)
    } else if i == 13 {
        Some(TargetSettingFeatures::IndoorBikeSimulation)
    } else if i == 14 {
        Some(TargetSettingFeatures::WheelCircumference)
    } else if i == 15 {
        Some(TargetSettingFeatures::SpinDownControl)
    } else if i == 16 {
        Some(TargetSettingFeatures::TargetedCadence)
    } else {
        None
    }
}

impl TargetSettingFeatures {
    /// The target-setting feature announced by bit `i`.
    pub fn from_bit_index(i: u32) -> (r: Option<TargetSettingFeatures>)
        ensures
            r == spec_target_setting_feature(i as int),
    {
        match i {
            0 => Some(TargetSettingFeatures::SpeedTarget),
            1 => Some(TargetSettingFeatures::Inclination),
            2 => Some(TargetSettingFeatures::Resistance),
            3 => Some(TargetSettingFeatures::Power),
            4 => Some(TargetSettingFeatures::HR),
            5 => Some(TargetSettingFeatures::TargetedExpendedEnergyConfiguration),
            6 => Some(TargetSettingFeatures::TargetedStepNumber),
            7 => Some(TargetSettingFeatures::TargetedStrideNumber),
            8 => Some(TargetSettingFeatures::TargetedDistance),
            9 => Some(TargetSettingFeatures::TargetedTrainingTime),
            10 => Some(TargetSettingFeatures::TargetedTimeIn2HRZones),
            11 => Some(TargetSettingFeatures::TargetedTimeIn3HRZones),
            12 => Some(TargetSettingFeatures::TargetedTimeIn5HRZones),
            13 => Some(TargetSettingFeatures::IndoorBikeSimulation),
            14 => Some(TargetSettingFeatures::WheelCircumference),
            15 => Some(TargetSettingFeatures::SpinDownControl),
            16 => Some(TargetSettingFeatures::TargetedCadence),
            _ => None,
        }
    }
}

/// Representation of data from the Indoor Bike Data characteristic.
/// `BikeData` has different fields present, depending on the flags field.
/// Values are kept in the characteristic's own integer units:
/// speeds in 0.01 km/h, cadences in 0.1 rpm, distance in metres,
/// resistance in dimensionless units (already scaled by ten), powers in
/// watts, times in seconds.
#[derive(Debug, Clone, Copy, PartialEq, Eq, Structural)]
pub struct BikeData {
    pub inst_speed: Option<u16>,
    pub avg_speed: Option<u16>,
    pub inst_cadence: Option<u16>,
    pub avg_cadence: Option<u16>,
    pub tot_distance: Option<u32>,
    pub resistance_lvl: Option<u16>,
    pub inst_power: Option<i16>,
    pub avg_power: Option<i16>,
    pub elapsed_time: Option<u16>,
    pub remaining_time: Option<u16>,
}

impl Default for BikeData {
    /// A record with every field absent.
    fn default() -> (d: BikeData)
        ensures
            d == (BikeData {
                inst_speed: None,
                avg_speed: None,
                inst_cadence: None,
                avg_cadence: None,
                tot_distance: None,
                resistance_lvl: None,
                inst_power: None,
                avg_power: None,
                elapsed_time: None,
                remaining_time: None,
            }),
    {
        BikeData {
            inst_speed: None,
            avg_speed: None,
            inst_cadence: None,
            avg_cadence: None,
            tot_distance: None,
            resistance_lvl: None,
            inst_power: None,
            avg_power: None,
            elapsed_time: None,
            remaining_time: None,
        }
    }
}

/// Flag bits of the Indoor Bike Data characteristic.
#[derive(Debug, Clone, Copy, PartialEq, Eq, Structural)]
pub enum BikeDataFlags {
    /// Bit 0; when clear the first field is the instantaneous speed.
    MoreData,
    AvgSpeed,
    InstCadence,
    AvgCadence,
    TotDistance,
    ResistanceLvl,
    InstPower,
    AvgPower,
    ExpendedEnergy,
    HR,
    MetabolicEquivalent,
    ElapsedTime,
    RemainingTime,
}

pub const BIKE_DATA_FLAGS_LEN: u16 = 13;

impl BikeDataFlags {
    /// The bit position of this flag in the flags field.
    pub fn bit_index(&self) -> (i: u16)
        ensures
            i == spec_bike_data_flag_bit(*self),
    {
        match self {
            BikeDataFlags::MoreData => 0,
            BikeDataFlags::AvgSpeed => 1,
            BikeDataFlags::InstCadence => 2,
            BikeDataFlags::AvgCadence => 3,
            BikeDataFlags::TotDistance => 4,
            BikeDataFlags::ResistanceLvl => 5,
            BikeDataFlags::InstPower => 6,
            BikeDataFlags::AvgPower => 7,
            BikeDataFlags::ExpendedEnergy => 8,
            BikeDataFlags::HR => 9,
            BikeDataFlags::MetabolicEquivalent => 10,
            BikeDataFlags::ElapsedTime => 11,
            BikeDataFlags::RemainingTime => 12,
        }
    }
}

/// The bit position of a flag in the flags field.
pub open spec fn spec_bike_data_flag_bit(f: BikeDataFlags) -> int {
    match f {
        BikeDataFlags::MoreData => 0,
        BikeDataFlags::AvgSpeed => 1,
        BikeDataFlags::InstCadence => 2,
        BikeDataFlags::AvgCadence => 3,
        BikeDataFlags::TotDistance => 4,
        BikeDataFlags::ResistanceLvl => 5,
        BikeDataFlags::InstPower => 6,
        BikeDataFlags::AvgPower => 7,
        BikeDataFlags::ExpendedEnergy => 8,
        BikeDataFlags::HR => 9,
        BikeDataFlags::MetabolicEquivalent => 10,
        BikeDataFlags::ElapsedTime => 11,
        BikeDataFlags::RemainingTime => 12,
    }
}

/// Machine indicates about its internal state change.
#[derive(Debug, Clone, Copy, PartialEq, Eq, Structural)]
pub enum MachineStatusOpCode {
    Reserved0,
    Reset,
    StoppedPausedByUser,
    StoppedBySafetyKey,
    StartedResumedByUser,
    TargetSpeedChanged,
    TargetInclineChanged,
    TargetResistanceChanged,
    TargetPowerChanged,
    TargetHRChanged,
    TargetedExpendedEnergyChanged,
    TargetedNumberOfStepsChanged,
    TargetedNumberOfStridesChanged,
    TargetedDistanceChanged,
    TargetedTrainingTimeChanged,
    TargetedTimeIn2HRZonesChanged,
    TargetedTimeIn3HRZonesChanged,
    TargetedTimeIn5HRZonesChanged,
    IndoorBikeSimulationParametersChanged,
    WheelCircumferenceChanged,
    SpinDownStatus,
    ControlPermissionLost,
}

/// The machine-status opcode a byte decodes to; `0x15 ..= 0xfe` are
/// reserved and decode to nothing.
pub open spec fn spec_machine_status_from(b: int) -> Option<MachineStatusOpCode> {
    if b == 0x0 {
        Some(MachineStatusOpCode::Reserved0)
    } else if b == 0x1 {
        Some(MachineStatusOpCode::Reset)
    } else if b == 0x2 {
        Some(MachineStatusOpCode::StoppedPausedByUser)
    } else if b == 0x3 {
        Some(MachineStatusOpCode::StoppedBySafetyKey)
    } else if b == 0x4 {
        Some(MachineStatusOpCode::StartedResumedByUser)
    } else if b == 0x5 {
        Some(MachineStatusOpCode::TargetSpeedChanged)
    } else if b == 0x6 {
        Some(MachineStatusOpCode::TargetInclineChanged)
    } else if b == 0x7 {
        Some(MachineStatusOpCode::TargetResistanceChanged)
    } else if b == 0x8 {
        Some(MachineStatusOpCode::TargetPowerChanged)
    } else if b == 0x9 {
        Some(MachineStatusOpCode::TargetHRChanged)
    } else if b == 0xA {
        Some(MachineStatusOpCode::TargetedExpendedEnergyChanged)
    } else if b == 0xB {
        Some(MachineStatusOpCode::TargetedNumberOfStepsChanged)
    } else if b == 0xC {
        Some(MachineStatusOpCode::TargetedNumberOfStridesChanged)
    } else if b == 0xD {
        Some(MachineStatusOpCode::TargetedDistanceChanged)
    } else if b == 0xE {
        Some(MachineStatusOpCode::TargetedTrainingTimeChanged)
    } else if b == 0xF {
        Some(MachineStatusOpCode::TargetedTimeIn2HRZonesChanged)
    } else if b == 0x10 {
        Some(MachineStatusOpCode::TargetedTimeIn3HRZonesChanged)
    } else if b == 0x11 {
        Some(MachineStatusOpCode::TargetedTimeIn5HRZonesChanged)
    } else if b == 0x12 {
        Some(MachineStatusOpCode::IndoorBikeSimulationParametersChanged)
    } else if b == 0x13 {
        Some(MachineStatusOpCode::WheelCircumferenceChanged)
    } else if b == 0x14 {
        Some(MachineStatusOpCode::SpinDownStatus)
    } else if b == 0xFF {
        Some(MachineStatusOpCode::ControlPermissionLost)
    } else {
        None
    }
}

impl MachineStatusOpCode {
    /// Decode a machine-status opcode byte.
    pub fn from_u8(b: u8) -> (r: Option<MachineStatusOpCode>)
        ensures
            r == spec_machine_status_from(b as int),
    {
        match b {
            0x0 => Some(MachineStatusOpCode::Reserved0),
            0x1 => Some(MachineStatusOpCode::Reset),
            0x2 => Some(MachineStatusOpCode::StoppedPausedByUser),
            0x3 => Some(MachineStatusOpCode::StoppedBySafetyKey),
            0x4 => Some(MachineStatusOpCode::StartedResumedByUser),
            0x5 => Some(MachineStatusOpCode::TargetSpeedChanged),
            0x6 => Some(MachineStatusOpCode::TargetInclineChanged),
            0x7 => Some(MachineStatusOpCode::TargetResistanceChanged),
            0x8 => Some(MachineStatusOpCode::TargetPowerChanged),
            0x9 => Some(MachineStatusOpCode::TargetHRChanged),
            0xA => Some(MachineStatusOpCode::TargetedExpendedEnergyChanged),
            0xB => Some(MachineStatusOpCode::TargetedNumberOfStepsChanged),
            0xC => Some(MachineStatusOpCode::TargetedNumberOfStridesChanged),
            0xD => Some(MachineStatusOpCode::TargetedDistanceChanged),
            0xE => Some(MachineStatusOpCode::TargetedTrainingTimeChanged),
            0xF => Some(MachineStatusOpCode::TargetedTimeIn2HRZonesChanged),
            0x10 => Some(MachineStatusOpCode::TargetedTimeIn3HRZonesChanged),
            0x11 => Some(MachineStatusOpCode::TargetedTimeIn5HRZonesChanged),
            0x12 => Some(MachineStatusOpCode::IndoorBikeSimulationParametersChanged),
            0x13 => Some(MachineStatusOpCode::WheelCircumferenceChanged),
            0x14 => Some(MachineStatusOpCode::SpinDownStatus),
            0xFF => Some(MachineStatusOpCode::ControlPermissionLost),
            _ => None,
        }
    }
}

/// Thing you can change using the control point, followed by a parameter.
#[derive(Debug, Clone, Copy, PartialEq, Eq, Structural)]
pub enum ControlPointOpCode {
    RequestControl,
    /// Set machine fields to default, like elapsed time to 0; sets
    /// training status to idle.
    Reset,
    SetTargetResistance,
    SetTargetPower,
    StartOrResume,
    StopOrPause,
    IndoorBikeSimulation,
    WheelCircumference,
    SpinDownControl,
}

/// The byte written on the wire for a control-point opcode.
pub open spec fn spec_cp_opcode_value(op: ControlPointOpCode) -> int {
    match op {
        ControlPointOpCode::RequestControl => 0x0,
        ControlPointOpCode::Reset => 0x1,
        ControlPointOpCode::SetTargetResistance => 0x4,
        ControlPointOpCode::SetTargetPower => 0x5,
        ControlPointOpCode::StartOrResume => 0x7,
        ControlPointOpCode::StopOrPause => 0x8,
        ControlPointOpCode::IndoorBikeSimulation => 0x11,
        ControlPointOpCode::WheelCircumference => 0x12,
        ControlPointOpCode::SpinDownControl => 0x13,
    }
}

/// The control-point opcode a byte decodes to.
pub open spec fn spec_cp_opcode_from(b: int) -> Option<ControlPointOpCode> {
    if b == 0x0 {
        Some(ControlPointOpCode::RequestControl)
    } else if b == 0x1 {
        Some(ControlPointOpCode::Reset)
    } else if b == 0x4 {
        Some(ControlPointOpCode::SetTargetResistance)
    } else if b == 0x5 {
        Some(ControlPointOpCode::SetTargetPower)
    } else if b == 0x7 {
        Some(ControlPointOpCode::StartOrResume)
    } else if b == 0x8 {
        Some(ControlPointOpCode::StopOrPause)
    } else if b == 0x11 {
        Some(ControlPointOpCode::IndoorBikeSimulation)
    } else if b == 0x12 {
        Some(ControlPointOpCode::WheelCircumference)
    } else if b == 0x13 {
        Some(ControlPointOpCode::SpinDownControl)
    } else {
        None
    }
}

impl ControlPointOpCode {
    /// The byte written on the wire for this opcode.
    pub fn to_u8(&self) -> (b: u8)
        ensures
            b == spec_cp_opcode_value(*self),
    {
        match self {
            ControlPointOpCode::RequestControl => 0x0,
            ControlPointOpCode::Reset => 0x1,
            ControlPointOpCode::SetTargetResistance => 0x4,
            ControlPointOpCode::SetTargetPower => 0x5,
            ControlPointOpCode::StartOrResume => 0x7,
            ControlPointOpCode::StopOrPause => 0x8,
            ControlPointOpCode::IndoorBikeSimulation => 0x11,
            ControlPointOpCode::WheelCircumference => 0x12,
            ControlPointOpCode::SpinDownControl => 0x13,
        }
    }

    /// Decode a control-point opcode byte.
    pub fn from_u8(b: u8) -> (r: Option<ControlPointOpCode>)
        ensures
            r == spec_cp_opcode_from(b as int),
    {
        match b {
            0x0 => Some(ControlPointOpCode::RequestControl),
            0x1 => Some(ControlPointOpCode::Reset),
            0x4 => Some(ControlPointOpCode::SetTargetResistance),
            0x5 => Some(ControlPointOpCode::SetTargetPower),
            0x7 => Some(ControlPointOpCode::StartOrResume),
            0x8 => Some(ControlPointOpCode::StopOrPause),
            0x11 => Some(ControlPointOpCode::IndoorBikeSimulation),
            0x12 => Some(ControlPointOpCode::WheelCircumference),
            0x13 => Some(ControlPointOpCode::SpinDownControl),
            _ => None,
        }
    }
}

/// The control point sends an indication as a response to a write request,
/// with a given status.
#[derive(Debug, Clone, Copy, PartialEq, Eq, Structural)]
pub enum ControlPointResult {
    Reserved0,
    Success,
    OpCodeNotSupported,
    InvalidParam,
    OperationFailed,
    ControlNotPermitted,
}

/// The control-point result a status byte decodes to; `0x06 ..= 0xff` are
/// reserved.
pub open spec fn spec_cp_result_from(b: int) -> Option<ControlPointResult> {
    if b == 0x0 {
        Some(ControlPointResult::Reserved0)
    } else if b == 0x1 {
        Some(ControlPointResult::Success)
    } else if b == 0x2 {
        Some(ControlPointResult::OpCodeNotSupported)
    } else if b == 0x3 {
        Some(ControlPointResult::InvalidParam)
    } else if b == 0x4 {
        Some(ControlPointResult::OperationFailed)
    } else if b == 0x5 {
        Some(ControlPointResult::ControlNotPermitted)
    } else {
        None
    }
}

impl ControlPointResult {
    /// Decode a control-point status byte.
    pub fn from_u8(b: u8) -> (r: Option<ControlPointResult>)
        ensures
            r == spec_cp_result_from(b as int),
    {
        match b {
            0x0 => Some(ControlPointResult::Reserved0),
            0x1 => Some(ControlPointResult::Success),
            0x2 => Some(ControlPointResult::OpCodeNotSupported),
            0x3 => Some(ControlPointResult::InvalidParam),
            0x4 => Some(ControlPointResult::OperationFailed),
            0x5 => Some(ControlPointResult::ControlNotPermitted),
            _ => None,
        }
    }
}

/// Data that is returned by a control-point indication.
/// It's a response to the write request that happened prior to it.
#[derive(Debug, Clone, Copy, PartialEq, Eq, Structural)]
pub struct ControlPointNotificationData {
    pub request_op_code: ControlPointOpCode,
    pub request_status: ControlPointResult,
}

/// Struct holding the supported range of values to set for a given
/// characteristic.
#[derive(Debug, Clone, Copy, PartialEq, Eq, Structural)]
pub struct Range<T, S = T> {
    pub min: T,
    pub max: T,
    pub step: S,
}

impl Range<i16, u16> {
    /// Whether `value` lies between `min` and `max` inclusive.
    pub fn in_range(&self, value: i16) -> (r: bool)
        ensures
            r == (self.min <= value && value <= self.max),
    {
        value >= self.min && value <= self.max
    }
}

impl Range<i64, i64> {
    /// Whether `value` lies between `min` and `max` inclusive.
    pub fn in_range(&self, value: i64) -> (r: bool)
        ensures
            r == (self.min <= value && value <= self.max),
    {
        value >= self.min && value <= self.max
    }
}

} // verus!
