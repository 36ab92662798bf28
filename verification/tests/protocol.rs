//! Fitness Machine wire codec and control-point session behaviour, plus
//! the companion file service.

use zwo_trainer::bk_gatts_service::{parse_file_entry, parse_file_list, FileTransfer};
use zwo_trainer::cli::UserCommands;
use zwo_trainer::indoor_bike_client::{
    clamp_to_power_range, handle_bike_data_notification, handle_control_point_notification,
    handle_machine_status_notification, parse_features, parse_power_range,
    parse_resistance_range, request_control_frame, reset_frame, set_power_frame,
    set_target_power_frame, CommandError, DecodeError,
};
use zwo_trainer::indoor_bike_data_defs::{
    ControlPointOpCode, ControlPointResult, FitnessMachineFeatures, MachineStatusOpCode, Range,
    TargetSettingFeatures,
};
use zwo_trainer::router::{ControlAction, ControlPointSession};

#[test]
fn synthesized_bike_data_packet_decodes() {
    // flags = 0x0046: bits 1 (avg speed), 2 (inst cadence), 6 (inst power)
    // set, bit 0 clear; inst_speed = 2500, avg_speed = 2400,
    // inst_cadence = 900, inst_power = 250.
    let packet: [u8; 10] = [
        0x46, 0x00, // flags
        0xC4, 0x09, // inst_speed 2500
        0x60, 0x09, // avg_speed 2400
        0x84, 0x03, // inst_cadence 900
        0xFA, 0x00, // inst_power 250
    ];
    let data = handle_bike_data_notification(&packet).expect("packet decodes");
    assert_eq!(data.inst_speed, Some(2500));
    assert_eq!(data.avg_speed, Some(2400));
    assert_eq!(data.inst_cadence, Some(900));
    assert_eq!(data.inst_power, Some(250));
    assert_eq!(data.avg_cadence, None);
    assert_eq!(data.tot_distance, None);
    assert_eq!(data.resistance_lvl, None);
    assert_eq!(data.avg_power, None);
    assert_eq!(data.elapsed_time, None);
    assert_eq!(data.remaining_time, None);
    // The characteristic's units: 0.01 km/h, 0.1 rpm, watts.
    assert_eq!(data.inst_speed.unwrap() as f64 * 0.01, 25.00);
    assert_eq!(data.avg_speed.unwrap() as f64 * 0.01, 24.00);
    assert_eq!(data.inst_cadence.unwrap() as f64 * 0.1, 90.0);
}

#[test]
fn bike_data_with_every_supported_field_decodes() {
    // Bits 1-7, 11 and 12 set: flags = 0x18FE.
    let packet: [u8; 22] = [
        0xFE, 0x18, // flags
        0x10, 0x27, // inst_speed 10000
        0x20, 0x4E, // avg_speed 20000
        0x2C, 0x01, // inst_cadence 300
        0x90, 0x01, // avg_cadence 400
        0x40, 0x42, 0x0F, // tot_distance 1_000_000
        0x19, // resistance 25 (value 250 after the x10 scaling)
        0x2C, 0x01, // inst_power 300
        0xFE, 0xFF, // avg_power -2
        0x3C, 0x00, // elapsed 60
        0x84, 0x03, // remaining 900
    ];
    let data = handle_bike_data_notification(&packet).expect("packet decodes");
    assert_eq!(data.inst_speed, Some(10000));
    assert_eq!(data.avg_speed, Some(20000));
    assert_eq!(data.inst_cadence, Some(300));
    assert_eq!(data.avg_cadence, Some(400));
    assert_eq!(data.tot_distance, Some(1_000_000));
    assert_eq!(data.resistance_lvl, Some(250));
    assert_eq!(data.inst_power, Some(300));
    assert_eq!(data.avg_power, Some(-2));
    assert_eq!(data.elapsed_time, Some(60));
    assert_eq!(data.remaining_time, Some(900));
}

#[test]
fn bike_data_continuation_packets_are_rejected() {
    // Bit 0 set marks a continuation, which the driver does not support.
    let packet: [u8; 4] = [0x01, 0x00, 0x00, 0x00];
    assert_eq!(
        handle_bike_data_notification(&packet),
        Err(DecodeError::ContinuationNotSupported)
    );
}

#[test]
fn bike_data_unsupported_fields_are_rejected() {
    // Bit 8 (expended energy) is not implemented.
    let packet: [u8; 4] = [0x00, 0x01, 0x00, 0x00];
    assert_eq!(
        handle_bike_data_notification(&packet),
        Err(DecodeError::UnsupportedField)
    );
}

#[test]
fn bike_data_length_must_match_flags() {
    // Flags announce only the speed (4 bytes in all), but 5 arrive.
    let long: [u8; 5] = [0x00, 0x00, 0x10, 0x27, 0x00];
    assert_eq!(
        handle_bike_data_notification(&long),
        Err(DecodeError::LengthMismatch)
    );
    // Announced inst_power (bit 6) missing from the tail.
    let short: [u8; 4] = [0x40, 0x00, 0x10, 0x27];
    assert_eq!(
        handle_bike_data_notification(&short),
        Err(DecodeError::LengthMismatch)
    );
    let tiny: [u8; 1] = [0x00];
    assert_eq!(
        handle_bike_data_notification(&tiny),
        Err(DecodeError::TooShort)
    );
}

#[test]
fn control_point_indications_decode() {
    let ok: [u8; 3] = [0x80, 0x05, 0x01];
    let data = handle_control_point_notification(&ok).expect("indication decodes");
    assert_eq!(data.request_op_code, ControlPointOpCode::SetTargetPower);
    assert_eq!(data.request_status, ControlPointResult::Success);

    let nack: [u8; 3] = [0x80, 0x00, 0x05];
    let data = handle_control_point_notification(&nack).expect("indication decodes");
    assert_eq!(data.request_op_code, ControlPointOpCode::RequestControl);
    assert_eq!(data.request_status, ControlPointResult::ControlNotPermitted);

    // Response parameters after the status byte are allowed and ignored.
    let with_params: [u8; 5] = [0x80, 0x07, 0x01, 0xAA, 0xBB];
    let data = handle_control_point_notification(&with_params).expect("indication decodes");
    assert_eq!(data.request_op_code, ControlPointOpCode::StartOrResume);
    assert_eq!(data.request_status, ControlPointResult::Success);

    assert_eq!(
        handle_control_point_notification(&[0x80, 0x05]),
        Err(DecodeError::TooShort)
    );
    assert_eq!(
        handle_control_point_notification(&[0x81, 0x05, 0x01]),
        Err(DecodeError::UnexpectedIndicationHeader)
    );
    assert_eq!(
        handle_control_point_notification(&[0x80, 0x99, 0x01]),
        Err(DecodeError::UnknownOpCode)
    );
    assert_eq!(
        handle_control_point_notification(&[0x80, 0x05, 0x09]),
        Err(DecodeError::UnknownResult)
    );
}

#[test]
fn machine_status_notifications_decode() {
    assert_eq!(
        handle_machine_status_notification(&[0x08]),
        Ok(MachineStatusOpCode::TargetPowerChanged)
    );
    assert_eq!(
        handle_machine_status_notification(&[0xFF, 0x00]),
        Ok(MachineStatusOpCode::ControlPermissionLost)
    );
    assert_eq!(
        handle_machine_status_notification(&[]),
        Err(DecodeError::TooShort)
    );
    assert_eq!(
        handle_machine_status_notification(&[0x50]),
        Err(DecodeError::UnknownOpCode)
    );
}

#[test]
fn feature_words_decode_little_endian() {
    let raw: [u8; 8] = [0x03, 0x40, 0x00, 0x00, 0x08, 0x00, 0x00, 0x00];
    let (fitness, target) = parse_features(&raw).expect("features decode");
    assert_eq!(fitness, 0x4003);
    assert_eq!(target, 0x8);
    assert_eq!(
        parse_features(&raw[..7]),
        Err(DecodeError::LengthMismatch)
    );
    assert_eq!(
        FitnessMachineFeatures::from_bit_index(14),
        Some(FitnessMachineFeatures::PowerMeasurement)
    );
    assert_eq!(
        TargetSettingFeatures::from_bit_index(3),
        Some(TargetSettingFeatures::Power)
    );
    assert_eq!(FitnessMachineFeatures::from_bit_index(17), None);
}

#[test]
fn power_range_decodes_and_validates() {
    // min 0 W, max 300 W, step 1 W.
    let raw: [u8; 6] = [0x00, 0x00, 0x2C, 0x01, 0x01, 0x00];
    let range = parse_power_range(&raw).expect("range decodes");
    assert_eq!(range.min, 0);
    assert_eq!(range.max, 300);
    assert_eq!(range.step, 1);
    assert!(range.in_range(0));
    assert!(range.in_range(300));
    assert!(!range.in_range(-1));
    assert!(!range.in_range(301));
    assert_eq!(
        parse_power_range(&raw[..5]),
        Err(DecodeError::LengthMismatch)
    );
}

#[test]
fn resistance_range_scales_by_ten() {
    let raw: [u8; 6] = [0x0A, 0x00, 0x64, 0x00, 0x01, 0x00];
    let range = parse_resistance_range(&raw).expect("range decodes");
    assert_eq!(range.min, 100);
    assert_eq!(range.max, 1000);
    assert_eq!(range.step, 10);
}

#[test]
fn out_of_range_power_writes_nothing() {
    let range = Range::<i16, u16> {
        min: 0,
        max: 300,
        step: 1,
    };
    assert_eq!(set_power_frame(350, &range), Err(CommandError::OutOfRange));
    // At the boundaries the frame goes out.
    let frame = set_power_frame(300, &range).expect("within range");
    assert_eq!(frame, vec![0x05, 0x2C, 0x01]);
    let frame = set_power_frame(0, &range).expect("within range");
    assert_eq!(frame, vec![0x05, 0x00, 0x00]);
}

#[test]
fn control_point_frames_are_byte_exact() {
    assert_eq!(request_control_frame(), vec![0x00]);
    assert_eq!(reset_frame(), vec![0x01]);
    assert_eq!(set_target_power_frame(-100), vec![0x05, 0x9C, 0xFF]);
    assert_eq!(set_target_power_frame(0x1234), vec![0x05, 0x34, 0x12]);
}

#[test]
fn clamping_keeps_watts_in_the_supported_range() {
    let range = Range::<i16, u16> {
        min: 0,
        max: 300,
        step: 1,
    };
    assert_eq!(clamp_to_power_range(350, &range), 300);
    assert_eq!(clamp_to_power_range(-10, &range), 0);
    assert_eq!(clamp_to_power_range(150, &range), 150);
}

#[test]
fn session_serializes_control_point_round_trips() {
    let range = Range::<i16, u16> {
        min: 0,
        max: 300,
        step: 1,
    };
    let mut session = ControlPointSession::new();

    // A write is followed by exactly one indication before the next write.
    let action = session.handle_command(&UserCommands::SetTargetPower { power: 150 }, &range);
    match action {
        ControlAction::Write(frame) => assert_eq!(frame, vec![0x05, 0x96, 0x00]),
        other => panic!("expected a write, got {other:?}"),
    }
    assert!(session.awaiting.is_some());

    let ack = session.handle_indication(&handle_control_point_notification(&[0x80, 0x05, 0x01]).unwrap());
    assert!(ack);
    assert!(session.awaiting.is_none());

    // A NACK is reported but the session continues.
    session.handle_command(&UserCommands::StartWorkout, &range);
    let ack = session.handle_indication(&handle_control_point_notification(&[0x80, 0x01, 0x04]).unwrap());
    assert!(!ack);

    // A rejected command leaves nothing outstanding.
    let action = session.handle_command(&UserCommands::SetTargetPower { power: 350 }, &range);
    assert_eq!(action, ControlAction::Rejected);
    assert!(session.awaiting.is_none());

    let action = session.handle_command(&UserCommands::Exit, &range);
    assert_eq!(action, ControlAction::Stop);
    assert!(session.finished);
}

#[test]
fn file_listing_parses_names_and_sizes() {
    let files = parse_file_list("ride1.fit, 1024\ntour.gpx, 20480").expect("listing parses");
    assert_eq!(files.len(), 2);
    assert_eq!(files[0].id, 0);
    assert_eq!(files[0].filename, "ride1.fit");
    assert_eq!(files[0].size, 1024);
    assert_eq!(files[1].id, 1);
    assert_eq!(files[1].filename, "tour.gpx");
    assert_eq!(files[1].size, 20480);

    // A trailing newline closes the last line instead of opening a new one.
    let files = parse_file_list("a, 7\n").expect("listing parses");
    assert_eq!(files.len(), 1);
    assert_eq!(files[0].filename, "a");
    assert_eq!(files[0].size, 7);

    // An empty listing holds no files.
    assert_eq!(parse_file_list("").unwrap().len(), 0);

    assert!(parse_file_list("no separator here").is_err());
    assert!(parse_file_list("name, 12x4").is_err());
    assert!(parse_file_list("name, ").is_err());
    assert!(parse_file_list("name, 99999999999999999999999999").is_err());
}

#[test]
fn file_entry_splits_at_first_separator() {
    let entry = parse_file_entry("ride, 44", 3).expect("entry parses");
    assert_eq!(entry.filename, "ride");
    assert_eq!(entry.size, 44);
    assert_eq!(entry.id, 3);
    // Everything after the first separator must be all digits, so a name
    // containing the separator cannot parse.
    assert!(parse_file_entry("a, b, 7", 0).is_none());
    assert_eq!(parse_file_entry("zeros, 007", 0).unwrap().size, 7);
}

#[test]
fn file_transfer_assembles_chunks_in_order() {
    let mut transfer = FileTransfer::new(5);
    assert!(!transfer.is_complete());
    transfer.push_chunk(&[1, 2]);
    assert!(!transfer.is_complete());
    transfer.push_chunk(&[3, 4, 5]);
    assert!(transfer.is_complete());
    assert_eq!(transfer.data, vec![1, 2, 3, 4, 5]);
}
