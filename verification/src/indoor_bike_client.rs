//! Verified wire codec of the Fitness Machine driver: decoding of the
//! notification characteristics (indoor bike data, machine status,
//! control-point indications), of the feature and range characteristics,
//! and framing of control-point write requests.  Byte order on the wire is
//! little-endian throughout.

use vstd::prelude::*;

use crate::indoor_bike_data_defs::{
    spec_cp_opcode_from, spec_cp_result_from, spec_machine_status_from, BikeData,
    ControlPointNotificationData, MachineStatusOpCode, Range,
};

verus! {

/// Why a received notification or characteristic value cannot be decoded,
/// or a command cannot be issued.
#[derive(Debug, Clone, Copy, PartialEq, Eq, Structural)]
pub enum DecodeError {
    /// Fewer bytes than the fixed part of the layout needs.
    TooShort,
    /// The value's length does not match its declared layout.
    LengthMismatch,
    /// Bit 0 of the indoor-bike-data flags: a continuation packet.
    ContinuationNotSupported,
    /// A set flag bit whose field this driver does not implement.
    UnsupportedField,
    /// A control-point indication that does not start with `0x80`.
    UnexpectedIndicationHeader,
    /// An opcode byte outside the known set.
    UnknownOpCode,
    /// A control-point status byte outside the known set.
    UnknownResult,
}

/// A target-power command that the driver refuses to send.
#[derive(Debug, Clone, Copy, PartialEq, Eq, Structural)]
pub enum CommandError {
    /// The requested power lies outside the trainer's supported range.
    OutOfRange,
}

/// `2^e` for `e >= 0`.
pub open spec fn pow2(e: int) -> int
    decreases e,
{
    if e <= 0 {
        1
    } else {
        2 * pow2(e - 1)
    }
}

/// Whether bit `bit` of `flags` is set.
pub open spec fn flag_set(flags: int, bit: int) -> bool {
    (flags / pow2(bit)) % 2 == 1
}

/// Little-endian readings of the wire bytes.
pub open spec fn le_u16(b: Seq<u8>, i: int) -> int {
    b[i] + 0x100 * b[i + 1]
}

pub open spec fn le_u24(b: Seq<u8>, i: int) -> int {
    b[i] + 0x100 * b[i + 1] + 0x10000 * b[i + 2]
}

pub open spec fn le_u32(b: Seq<u8>, i: int) -> int {
    b[i] + 0x100 * b[i + 1] + 0x10000 * b[i + 2] + 0x1000000 * b[i + 3]
}

/// Two's-complement signed reading of two little-endian bytes.
pub open spec fn le_i16(b: Seq<u8>, i: int) -> int {
    if le_u16(b, i) >= 0x8000 {
        le_u16(b, i) - 0x10000
    } else {
        le_u16(b, i)
    }
}

/// Read an unsigned 16-bit little-endian value.
pub fn read_u16_le(data: &[u8], offset: usize) -> (v: u16)
    requires
        offset + 2 <= data@.len(),
    ensures
        v as int == le_u16(data@, offset as int),
{
    (data[offset] as u16) + 0x100 * (data[offset + 1] as u16)
}

/// Read an unsigned 24-bit little-endian value.
pub fn read_u24_le(data: &[u8], offset: usize) -> (v: u32)
    requires
        offset + 3 <= data@.len(),
    ensures
        v as int == le_u24(data@, offset as int),
{
    (data[offset] as u32) + 0x100 * (data[offset + 1] as u32) + 0x10000 * (
    data[offset + 2] as u32)
}

/// Read an unsigned 32-bit little-endian value.
pub fn read_u32_le(data: &[u8], offset: usize) -> (v: u32)
    requires
        offset + 4 <= data@.len(),
    ensures
        v as int == le_u32(data@, offset as int),
{
    (data[offset] as u32) + 0x100 * (data[offset + 1] as u32) + 0x10000 * (
    data[offset + 2] as u32) + 0x1000000 * (data[offset + 3] as u32)
}

/// Read a signed 16-bit little-endian value.
pub fn read_i16_le(data: &[u8], offset: usize) -> (v: i16)
    requires
        offset + 2 <= data@.len(),
    ensures
        v as int == le_i16(data@, offset as int),
{
    let u = read_u16_le(data, offset);
    if u >= 0x8000 {
        ((u as i32) - 0x10000) as i16
    } else {
        u as i16
    }
}

/// `2^bit` as an executable value.
fn pow2_u16(bit: u16) -> (p: u16)
    requires
        bit < 16,
    ensures
        p as int == pow2(bit as int),
        p > 0,
{
    proof {
        reveal_with_fuel(pow2, 17);
    }
    match bit {
        0 => 1,
        1 => 2,
        2 => 4,
        3 => 8,
        4 => 16,
        5 => 32,
        6 => 64,
        7 => 128,
        8 => 256,
        9 => 512,
        10 => 1024,
        11 => 2048,
        12 => 4096,
        13 => 8192,
        14 => 16384,
        _ => 32768,
    }
}

/// Whether bit `bit` of `flags` is set.
pub fn flag_set_exec(flags: u16, bit: u16) -> (b: bool)
    requires
        bit < 16,
    ensures
        b == flag_set(flags as int, bit as int),
{
    let p = pow2_u16(bit);
    (flags / p) % 2 == 1
}

/// The wire size of the indoor-bike-data field gated by flag bit `bit`
/// (bits whose fields this driver does not implement are never read).
pub open spec fn field_len(bit: int) -> int {
    if bit == 4 {
        3
    } else if bit == 5 {
        1
    } else if bit == 8 || bit == 9 || bit == 10 {
        0
    } else {
        2
    }
}

/// Total wire size of the fields gated by flag bits `i ..= j-1`.
pub open spec fn flags_len_range(flags: int, i: int, j: int) -> int
    decreases j - i,
{
    if i >= j {
        0
    } else {
        (if flag_set(flags, i) {
            field_len(i)
        } else {
            0
        }) + flags_len_range(flags, i + 1, j)
    }
}

/// An indoor-bike-data packet this driver can decode: not a continuation
/// (bit 0 clear) and no field it does not implement.
pub open spec fn bike_flags_supported(flags: int) -> bool {
    &&& !flag_set(flags, 0)
    &&& !flag_set(flags, 8)
    &&& !flag_set(flags, 9)
    &&& !flag_set(flags, 10)
}

/// The exact length of a packet with the given flags: two flag bytes, the
/// instantaneous speed (present because bit 0 is clear), then every
/// flag-gated field.
pub open spec fn spec_bike_packet_len(flags: int) -> int {
    4 + flags_len_range(flags, 1, 13)
}

/// Where the field gated by `bit` sits in the packet.
pub open spec fn field_offset(flags: int, bit: int) -> int {
    4 + flags_len_range(flags, 1, bit)
}

/// The record decoded from a supported packet.
pub open spec fn spec_bike_data(b: Seq<u8>, flags: int) -> BikeData {
    BikeData {
        inst_speed: Some(le_u16(b, 2) as u16),
        avg_speed: if flag_set(flags, 1) {
            Some(le_u16(b, field_offset(flags, 1)) as u16)
        } else {
            None
        },
        inst_cadence: if flag_set(flags, 2) {
            Some(le_u16(b, field_offset(flags, 2)) as u16)
        } else {
            None
        },
        avg_cadence: if flag_set(flags, 3) {
            Some(le_u16(b, field_offset(flags, 3)) as u16)
        } else {
            None
        },
        tot_distance: if flag_set(flags, 4) {
            Some(le_u24(b, field_offset(flags, 4)) as u32)
        } else {
            None
        },
        resistance_lvl: if flag_set(flags, 5) {
            Some((10 * b[field_offset(flags, 5)]) as u16)
        } else {
            None
        },
        inst_power: if flag_set(flags, 6) {
            Some(le_i16(b, field_offset(flags, 6)) as i16)
        } else {
            None
        },
        avg_power: if flag_set(flags, 7) {
            Some(le_i16(b, field_offset(flags, 7)) as i16)
        } else {
            None
        },
        elapsed_time: if flag_set(flags, 11) {
            Some(le_u16(b, field_offset(flags, 11)) as u16)
        } else {
            None
        },
        remaining_time: if flag_set(flags, 12) {
            Some(le_u16(b, field_offset(flags, 12)) as u16)
        } else {
            None
        },
    }
}

/// Every flag-gated field has non-negative size.
proof fn lemma_flags_range_nonneg(flags: int, i: int, j: int)
    ensures
        flags_len_range(flags, i, j) >= 0,
    decreases j - i,
{
    if i < j {
        lemma_flags_range_nonneg(flags, i + 1, j);
    }
}

/// Splitting the field-size sum at a midpoint.
proof fn lemma_flags_range_concat(flags: int, i: int, j: int, k: int)
    requires
        i <= j <= k,
    ensures
        flags_len_range(flags, i, k) == flags_len_range(flags, i, j) + flags_len_range(
            flags,
            j,
            k,
        ),
    decreases j - i,
{
    if i < j {
        lemma_flags_range_concat(flags, i + 1, j, k);
    }
}

/// A present field fits between its offset and the end of the packet.
proof fn lemma_field_fits(flags: int, bit: int)
    requires
        1 <= bit < 13,
        flag_set(flags, bit),
    ensures
        flags_len_range(flags, 1, bit) + field_len(bit) <= flags_len_range(flags, 1, 13),
        flags_len_range(flags, 1, bit + 1) == flags_len_range(flags, 1, bit) + field_len(bit),
{
    lemma_flags_range_concat(flags, 1, bit, 13);
    lemma_flags_range_concat(flags, 1, bit, bit + 1);
    assert(flags_len_range(flags, bit, 13) == field_len(bit) + flags_len_range(flags, bit + 1, 13));
    assert(flags_len_range(flags, bit, bit + 1) == field_len(bit) + flags_len_range(
        flags,
        bit + 1,
        bit + 1,
    ));
    lemma_flags_range_nonneg(flags, bit + 1, 13);
}

/// An absent field fsizeutes nothing to the layout.
proof fn lemma_field_absent(flags: int, bit: int)
    requires
        1 <= bit < 13,
        !flag_set(flags, bit),
    ensures
        flags_len_range(flags, 1, bit + 1) == flags_len_range(flags, 1, bit),
{
    lemma_flags_range_concat(flags, 1, bit, bit + 1);
    assert(flags_len_range(flags, bit, bit + 1) == flags_len_range(flags, bit + 1, bit + 1));
}

/// Total wire size of the flag-gated fields, executable form.
fn flags_len_exec(flags: u16) -> (n: usize)
    ensures
        n as int == flags_len_range(flags as int, 1, 13),
        n <= 41,
{
    let mut n: usize = 0;
    let mut i: u16 = 1;
    while i < 13
        invariant
            1 <= i <= 13,
            n as int == flags_len_range(flags as int, 1, i as int),
            n <= 2 + 3 * (i as int),
        decreases 13 - i,
    {
        let fsize: usize = if flag_set_exec(flags, i) {
            if i == 4 {
                3
            } else if i == 5 {
                1
            } else if i == 8 || i == 9 || i == 10 {
                0
            } else {
                2
            }
        } else {
            0
        };
        proof {
            if flag_set(flags as int, i as int) {
                lemma_field_fits(flags as int, i as int);
            } else {
                lemma_field_absent(flags as int, i as int);
            }
        }
        n = n + fsize;
        i = i + 1;
    }
    n
}

/// Handle the raw bytes of an indoor-bike-data notification.
///
/// Decoding succeeds exactly on packets whose flags name no continuation
/// and no unimplemented field, and whose length is exactly the two flag
/// bytes plus the sizes of every announced field; the decoded record holds
/// exactly the announced fields, read little-endian at their announced
/// offsets (the resistance level is scaled by ten as the characteristic
/// defines).
pub fn handle_bike_data_notification(raw_data: &[u8]) -> (r: Result<BikeData, DecodeError>)
    ensures
        raw_data@.len() < 2 <==> r == Err::<BikeData, DecodeError>(DecodeError::TooShort),
        raw_data@.len() >= 2 ==> {
            let flags = le_u16(raw_data@, 0);
            &&& (r == Err::<BikeData, DecodeError>(DecodeError::ContinuationNotSupported) <==> flag_set(
                flags,
                0,
            ))
            &&& (r == Err::<BikeData, DecodeError>(DecodeError::UnsupportedField) <==> (!flag_set(
                flags,
                0,
            ) && (flag_set(flags, 8) || flag_set(flags, 9) || flag_set(flags, 10))))
            &&& (r == Err::<BikeData, DecodeError>(DecodeError::LengthMismatch) <==> (
            bike_flags_supported(flags) && raw_data@.len() != spec_bike_packet_len(flags)))
            &&& (r is Ok <==> (bike_flags_supported(flags) && raw_data@.len()
                == spec_bike_packet_len(flags)))
            &&& (r is Ok ==> r == Ok::<BikeData, DecodeError>(spec_bike_data(raw_data@, flags)))
        },
{
    let n = raw_data.len();
    if n < 2 {
        return Err(DecodeError::TooShort);
    }
    let flags = read_u16_le(raw_data, 0);
    let ghost fi = flags as int;

    // For inst speed the logic is reversed: when bit 0 is set the packet is
    // a continuation of a previous one, which this driver does not support.
    if flag_set_exec(flags, 0) {
        return Err(DecodeError::ContinuationNotSupported);
    }
    if flag_set_exec(flags, 8) || flag_set_exec(flags, 9) || flag_set_exec(flags, 10) {
        return Err(DecodeError::UnsupportedField);
    }
    let expected = flags_len_exec(flags);
    if n != 4 + expected {
        return Err(DecodeError::LengthMismatch);
    }
    proof {
        lemma_flags_range_nonneg(fi, 1, 13);
    }

    let mut bike_data = BikeData::default();

    // Bit 0 clear: the first field is the instantaneous speed.
    bike_data.inst_speed = Some(read_u16_le(raw_data, 2));
    let mut cursor: usize = 4;
    proof {
        assert(flags_len_range(fi, 1, 1) == 0);
    }

    if flag_set_exec(flags, 1) {
        proof {
            lemma_field_fits(fi, 1);
        }
        bike_data.avg_speed = Some(read_u16_le(raw_data, cursor));
        cursor = cursor + 2;
    } else {
        proof {
            lemma_field_absent(fi, 1);
        }
    }
    proof {
        assert(cursor as int == 4 + flags_len_range(fi, 1, 2));
    }

    if flag_set_exec(flags, 2) {
        proof {
            lemma_field_fits(fi, 2);
        }
        bike_data.inst_cadence = Some(read_u16_le(raw_data, cursor));
        cursor = cursor + 2;
    } else {
        proof {
            lemma_field_absent(fi, 2);
        }
    }
    proof {
        assert(cursor as int == 4 + flags_len_range(fi, 1, 3));
    }

    if flag_set_exec(flags, 3) {
        proof {
            lemma_field_fits(fi, 3);
        }
        bike_data.avg_cadence = Some(read_u16_le(raw_data, cursor));
        cursor = cursor + 2;
    } else {
        proof {
            lemma_field_absent(fi, 3);
        }
    }
    proof {
        assert(cursor as int == 4 + flags_len_range(fi, 1, 4));
    }

    if flag_set_exec(flags, 4) {
        proof {
            lemma_field_fits(fi, 4);
        }
        bike_data.tot_distance = Some(read_u24_le(raw_data, cursor));
        cursor = cursor + 3;
    } else {
        proof {
            lemma_field_absent(fi, 4);
        }
    }
    proof {
        assert(cursor as int == 4 + flags_len_range(fi, 1, 5));
    }

    if flag_set_exec(flags, 5) {
        proof {
            lemma_field_fits(fi, 5);
        }
        let raw: u8 = raw_data[cursor];
        bike_data.resistance_lvl = Some(10 * (raw as u16));
        cursor = cursor + 1;
    } else {
        proof {
            lemma_field_absent(fi, 5);
        }
    }
    proof {
        assert(cursor as int == 4 + flags_len_range(fi, 1, 6));
    }

    if flag_set_exec(flags, 6) {
        proof {
            lemma_field_fits(fi, 6);
        }
        bike_data.inst_power = Some(read_i16_le(raw_data, cursor));
        cursor = cursor + 2;
    } else {
        proof {
            lemma_field_absent(fi, 6);
        }
    }
    proof {
        assert(cursor as int == 4 + flags_len_range(fi, 1, 7));
    }

    if flag_set_exec(flags, 7) {
        proof {
            lemma_field_fits(fi, 7);
        }
        bike_data.avg_power = Some(read_i16_le(raw_data, cursor));
        cursor = cursor + 2;
    } else {
        proof {
            lemma_field_absent(fi, 7);
        }
    }
    proof {
        lemma_field_absent(fi, 8);
        lemma_field_absent(fi, 9);
        lemma_field_absent(fi, 10);
        assert(cursor as int == 4 + flags_len_range(fi, 1, 11));
    }

    if flag_set_exec(flags, 11) {
        proof {
            lemma_field_fits(fi, 11);
        }
        bike_data.elapsed_time = Some(read_u16_le(raw_data, cursor));
        cursor = cursor + 2;
    } else {
        proof {
            lemma_field_absent(fi, 11);
        }
    }
    proof {
        assert(cursor as int == 4 + flags_len_range(fi, 1, 12));
    }

    if flag_set_exec(flags, 12) {
        proof {
            lemma_field_fits(fi, 12);
        }
        bike_data.remaining_time = Some(read_u16_le(raw_data, cursor));
        cursor = cursor + 2;
    } else {
        proof {
            lemma_field_absent(fi, 12);
        }
    }
    proof {
        assert(cursor as int == 4 + flags_len_range(fi, 1, 13));
        assert(bike_data == spec_bike_data(raw_data@, fi));
    }

    Ok(bike_data)
}

/// Handle the raw bytes of a control-point indication: the three-byte
/// tuple `0x80, request opcode, status`.  Decoding succeeds exactly on
/// values of at least three bytes with the `0x80` header and known opcode
/// and status bytes; bytes beyond the tuple are response parameters and
/// are ignored.
pub fn handle_control_point_notification(raw_data: &[u8]) -> (r: Result<
    ControlPointNotificationData,
    DecodeError,
>)
    ensures
        (r == Err::<ControlPointNotificationData, DecodeError>(DecodeError::TooShort) <==>
        raw_data@.len() < 3),
        raw_data@.len() >= 3 ==> {
            &&& (r == Err::<ControlPointNotificationData, DecodeError>(
                DecodeError::UnexpectedIndicationHeader,
            ) <==> raw_data@[0] != 0x80)
            &&& (r == Err::<ControlPointNotificationData, DecodeError>(DecodeError::UnknownOpCode)
                <==> (raw_data@[0] == 0x80 && spec_cp_opcode_from(raw_data@[1] as int) is None))
            &&& (r == Err::<ControlPointNotificationData, DecodeError>(DecodeError::UnknownResult)
                <==> (raw_data@[0] == 0x80 && spec_cp_opcode_from(raw_data@[1] as int) is Some
                && spec_cp_result_from(raw_data@[2] as int) is None))
            &&& (r is Ok <==> (raw_data@[0] == 0x80 && spec_cp_opcode_from(
                raw_data@[1] as int,
            ) is Some && spec_cp_result_from(raw_data@[2] as int) is Some))
            &&& (r matches Ok(d) ==> Some(d.request_op_code) == spec_cp_opcode_from(
                raw_data@[1] as int,
            ) && Some(d.request_status) == spec_cp_result_from(raw_data@[2] as int))
        },
{
    if raw_data.len() < 3 {
        return Err(DecodeError::TooShort);
    }
    let op_code = raw_data[0];
    if op_code != 0x80 {
        return Err(DecodeError::UnexpectedIndicationHeader);
    }
    let request_op_code = match crate::indoor_bike_data_defs::ControlPointOpCode::from_u8(
        raw_data[1],
    ) {
        Some(op) => op,
        None => {
            return Err(DecodeError::UnknownOpCode);
        },
    };
    let request_status = match crate::indoor_bike_data_defs::ControlPointResult::from_u8(
        raw_data[2],
    ) {
        Some(st) => st,
        None => {
            return Err(DecodeError::UnknownResult);
        },
    };
    Ok(ControlPointNotificationData { request_op_code, request_status })
}

/// Handle the raw bytes of a machine-status notification: the first byte
/// is the status opcode.
pub fn handle_machine_status_notification(raw_data: &[u8]) -> (r: Result<
    MachineStatusOpCode,
    DecodeError,
>)
    ensures
        (r == Err::<MachineStatusOpCode, DecodeError>(DecodeError::TooShort) <==> raw_data@.len()
            == 0),
        raw_data@.len() > 0 ==> {
            &&& (r is Ok <==> spec_machine_status_from(raw_data@[0] as int) is Some)
            &&& (r matches Ok(op) ==> Some(op) == spec_machine_status_from(raw_data@[0] as int))
            &&& (r is Err ==> r == Err::<MachineStatusOpCode, DecodeError>(
                DecodeError::UnknownOpCode,
            ))
        },
{
    if raw_data.len() == 0 {
        return Err(DecodeError::TooShort);
    }
    match MachineStatusOpCode::from_u8(raw_data[0]) {
        Some(op) => Ok(op),
        None => Err(DecodeError::UnknownOpCode),
    }
}

/// Decode the feature characteristic: eight bytes holding two
/// little-endian 32-bit bit fields, the fitness-machine features and the
/// target-setting features.
pub fn parse_features(raw: &[u8]) -> (r: Result<(u32, u32), DecodeError>)
    ensures
        r is Ok <==> raw@.len() == 8,
        r is Err ==> r == Err::<(u32, u32), DecodeError>(DecodeError::LengthMismatch),
        r matches Ok(v) ==> v.0 as int == le_u32(raw@, 0) && v.1 as int == le_u32(raw@, 4),
{
    if raw.len() != 8 {
        return Err(DecodeError::LengthMismatch);
    }
    let fitness_features = read_u32_le(raw, 0);
    let target_setting_features = read_u32_le(raw, 4);
    Ok((fitness_features, target_setting_features))
}

/// Decode the supported power range characteristic: six bytes holding the
/// signed minimum and maximum and the unsigned step, in watts.
pub fn parse_power_range(raw: &[u8]) -> (r: Result<Range<i16, u16>, DecodeError>)
    ensures
        r is Ok <==> raw@.len() == 6,
        r is Err ==> r == Err::<Range<i16, u16>, DecodeError>(DecodeError::LengthMismatch),
        r matches Ok(range) ==> range.min as int == le_i16(raw@, 0) && range.max as int == le_i16(
            raw@,
            2,
        ) && range.step as int == le_u16(raw@, 4),
{
    if raw.len() != 6 {
        return Err(DecodeError::LengthMismatch);
    }
    let min = read_i16_le(raw, 0);
    let max = read_i16_le(raw, 2);
    let step = read_u16_le(raw, 4);
    Ok(Range { min, max, step })
}

/// Decode the supported resistance level characteristic: six bytes of
/// signed values scaled by ten (resolution 0.1).
pub fn parse_resistance_range(raw: &[u8]) -> (r: Result<Range<i64, i64>, DecodeError>)
    ensures
        r is Ok <==> raw@.len() == 6,
        r is Err ==> r == Err::<Range<i64, i64>, DecodeError>(DecodeError::LengthMismatch),
        r matches Ok(range) ==> range.min as int == 10 * le_i16(raw@, 0) && range.max as int == 10
            * le_i16(raw@, 2) && range.step as int == 10 * le_i16(raw@, 4),
{
    if raw.len() != 6 {
        return Err(DecodeError::LengthMismatch);
    }
    let min = 10 * (read_i16_le(raw, 0) as i64);
    let max = 10 * (read_i16_le(raw, 2) as i64);
    let step = 10 * (read_i16_le(raw, 4) as i64);
    Ok(Range { min, max, step })
}

/// The one-byte request-control frame (opcode `0x00`).
pub fn request_control_frame() -> (f: Vec<u8>)
    ensures
        f@ == seq![0x00u8],
{
    let mut f = Vec::new();
    f.push(0x00u8);
    proof {
        assert(f@ =~= seq![0x00u8]);
    }
    f
}

/// The one-byte reset frame (opcode `0x01`).
pub fn reset_frame() -> (f: Vec<u8>)
    ensures
        f@ == seq![0x01u8],
{
    let mut f = Vec::new();
    f.push(0x01u8);
    proof {
        assert(f@ =~= seq![0x01u8]);
    }
    f
}

/// The three-byte set-target-power frame: opcode `0x05` followed by the
/// power in watts, signed little-endian.
pub fn set_target_power_frame(power: i16) -> (f: Vec<u8>)
    ensures
        f@.len() == 3,
        f@[0] == 0x05u8,
        le_i16(f@, 1) == power as int,
{
    let unsigned: u16 = if power >= 0 {
        power as u16
    } else {
        ((power as i32) + 0x10000) as u16
    };
    let lo: u8 = (unsigned % 0x100) as u8;
    let hi: u8 = (unsigned / 0x100) as u8;
    let mut f = Vec::new();
    f.push(0x05u8);
    f.push(lo);
    f.push(hi);
    proof {
        assert(le_u16(f@, 1) == unsigned as int);
    }
    f
}

/// Validate a target power against the trainer's supported range and, when
/// it fits, build the write frame; out-of-range commands are rejected
/// locally and produce no bytes.
pub fn set_power_frame(power: i16, power_range: &Range<i16, u16>) -> (r: Result<
    Vec<u8>,
    CommandError,
>)
    ensures
        r is Ok <==> power_range.min <= power <= power_range.max,
        r is Err ==> r == Err::<Vec<u8>, CommandError>(CommandError::OutOfRange),
        r matches Ok(f) ==> f@.len() == 3 && f@[0] == 0x05u8 && le_i16(f@, 1) == power as int,
{
    if !power_range.in_range(power) {
        return Err(CommandError::OutOfRange);
    }
    Ok(set_target_power_frame(power))
}

/// Clamping a watt value to the supported range.
pub open spec fn spec_clamp(v: int, min: int, max: int) -> int {
    if v < min {
        min
    } else if v > max {
        max
    } else {
        v
    }
}

/// Clamp a requested power to the trainer's supported range; with a sane
/// range (minimum not above maximum) the result always lies within it.
pub fn clamp_to_power_range(power: i16, power_range: &Range<i16, u16>) -> (r: i16)
    ensures
        r as int == spec_clamp(power as int, power_range.min as int, power_range.max as int),
        power_range.min <= power_range.max ==> power_range.min <= r <= power_range.max,
{
    if power < power_range.min {
        power_range.min
    } else if power > power_range.max {
        power_range.max
    } else {
        power
    }
}

} // verus!
