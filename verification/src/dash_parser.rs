//! The dash-format telemetry datagram and its decoder.
//!
//! A dash packet is one flat record of fixed-width little-endian fields in a
//! fixed order; `DATAGRAM_SIZE` is the sum of the field widths. `parse` walks
//! the buffer once, front to back, reading each field at its fixed offset.
//! Wire fields that carry a 32-bit floating-point value are held here as their
//! raw little-endian bit patterns (`u32`): the record keeps exactly the bits
//! that were on the wire, and a caller that wants a floating-point view
//! reinterprets them outside this crate.

use vstd::prelude::*;
use crate::DecodeError;
use crate::utils;
use crate::utils::{le_u16_at, le_u32_at, le_i32_at, i8_at};

verus! {

/// Total encoded size of one dash datagram, in bytes.
pub const DATAGRAM_SIZE: usize = 331;

/// One fully decoded dash telemetry record.
///
/// Fields appear in wire order. Per-wheel groups run front-left, front-right,
/// rear-left, rear-right; vector groups run x, y, z in the car's local space
/// (x = right, y = up, z = forward). Every field the wire layout defines as a
/// 32-bit float is held here, under the same name, as its raw bit pattern in
/// a `u32`; `timestamp_ms` is the one field that is a genuine `u32` on the
/// wire.
#[derive(Clone, Copy, Debug, PartialEq, Eq, Structural)]
pub struct Datagram {
    /// 1 while a race is running, 0 in menus or with the race stopped.
    pub is_race_on: i32,
    /// Milliseconds counter; can wrap around to 0 eventually.
    pub timestamp_ms: u32,
    pub engine_max_rpm: u32,
    pub engine_idle_rpm: u32,
    pub current_engine_rpm: u32,
    pub acceleration_x: u32,
    pub acceleration_y: u32,
    pub acceleration_z: u32,
    pub velocity_x: u32,
    pub velocity_y: u32,
    pub velocity_z: u32,
    pub angular_velocity_x: u32,
    pub angular_velocity_y: u32,
    pub angular_velocity_z: u32,
    pub yaw: u32,
    pub pitch: u32,
    pub roll: u32,
    pub normalized_suspension_travel_front_left: u32,
    pub normalized_suspension_travel_front_right: u32,
    pub normalized_suspension_travel_rear_left: u32,
    pub normalized_suspension_travel_rear_right: u32,
    pub tire_slip_ratio_front_left: u32,
    pub tire_slip_ratio_front_right: u32,
    pub tire_slip_ratio_rear_left: u32,
    pub tire_slip_ratio_rear_right: u32,
    pub wheel_rotation_speed_front_left: u32,
    pub wheel_rotation_speed_front_right: u32,
    pub wheel_rotation_speed_rear_left: u32,
    pub wheel_rotation_speed_rear_right: u32,
    pub wheel_on_rumble_strip_front_left: i32,
    pub wheel_on_rumble_strip_front_right: i32,
    pub wheel_on_rumble_strip_rear_left: i32,
    pub wheel_on_rumble_strip_rear_right: i32,
    pub wheel_in_puddle_depth_front_left: u32,
    pub wheel_in_puddle_depth_front_right: u32,
    pub wheel_in_puddle_depth_rear_left: u32,
    pub wheel_in_puddle_depth_rear_right: u32,
    pub surface_rumble_front_left: u32,
    pub surface_rumble_front_right: u32,
    pub surface_rumble_rear_left: u32,
    pub surface_rumble_rear_right: u32,
    pub tire_slip_angle_front_left: u32,
    pub tire_slip_angle_front_right: u32,
    pub tire_slip_angle_rear_left: u32,
    pub tire_slip_angle_rear_right: u32,
    pub tire_combined_slip_front_left: u32,
    pub tire_combined_slip_front_right: u32,
    pub tire_combined_slip_rear_left: u32,
    pub tire_combined_slip_rear_right: u32,
    pub suspension_travel_meters_front_left: u32,
    pub suspension_travel_meters_front_right: u32,
    pub suspension_travel_meters_rear_left: u32,
    pub suspension_travel_meters_rear_right: u32,
    /// Unique ID of the car make and model.
    pub car_ordinal: i32,
    /// Between 0 (D class) and 7 (X class) inclusive.
    pub car_class: i32,
    /// Between 100 (worst car) and 999 (best car) inclusive.
    pub car_performance_index: i32,
    /// 0 = FWD, 1 = RWD, 2 = AWD.
    pub drivetrain_type: i32,
    /// Number of cylinders in the engine.
    pub num_cylinders: i32,
    pub position_x: u32,
    pub position_y: u32,
    pub position_z: u32,
    /// Speed in meters per second, as raw bits.
    pub speed: u32,
    /// Engine power in watts, as raw bits.
    pub power: u32,
    pub torque: u32,
    pub tire_temp_front_left: u32,
    pub tire_temp_front_right: u32,
    pub tire_temp_rear_left: u32,
    pub tire_temp_rear_right: u32,
    pub boost: u32,
    pub fuel: u32,
    pub distance_traveled: u32,
    pub best_lap: u32,
    pub last_lap: u32,
    pub current_lap: u32,
    pub current_race_time: u32,
    /// Current lap, counted from 0.
    pub lap_number: u16,
    pub race_position: u8,
    pub accel: u8,
    pub brake: u8,
    pub clutch: u8,
    pub hand_brake: u8,
    pub gear: u8,
    pub steer: i8,
    pub normalized_driving_line: i8,
    pub normalized_aibrake_difference: i8,
    pub tire_wear_front_left: u32,
    pub tire_wear_front_right: u32,
    pub tire_wear_rear_left: u32,
    pub tire_wear_rear_right: u32,
    /// ID of the track layout.
    pub track_ordinal: i32,
}

/// The record that a buffer of at least `DATAGRAM_SIZE` bytes decodes to:
/// every field read at its fixed offset, little-endian.
pub open spec fn spec_decode(b: Seq<u8>) -> Datagram {
    Datagram {
        is_race_on: le_i32_at(b, 0),
        timestamp_ms: le_u32_at(b, 4),
        engine_max_rpm: le_u32_at(b, 8),
        engine_idle_rpm: le_u32_at(b, 12),
        current_engine_rpm: le_u32_at(b, 16),
        acceleration_x: le_u32_at(b, 20),
        acceleration_y: le_u32_at(b, 24),
        acceleration_z: le_u32_at(b, 28),
        velocity_x: le_u32_at(b, 32),
        velocity_y: le_u32_at(b, 36),
        velocity_z: le_u32_at(b, 40),
        angular_velocity_x: le_u32_at(b, 44),
        angular_velocity_y: le_u32_at(b, 48),
        angular_velocity_z: le_u32_at(b, 52),
        yaw: le_u32_at(b, 56),
        pitch: le_u32_at(b, 60),
        roll: le_u32_at(b, 64),
        normalized_suspension_travel_front_left: le_u32_at(b, 68),
        normalized_suspension_travel_front_right: le_u32_at(b, 72),
        normalized_suspension_travel_rear_left: le_u32_at(b, 76),
        normalized_suspension_travel_rear_right: le_u32_at(b, 80),
        tire_slip_ratio_front_left: le_u32_at(b, 84),
        tire_slip_ratio_front_right: le_u32_at(b, 88),
        tire_slip_ratio_rear_left: le_u32_at(b, 92),
        tire_slip_ratio_rear_right: le_u32_at(b, 96),
        wheel_rotation_speed_front_left: le_u32_at(b, 100),
        wheel_rotation_speed_front_right: le_u32_at(b, 104),
        wheel_rotation_speed_rear_left: le_u32_at(b, 108),
        wheel_rotation_speed_rear_right: le_u32_at(b, 112),
        wheel_on_rumble_strip_front_left: le_i32_at(b, 116),
        wheel_on_rumble_strip_front_right: le_i32_at(b, 120),
        wheel_on_rumble_strip_rear_left: le_i32_at(b, 124),
        wheel_on_rumble_strip_rear_right: le_i32_at(b, 128),
        wheel_in_puddle_depth_front_left: le_u32_at(b, 132),
        wheel_in_puddle_depth_front_right: le_u32_at(b, 136),
        wheel_in_puddle_depth_rear_left: le_u32_at(b, 140),
        wheel_in_puddle_depth_rear_right: le_u32_at(b, 144),
        surface_rumble_front_left: le_u32_at(b, 148),
        surface_rumble_front_right: le_u32_at(b, 152),
        surface_rumble_rear_left: le_u32_at(b, 156),
        surface_rumble_rear_right: le_u32_at(b, 160),
        tire_slip_angle_front_left: le_u32_at(b, 164),
        tire_slip_angle_front_right: le_u32_at(b, 168),
        tire_slip_angle_rear_left: le_u32_at(b, 172),
        tire_slip_angle_rear_right: le_u32_at(b, 176),
        tire_combined_slip_front_left: le_u32_at(b, 180),
        tire_combined_slip_front_right: le_u32_at(b, 184),
        tire_combined_slip_rear_left: le_u32_at(b, 188),
        tire_combined_slip_rear_right: le_u32_at(b, 192),
        suspension_travel_meters_front_left: le_u32_at(b, 196),
        suspension_travel_meters_front_right: le_u32_at(b, 200),
        suspension_travel_meters_rear_left: le_u32_at(b, 204),
        suspension_travel_meters_rear_right: le_u32_at(b, 208),
        car_ordinal: le_i32_at(b, 212),
        car_class: le_i32_at(b, 216),
        car_performance_index: le_i32_at(b, 220),
        drivetrain_type: le_i32_at(b, 224),
        num_cylinders: le_i32_at(b, 228),
        position_x: le_u32_at(b, 232),
        position_y: le_u32_at(b, 236),
        position_z: le_u32_at(b, 240),
        speed: le_u32_at(b, 244),
        power: le_u32_at(b, 248),
        torque: le_u32_at(b, 252),
        tire_temp_front_left: le_u32_at(b, 256),
        tire_temp_front_right: le_u32_at(b, 260),
        tire_temp_rear_left: le_u32_at(b, 264),
        tire_temp_rear_right: le_u32_at(b, 268),
        boost: le_u32_at(b, 272),
        fuel: le_u32_at(b, 276),
        distance_traveled: le_u32_at(b, 280),
        best_lap: le_u32_at(b, 284),
        last_lap: le_u32_at(b, 288),
        current_lap: le_u32_at(b, 292),
        current_race_time: le_u32_at(b, 296),
        lap_number: le_u16_at(b, 300),
        race_position: b[302],
        accel: b[303],
        brake: b[304],
        clutch: b[305],
        hand_brake: b[306],
        gear: b[307],
        steer: i8_at(b, 308),
        normalized_driving_line: i8_at(b, 309),
        normalized_aibrake_difference: i8_at(b, 310),
        tire_wear_front_left: le_u32_at(b, 311),
        tire_wear_front_right: le_u32_at(b, 315),
        tire_wear_rear_left: le_u32_at(b, 319),
        tire_wear_rear_right: le_u32_at(b, 323),
        track_ordinal: le_i32_at(b, 327),
    }
}

/// Decodes one dash datagram from the front of `buf`.
///
/// Succeeds on any buffer of at least `DATAGRAM_SIZE` bytes — no field is
/// validated beyond its width — and returns exactly the record `spec_decode`
/// gives. Bytes past `DATAGRAM_SIZE` are ignored. A shorter buffer is
/// rejected whole: no partial record is ever returned.
pub fn parse(buf: &[u8]) -> (r: Result<Datagram, DecodeError>)
    ensures
        buf@.len() >= DATAGRAM_SIZE ==> r == Ok::<Datagram, DecodeError>(spec_decode(buf@)),
        buf@.len() < DATAGRAM_SIZE ==> r == Err::<Datagram, DecodeError>(DecodeError::TruncatedInput),
{
    if buf.len() < DATAGRAM_SIZE {
        return Err(DecodeError::TruncatedInput);
    }
    let mut pos: usize = 0;
    let is_race_on = utils::parse_i32(buf, &mut pos)?;
    let timestamp_ms = utils::parse_u32(buf, &mut pos)?;
    let engine_max_rpm = utils::parse_f32_bits(buf, &mut pos)?;
    let engine_idle_rpm = utils::parse_f32_bits(buf, &mut pos)?;
    let current_engine_rpm = utils::parse_f32_bits(buf, &mut pos)?;
    let acceleration_x = utils::parse_f32_bits(buf, &mut pos)?;
    let acceleration_y = utils::parse_f32_bits(buf, &mut pos)?;
    let acceleration_z = utils::parse_f32_bits(buf, &mut pos)?;
    let velocity_x = utils::parse_f32_bits(buf, &mut pos)?;
    let velocity_y = utils::parse_f32_bits(buf, &mut pos)?;
    let velocity_z = utils::parse_f32_bits(buf, &mut pos)?;
    let angular_velocity_x = utils::parse_f32_bits(buf, &mut pos)?;
    let angular_velocity_y = utils::parse_f32_bits(buf, &mut pos)?;
    let angular_velocity_z = utils::parse_f32_bits(buf, &mut pos)?;
    let yaw = utils::parse_f32_bits(buf, &mut pos)?;
    let pitch = utils::parse_f32_bits(buf, &mut pos)?;
    let roll = utils::parse_f32_bits(buf, &mut pos)?;
    let normalized_suspension_travel_front_left = utils::parse_f32_bits(buf, &mut pos)?;
    let normalized_suspension_travel_front_right = utils::parse_f32_bits(buf, &mut pos)?;
    let normalized_suspension_travel_rear_left = utils::parse_f32_bits(buf, &mut pos)?;
    let normalized_suspension_travel_rear_right = utils::parse_f32_bits(buf, &mut pos)?;
    let tire_slip_ratio_front_left = utils::parse_f32_bits(buf, &mut pos)?;
    let tire_slip_ratio_front_right = utils::parse_f32_bits(buf, &mut pos)?;
    let tire_slip_ratio_rear_left = utils::parse_f32_bits(buf, &mut pos)?;
    let tire_slip_ratio_rear_right = utils::parse_f32_bits(buf, &mut pos)?;
    let wheel_rotation_speed_front_left = utils::parse_f32_bits(buf, &mut pos)?;
    let wheel_rotation_speed_front_right = utils::parse_f32_bits(buf, &mut pos)?;
    let wheel_rotation_speed_rear_left = utils::parse_f32_bits(buf, &mut pos)?;
    let wheel_rotation_speed_rear_right = utils::parse_f32_bits(buf, &mut pos)?;
    let wheel_on_rumble_strip_front_left = utils::parse_i32(buf, &mut pos)?;
    let wheel_on_rumble_strip_front_right = utils::parse_i32(buf, &mut pos)?;
    let wheel_on_rumble_strip_rear_left = utils::parse_i32(buf, &mut pos)?;
    let wheel_on_rumble_strip_rear_right = utils::parse_i32(buf, &mut pos)?;
    let wheel_in_puddle_depth_front_left = utils::parse_f32_bits(buf, &mut pos)?;
    let wheel_in_puddle_depth_front_right = utils::parse_f32_bits(buf, &mut pos)?;
    let wheel_in_puddle_depth_rear_left = utils::parse_f32_bits(buf, &mut pos)?;
    let wheel_in_puddle_depth_rear_right = utils::parse_f32_bits(buf, &mut pos)?;
    let surface_rumble_front_left = utils::parse_f32_bits(buf, &mut pos)?;
    let surface_rumble_front_right = utils::parse_f32_bits(buf, &mut pos)?;
    let surface_rumble_rear_left = utils::parse_f32_bits(buf, &mut pos)?;
    let surface_rumble_rear_right = utils::parse_f32_bits(buf, &mut pos)?;
    let tire_slip_angle_front_left = utils::parse_f32_bits(buf, &mut pos)?;
    let tire_slip_angle_front_right = utils::parse_f32_bits(buf, &mut pos)?;
    let tire_slip_angle_rear_left = utils::parse_f32_bits(buf, &mut pos)?;
    let tire_slip_angle_rear_right = utils::parse_f32_bits(buf, &mut pos)?;
    let tire_combined_slip_front_left = utils::parse_f32_bits(buf, &mut pos)?;
    let tire_combined_slip_front_right = utils::parse_f32_bits(buf, &mut pos)?;
    let tire_combined_slip_rear_left = utils::parse_f32_bits(buf, &mut pos)?;
    let tire_combined_slip_rear_right = utils::parse_f32_bits(buf, &mut pos)?;
    let suspension_travel_meters_front_left = utils::parse_f32_bits(buf, &mut pos)?;
    let suspension_travel_meters_front_right = utils::parse_f32_bits(buf, &mut pos)?;
    let suspension_travel_meters_rear_left = utils::parse_f32_bits(buf, &mut pos)?;
    let suspension_travel_meters_rear_right = utils::parse_f32_bits(buf, &mut pos)?;
    let car_ordinal = utils::parse_i32(buf, &mut pos)?;
    let car_class = utils::parse_i32(buf, &mut pos)?;
    let car_performance_index = utils::parse_i32(buf, &mut pos)?;
    let drivetrain_type = utils::parse_i32(buf, &mut pos)?;
    let num_cylinders = utils::parse_i32(buf, &mut pos)?;
    let position_x = utils::parse_f32_bits(buf, &mut pos)?;
    let position_y = utils::parse_f32_bits(buf, &mut pos)?;
    let position_z = utils::parse_f32_bits(buf, &mut pos)?;
    let speed = utils::parse_f32_bits(buf, &mut pos)?;
    let power = utils::parse_f32_bits(buf, &mut pos)?;
    let torque = utils::parse_f32_bits(buf, &mut pos)?;
    let tire_temp_front_left = utils::parse_f32_bits(buf, &mut pos)?;
    let tire_temp_front_right = utils::parse_f32_bits(buf, &mut pos)?;
    let tire_temp_rear_left = utils::parse_f32_bits(buf, &mut pos)?;
    let tire_temp_rear_right = utils::parse_f32_bits(buf, &mut pos)?;
    let boost = utils::parse_f32_bits(buf, &mut pos)?;
    let fuel = utils::parse_f32_bits(buf, &mut pos)?;
    let distance_traveled = utils::parse_f32_bits(buf, &mut pos)?;
    let best_lap = utils::parse_f32_bits(buf, &mut pos)?;
    let last_lap = utils::parse_f32_bits(buf, &mut pos)?;
    let current_lap = utils::parse_f32_bits(buf, &mut pos)?;
    let current_race_time = utils::parse_f32_bits(buf, &mut pos)?;
    let lap_number = utils::parse_u16(buf, &mut pos)?;
    let race_position = utils::parse_u8(buf, &mut pos)?;
    let accel = utils::parse_u8(buf, &mut pos)?;
    let brake = utils::parse_u8(buf, &mut pos)?;
    let clutch = utils::parse_u8(buf, &mut pos)?;
    let hand_brake = utils::parse_u8(buf, &mut pos)?;
    let gear = utils::parse_u8(buf, &mut pos)?;
    let steer = utils::parse_i8(buf, &mut pos)?;
    let normalized_driving_line = utils::parse_i8(buf, &mut pos)?;
    let normalized_aibrake_difference = utils::parse_i8(buf, &mut pos)?;
    let tire_wear_front_left = utils::parse_f32_bits(buf, &mut pos)?;
    let tire_wear_front_right = utils::parse_f32_bits(buf, &mut pos)?;
    let tire_wear_rear_left = utils::parse_f32_bits(buf, &mut pos)?;
    let tire_wear_rear_right = utils::parse_f32_bits(buf, &mut pos)?;
    let track_ordinal = utils::parse_i32(buf, &mut pos)?;
    Ok(Datagram {
        is_race_on,
        timestamp_ms,
        engine_max_rpm,
        engine_idle_rpm,
        current_engine_rpm,
        acceleration_x,
        acceleration_y,
        acceleration_z,
        velocity_x,
        velocity_y,
        velocity_z,
        angular_velocity_x,
        angular_velocity_y,
        angular_velocity_z,
        yaw,
        pitch,
        roll,
        normalized_suspension_travel_front_left,
        normalized_suspension_travel_front_right,
        normalized_suspension_travel_rear_left,
        normalized_suspension_travel_rear_right,
        tire_slip_ratio_front_left,
        tire_slip_ratio_front_right,
        tire_slip_ratio_rear_left,
        tire_slip_ratio_rear_right,
        wheel_rotation_speed_front_left,
        wheel_rotation_speed_front_right,
        wheel_rotation_speed_rear_left,
        wheel_rotation_speed_rear_right,
        wheel_on_rumble_strip_front_left,
        wheel_on_rumble_strip_front_right,
        wheel_on_rumble_strip_rear_left,
        wheel_on_rumble_strip_rear_right,
        wheel_in_puddle_depth_front_left,
        wheel_in_puddle_depth_front_right,
        wheel_in_puddle_depth_rear_left,
        wheel_in_puddle_depth_rear_right,
        surface_rumble_front_left,
        surface_rumble_front_right,
        surface_rumble_rear_left,
        surface_rumble_rear_right,
        tire_slip_angle_front_left,
        tire_slip_angle_front_right,
        tire_slip_angle_rear_left,
        tire_slip_angle_rear_right,
        tire_combined_slip_front_left,
        tire_combined_slip_front_right,
        tire_combined_slip_rear_left,
        tire_combined_slip_rear_right,
        suspension_travel_meters_front_left,
        suspension_travel_meters_front_right,
        suspension_travel_meters_rear_left,
        suspension_travel_meters_rear_right,
        car_ordinal,
        car_class,
        car_performance_index,
        drivetrain_type,
        num_cylinders,
        position_x,
        position_y,
        position_z,
        speed,
        power,
        torque,
        tire_temp_front_left,
        tire_temp_front_right,
        tire_temp_rear_left,
        tire_temp_rear_right,
        boost,
        fuel,
        distance_traveled,
        best_lap,
        last_lap,
        current_lap,
        current_race_time,
        lap_number,
        race_position,
        accel,
        brake,
        clutch,
        hand_brake,
        gear,
        steer,
        normalized_driving_line,
        normalized_aibrake_difference,
        tire_wear_front_left,
        tire_wear_front_right,
        tire_wear_rear_left,
        tire_wear_rear_right,
        track_ordinal,
    })
}

/// Decoding depends only on the first `DATAGRAM_SIZE` bytes of the buffer:
/// two buffers that agree on that prefix decode to the same record, so any
/// trailing bytes beyond the required size are ignored.
pub proof fn lemma_decode_ignores_trailing(a: Seq<u8>, b: Seq<u8>)
    requires
        a.len() >= DATAGRAM_SIZE,
        b.len() >= DATAGRAM_SIZE,
        a.subrange(0, DATAGRAM_SIZE as int) == b.subrange(0, DATAGRAM_SIZE as int),
    ensures
        spec_decode(a) == spec_decode(b),
{
    assert forall|i: int| 0 <= i < DATAGRAM_SIZE implies a[i] == b[i] by {
        assert(a.subrange(0, DATAGRAM_SIZE as int)[i] == a[i]);
        assert(b.subrange(0, DATAGRAM_SIZE as int)[i] == b[i]);
        assert(a.subrange(0, DATAGRAM_SIZE as int)[i] == b.subrange(0, DATAGRAM_SIZE as int)[i]);
    }
}

} // verus!
