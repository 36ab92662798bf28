//! Verified core of an indoor-cycling workout controller.
//!
//! The library covers the workout step iterators, the timer-driven workout
//! engine, the user-visible workout state tracker, the Fitness Machine
//! Service (FTMS) wire codec, the BLE service-discovery decision logic and
//! the command-routing state machines.  All I/O (BLE radio, files, terminal,
//! sockets) lives outside the library and hands it plain values.

pub mod ble_client;
pub mod bk_gatts_service;
pub mod cli;
pub mod common;
pub mod indoor_bike_client;
pub mod indoor_bike_data_defs;
pub mod router;
pub mod workout_state;
pub mod zwo_workout;
pub mod zwo_workout_file;
