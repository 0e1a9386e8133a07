//! Sans-I/O core of two SPI sensor drivers that share one bus.
//!
//! The drivers never touch hardware. Each operation is a small state machine
//! that hands the caller the next thing to do on the bus or the clock and is
//! resumed with what came back, so every decision the drivers take is a
//! function of plain values and is verified.

pub mod bus;
pub mod operation;
pub mod register;
pub mod units;
pub mod imu;
pub mod motion_sensor;
