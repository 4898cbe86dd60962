//! Driver core for a 3-axis inertial sensor (accelerometer + gyroscope)
//! reached over a register-addressed serial bus.
//!
//! The heart of the crate is the FIFO decoding subsystem: popping one entry
//! from the sensor's hardware FIFO, classifying its tag byte, and decoding
//! the three signed 16-bit little-endian lanes of the payload. All decoding
//! is done over plain integers; conversion of raw lane counts into physical
//! units (deg/s, g) is a floating-point step left to the embedding, which
//! multiplies each lane by a caller-supplied scale factor.

use vstd::prelude::*;

pub mod fifo;
pub mod freqfine;
pub mod internal_freq_fine;
pub mod sample;
pub mod transport;

pub use fifo::{Error, FifoOut, InvalidTag, SensorTag, Value};
pub use transport::Transport;

verus! {

/// Default bus address of the sensor.
pub const DEFAULT_I2C_ADDRESS: u8 = 0x6b;

} // verus!
