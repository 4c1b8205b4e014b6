//! Board support for the M5Stack CoreS3: the hardware-independent logic of the
//! sensor, RTC, audio and camera drivers, with contracts proved by Verus.
//! The bus transactions themselves are performed by the caller.

pub mod board;
pub mod color;
pub mod delay;
pub mod drivers;
pub mod error;
pub mod firmware;
pub mod imu;
pub mod print;
pub mod time;
pub mod text;
