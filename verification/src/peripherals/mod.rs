//! Boards on a serial port.

pub mod arduino;
pub mod board_profile;
pub mod esp32;
pub mod nucleo;
pub mod nvs;
pub mod serial;
