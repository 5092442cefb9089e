//! Arduino boards on a serial port.

use vstd::prelude::*;
use vstd::string::*;
use crate::error::{outcome, ZeptoError};
use crate::peripherals::serial::{
    board_at, board_opened, PeripheralModel, SerialPeripheral,
};

verus! {

/// How fast Arduino boards talk.
pub const ARDUINO_DEFAULT_BAUD: u32 = 115_200;

/// An Arduino board on a serial port.
pub struct ArduinoPeripheral {
    inner: SerialPeripheral,
}

impl View for ArduinoPeripheral {
    type V = PeripheralModel;

    closed spec fn view(&self) -> PeripheralModel {
        self.inner@
    }
}

impl ArduinoPeripheral {
    /// The board of the given kind at `path`, its port yet to be opened.
    pub fn new(path: &str, board: &str) -> (r: Result<ArduinoPeripheral, ZeptoError>)
        ensures
            outcome(r) == board_at(path@, board@, ARDUINO_DEFAULT_BAUD),
    {
        match SerialPeripheral::connect_to(path, board, ARDUINO_DEFAULT_BAUD) {
            Ok(inner) => Ok(ArduinoPeripheral { inner }),
            Err(e) => Err(e),
        }
    }

    /// The Arduino Uno at `path`, its port yet to be opened.
    pub fn uno(path: &str) -> (r: Result<ArduinoPeripheral, ZeptoError>)
        ensures
            outcome(r) == board_at(path@, "arduino-uno"@, ARDUINO_DEFAULT_BAUD),
    {
        ArduinoPeripheral::new(path, "arduino-uno")
    }

    /// The Arduino Mega at `path`, its port yet to be opened.
    pub fn mega(path: &str) -> (r: Result<ArduinoPeripheral, ZeptoError>)
        ensures
            outcome(r) == board_at(path@, "arduino-mega"@, ARDUINO_DEFAULT_BAUD),
    {
        ArduinoPeripheral::new(path, "arduino-mega")
    }

    /// The board, once its port was opened; an error where it could not be.
    pub fn opened(self, result: Result<(), String>) -> (r: Result<ArduinoPeripheral, ZeptoError>)
        ensures
            outcome(r) == board_opened(self@, result),
    {
        match self.inner.opened(result) {
            Ok(inner) => Ok(ArduinoPeripheral { inner }),
            Err(e) => Err(e),
        }
    }

    /// What kind of board it is.
    pub fn board_type(&self) -> (r: &str)
        ensures
            r@ == self@.board,
    {
        self.inner.board_type()
    }

    /// The port that it is on.
    pub fn port(&self) -> (r: &SerialPeripheral)
        ensures
            r@ == self@,
    {
        &self.inner
    }
}

} // verus!
