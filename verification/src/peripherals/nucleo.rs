//! STM32 Nucleo boards on a serial port.

use vstd::prelude::*;
use vstd::string::*;
use crate::error::{outcome, ZeptoError};
use crate::peripherals::serial::{
    board_at, board_opened, PeripheralModel, SerialPeripheral,
};

verus! {

/// How fast STM32 Nucleo boards talk.
pub const NUCLEO_DEFAULT_BAUD: u32 = 115_200;

/// An STM32 Nucleo board on a serial port.
pub struct NucleoPeripheral {
    inner: SerialPeripheral,
}

impl View for NucleoPeripheral {
    type V = PeripheralModel;

    closed spec fn view(&self) -> PeripheralModel {
        self.inner@
    }
}

impl NucleoPeripheral {
    /// The board of the given kind at `path`, its port yet to be opened.
    pub fn new(path: &str, board: &str) -> (r: Result<NucleoPeripheral, ZeptoError>)
        ensures
            outcome(r) == board_at(path@, board@, NUCLEO_DEFAULT_BAUD),
    {
        match SerialPeripheral::connect_to(path, board, NUCLEO_DEFAULT_BAUD) {
            Ok(inner) => Ok(NucleoPeripheral { inner }),
            Err(e) => Err(e),
        }
    }

    /// The Nucleo-F401RE at `path`, its port yet to be opened.
    pub fn f401re(path: &str) -> (r: Result<NucleoPeripheral, ZeptoError>)
        ensures
            outcome(r) == board_at(path@, "nucleo-f401re"@, NUCLEO_DEFAULT_BAUD),
    {
        NucleoPeripheral::new(path, "nucleo-f401re")
    }

    /// The Nucleo-F411RE at `path`, its port yet to be opened.
    pub fn f411re(path: &str) -> (r: Result<NucleoPeripheral, ZeptoError>)
        ensures
            outcome(r) == board_at(path@, "nucleo-f411re"@, NUCLEO_DEFAULT_BAUD),
    {
        NucleoPeripheral::new(path, "nucleo-f411re")
    }

    /// The board, once its port was opened; an error where it could not be.
    pub fn opened(self, result: Result<(), String>) -> (r: Result<NucleoPeripheral, ZeptoError>)
        ensures
            outcome(r) == board_opened(self@, result),
    {
        match self.inner.opened(result) {
            Ok(inner) => Ok(NucleoPeripheral { inner }),
            Err(e) => Err(e),
        }
    }

    /// What kind of board it is.
    pub fn board_type(&self) -> (r: &str)
        ensures
            r@ == self@.board,
    {
        self.inner.board_type()
    }

    /// The port that it is on.
    pub fn port(&self) -> (r: &SerialPeripheral)
        ensures
            r@ == self@,
    {
        &self.inner
    }
}

} // verus!
