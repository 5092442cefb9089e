//! A board on a serial port.

use vstd::prelude::*;
use vstd::string::*;
use crate::error::{outcome, ErrorModel, ZeptoError};
use crate::hardware::introspect::{bad_path, serial_path, validate_serial_path};
use crate::text::concat;

verus! {

/// A board on a serial port. Its path is always one of a serial port.
pub struct SerialPeripheral {
    path: String,
    board: String,
    baud_rate: u32,
    open: bool,
}

/// What is known of a board on a serial port.
#[verifier::ext_equal]
pub struct PeripheralModel {
    pub path: Seq<char>,
    pub board: Seq<char>,
    pub baud_rate: u32,
    /// Whether the port was opened.
    pub open: bool,
}

impl View for SerialPeripheral {
    type V = PeripheralModel;

    closed spec fn view(&self) -> PeripheralModel {
        PeripheralModel {
            path: self.path@,
            board: self.board@,
            baud_rate: self.baud_rate,
            open: self.open,
        }
    }
}

/// The board at a path, its port not yet opened, or why there can be none.
pub open spec fn board_at(path: Seq<char>, board: Seq<char>, baud_rate: u32) -> Result<
    PeripheralModel,
    ErrorModel,
> {
    if serial_path(path) {
        Ok(PeripheralModel { path, board, baud_rate, open: false })
    } else {
        Err(ErrorModel::Config(bad_path(path)))
    }
}

/// The board with its port opened, or the error where it could not be opened.
pub open spec fn board_opened(board: PeripheralModel, result: Result<(), String>) -> Result<
    PeripheralModel,
    ErrorModel,
> {
    match result {
        Ok(_) => Ok(PeripheralModel { open: true, ..board }),
        Err(reason) => Err(
            ErrorModel::Config(
                "Failed to open serial port "@ + board.path + ": "@ + reason@,
            ),
        ),
    }
}

impl SerialPeripheral {
    #[verifier::type_invariant]
    spec fn path_is_serial(self) -> bool {
        serial_path(self.path@)
    }

    /// The board at `path`, its port yet to be opened.
    pub fn connect_to(path: &str, board: &str, baud_rate: u32) -> (r: Result<
        SerialPeripheral,
        ZeptoError,
    >)
        ensures
            outcome(r) == board_at(path@, board@, baud_rate),
    {
        match validate_serial_path(path) {
            Ok(_) => Ok(
                SerialPeripheral {
                    path: path.to_string(),
                    board: board.to_string(),
                    baud_rate,
                    open: false,
                },
            ),
            Err(e) => Err(ZeptoError::Config(e)),
        }
    }

    /// The board, once its port was opened; an error where it could not be.
    pub fn opened(self, result: Result<(), String>) -> (r: Result<SerialPeripheral, ZeptoError>)
        ensures
            outcome(r) == board_opened(self@, result),
    {
        proof {
            use_type_invariant(&self);
        }
        match result {
            Ok(_) => Ok(
                SerialPeripheral {
                    path: self.path,
                    board: self.board,
                    baud_rate: self.baud_rate,
                    open: true,
                },
            ),
            Err(reason) => {
                let mut text = concat("Failed to open serial port ", self.path.as_str(), ": ");
                text.append(reason.as_str());
                Err(ZeptoError::Config(text))
            },
        }
    }

    /// Whether the port was opened.
    pub fn is_open(&self) -> (r: bool)
        ensures
            r == self@.open,
    {
        self.open
    }

    /// Where the board is.
    pub fn path(&self) -> (r: &str)
        ensures
            r@ == self@.path,
            serial_path(r@),
    {
        proof {
            use_type_invariant(self);
        }
        self.path.as_str()
    }

    /// What kind of board it is.
    pub fn board_type(&self) -> (r: &str)
        ensures
            r@ == self@.board,
    {
        self.board.as_str()
    }

    /// How fast it talks.
    pub fn baud_rate(&self) -> (r: u32)
        ensures
            r == self@.baud_rate,
    {
        self.baud_rate
    }
}

} // verus!
