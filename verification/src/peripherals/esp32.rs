//! ESP32 boards on a serial port.

use vstd::prelude::*;
use vstd::string::*;
use crate::error::{outcome, ZeptoError};
use crate::peripherals::board_profile::{esp32, esp32_profile, BoardProfile, ProfileModel};
use crate::peripherals::serial::{
    board_at, board_opened, PeripheralModel, SerialPeripheral,
};

verus! {

/// How fast ESP32 boards talk.
pub const ESP32_DEFAULT_BAUD: u32 = 115_200;

/// A tool that works with a board beyond its pins.
#[derive(Debug, Clone, Copy, PartialEq, Eq, Structural)]
pub enum BoardTool {
    I2cScan,
    I2cRead,
    I2cWrite,
    NvsGet,
    NvsSet,
    NvsDelete,
}

/// The tools for what a board offers: those for I2C where it has a bus, then
/// those for its non-volatile storage where it has one.
pub open spec fn profile_tools(profile: ProfileModel) -> Seq<BoardTool> {
    let i2c = if profile.i2c_buses.len() > 0 {
        seq![BoardTool::I2cScan, BoardTool::I2cRead, BoardTool::I2cWrite]
    } else {
        Seq::empty()
    };
    let nvs = if profile.has_nvs {
        seq![BoardTool::NvsGet, BoardTool::NvsSet, BoardTool::NvsDelete]
    } else {
        Seq::empty()
    };
    i2c + nvs
}

/// The tools for what a board offers.
pub fn tools_for(profile: &BoardProfile) -> (r: Vec<BoardTool>)
    ensures
        r@ == profile_tools(profile@),
{
    let mut tools: Vec<BoardTool> = Vec::new();
    if profile.i2c_buses.len() > 0 {
        tools.push(BoardTool::I2cScan);
        tools.push(BoardTool::I2cRead);
        tools.push(BoardTool::I2cWrite);
    }
    if profile.has_nvs {
        tools.push(BoardTool::NvsGet);
        tools.push(BoardTool::NvsSet);
        tools.push(BoardTool::NvsDelete);
    }
    proof {
        assert(tools@ =~= profile_tools(profile@));
    }
    tools
}

/// An ESP32 board on a serial port.
pub struct Esp32Peripheral {
    inner: SerialPeripheral,
}

impl View for Esp32Peripheral {
    type V = PeripheralModel;

    closed spec fn view(&self) -> PeripheralModel {
        self.inner@
    }
}

impl Esp32Peripheral {
    /// The board at `path`, its port yet to be opened.
    pub fn new(path: &str) -> (r: Result<Esp32Peripheral, ZeptoError>)
        ensures
            outcome(r) == board_at(path@, "esp32"@, ESP32_DEFAULT_BAUD),
    {
        match SerialPeripheral::connect_to(path, "esp32", ESP32_DEFAULT_BAUD) {
            Ok(inner) => Ok(Esp32Peripheral { inner }),
            Err(e) => Err(e),
        }
    }

    /// The board, once its port was opened; an error where it could not be.
    pub fn opened(self, result: Result<(), String>) -> (r: Result<Esp32Peripheral, ZeptoError>)
        ensures
            outcome(r) == board_opened(self@, result),
    {
        match self.inner.opened(result) {
            Ok(inner) => Ok(Esp32Peripheral { inner }),
            Err(e) => Err(e),
        }
    }

    /// What kind of board it is.
    pub fn board_type(&self) -> (r: &str)
        ensures
            r@ == "esp32"@,
    {
        "esp32"
    }

    /// The port that it is on.
    pub fn port(&self) -> (r: &SerialPeripheral)
        ensures
            r@ == self@,
    {
        &self.inner
    }

    /// The tools that come beside those for the pins.
    pub fn tools(&self) -> (r: Vec<BoardTool>)
        ensures
            r@ == profile_tools(esp32()),
    {
        let profile = esp32_profile();
        tools_for(&profile)
    }
}

/// A board has the tools for I2C just where it has a bus, and those for storage
/// just where it has storage.
pub proof fn tools_match_what_is_there(profile: ProfileModel)
    ensures
        forall|tool: BoardTool| #[trigger]
            profile_tools(profile).contains(tool) == (match tool {
                BoardTool::I2cScan | BoardTool::I2cRead | BoardTool::I2cWrite =>
                    profile.i2c_buses.len() > 0,
                BoardTool::NvsGet | BoardTool::NvsSet | BoardTool::NvsDelete => profile.has_nvs,
            }),
{
    let tools = profile_tools(profile);
    let i2c: int = if profile.i2c_buses.len() > 0 {
        3
    } else {
        0
    };
    if profile.i2c_buses.len() > 0 {
        assert(tools[0] == BoardTool::I2cScan);
        assert(tools[1] == BoardTool::I2cRead);
        assert(tools[2] == BoardTool::I2cWrite);
    }
    if profile.has_nvs {
        assert(tools[i2c] == BoardTool::NvsGet);
        assert(tools[i2c + 1] == BoardTool::NvsSet);
        assert(tools[i2c + 2] == BoardTool::NvsDelete);
    }
}

} // verus!
