//! What is known of the device at a serial port.
//!
//! A serial path does not tell which device stands behind it. The connected
//! USB devices and the registry of boards give a best guess.

use vstd::prelude::*;
use vstd::string::*;
use crate::error::{outcome, ErrorModel, ZeptoError};
use crate::json::opt_text;
use crate::text::{concat, join, joined, opt_string, same_text, starts_with, texts};

verus! {

/// A connected USB device.
#[derive(Debug)]
pub struct UsbDevice {
    pub vid: u16,
    pub pid: u16,
    /// The name of the board, where it is recognized.
    pub board_name: Option<String>,
    /// The architecture of the board, where it is recognized.
    pub architecture: Option<String>,
}

/// A board in the registry.
#[derive(Debug)]
pub struct BoardInfo {
    pub vid: u16,
    pub pid: u16,
    pub name: String,
    pub architecture: Option<String>,
}

/// What is known of the device at a serial port.
#[derive(Debug)]
pub struct IntrospectResult {
    /// The serial path.
    pub path: String,
    /// The USB vendor of the device that is taken to be there.
    pub vid: Option<u16>,
    /// The USB product of that device.
    pub pid: Option<u16>,
    /// The name of the board.
    pub board_name: Option<String>,
    /// The architecture of the board.
    pub architecture: Option<String>,
    /// A note on the memory of the board.
    pub memory_map_note: String,
}

/// What a USB device says of itself.
#[verifier::ext_equal]
pub struct DeviceModel {
    pub vid: u16,
    pub pid: u16,
    pub board_name: Option<Seq<char>>,
    pub architecture: Option<Seq<char>>,
}

impl View for UsbDevice {
    type V = DeviceModel;

    open spec fn view(&self) -> DeviceModel {
        DeviceModel {
            vid: self.vid,
            pid: self.pid,
            board_name: opt_string(self.board_name),
            architecture: opt_string(self.architecture),
        }
    }
}

/// What the registry says of a board.
#[verifier::ext_equal]
pub struct BoardModel {
    pub vid: u16,
    pub pid: u16,
    pub name: Seq<char>,
    pub architecture: Option<Seq<char>>,
}

impl View for BoardInfo {
    type V = BoardModel;

    open spec fn view(&self) -> BoardModel {
        BoardModel {
            vid: self.vid,
            pid: self.pid,
            name: self.name@,
            architecture: opt_string(self.architecture),
        }
    }
}

/// What is said of the device at a serial port.
#[verifier::ext_equal]
pub struct IntrospectModel {
    pub path: Seq<char>,
    pub vid: Option<u16>,
    pub pid: Option<u16>,
    pub board_name: Option<Seq<char>>,
    pub architecture: Option<Seq<char>>,
    pub memory_map_note: Seq<char>,
}

impl View for IntrospectResult {
    type V = IntrospectModel;

    open spec fn view(&self) -> IntrospectModel {
        IntrospectModel {
            path: self.path@,
            vid: self.vid,
            pid: self.pid,
            board_name: opt_string(self.board_name),
            architecture: opt_string(self.architecture),
            memory_map_note: self.memory_map_note@,
        }
    }
}

/// What a list of devices says.
pub open spec fn device_models(devices: Seq<UsbDevice>) -> Seq<DeviceModel> {
    devices.map_values(|d: UsbDevice| d@)
}

/// What a list of boards says.
pub open spec fn board_models(boards: Seq<BoardInfo>) -> Seq<BoardModel> {
    boards.map_values(|b: BoardInfo| b@)
}

/// The first device whose board is recognized.
pub open spec fn first_recognized(devices: Seq<DeviceModel>) -> Option<DeviceModel>
    decreases devices.len(),
{
    if devices.len() == 0 {
        None
    } else if devices[0].board_name is Some {
        Some(devices[0])
    } else {
        first_recognized(devices.skip(1))
    }
}

/// The device that is taken to be at the port: the first one that is
/// recognized, or else the first.
pub open spec fn matched(devices: Seq<DeviceModel>) -> Option<DeviceModel> {
    if first_recognized(devices) is Some {
        first_recognized(devices)
    } else if devices.len() > 0 {
        Some(devices[0])
    } else {
        None
    }
}

/// The first board of the registry with the two numbers.
pub open spec fn board_with(boards: Seq<BoardModel>, vid: u16, pid: u16) -> Option<BoardModel>
    decreases boards.len(),
{
    if boards.len() == 0 {
        None
    } else if boards[0].vid == vid && boards[0].pid == pid {
        Some(boards[0])
    } else {
        board_with(boards.skip(1), vid, pid)
    }
}

/// The note on the memory of a board.
pub open spec fn memory_note(board_name: Option<Seq<char>>) -> Seq<char> {
    match board_name {
        None => "Unknown device. Connect a supported board and try again."@,
        Some(name) => if name == "nucleo-f401re"@ {
            "Flash: 512 KB (0x08000000), RAM: 96 KB (0x20000000). Build with --features probe for live memory map via USB."@
        } else if name == "nucleo-f411re"@ {
            "Flash: 512 KB (0x08000000), RAM: 128 KB (0x20000000). Build with --features probe for live memory map via USB."@
        } else if name == "arduino-uno"@ {
            "Flash: 32 KB, SRAM: 2 KB, EEPROM: 1 KB"@
        } else if name == "arduino-mega"@ {
            "Flash: 256 KB, SRAM: 8 KB, EEPROM: 4 KB"@
        } else {
            "Build with --features probe for live memory map via USB"@
        },
    }
}

/// What is said of the device at `path`. The registry fills in what the device
/// does not say of itself.
pub open spec fn introspection(
    path: Seq<char>,
    devices: Seq<DeviceModel>,
    boards: Seq<BoardModel>,
) -> IntrospectModel {
    match matched(devices) {
        None => IntrospectModel {
            path,
            vid: None,
            pid: None,
            board_name: None,
            architecture: None,
            memory_map_note: memory_note(None),
        },
        Some(device) => {
            let board = board_with(boards, device.vid, device.pid);
            let board_name = match (device.board_name, board) {
                (Some(name), _) => Some(name),
                (None, Some(board)) => Some(board.name),
                (None, None) => None,
            };
            let architecture = match (device.architecture, board) {
                (Some(architecture), _) => Some(architecture),
                (None, Some(board)) => board.architecture,
                (None, None) => None,
            };
            IntrospectModel {
                path,
                vid: Some(device.vid),
                pid: Some(device.pid),
                board_name,
                architecture,
                memory_map_note: memory_note(board_name),
            }
        },
    }
}

/// What is said of the device at `path`, if the devices could be listed.
pub open spec fn introspected(
    path: Seq<char>,
    devices: Result<Vec<UsbDevice>, ZeptoError>,
    boards: Seq<BoardModel>,
) -> Result<IntrospectModel, ErrorModel> {
    match devices {
        Ok(devices) => Ok(introspection(path, device_models(devices@), boards)),
        Err(e) => Err(e@),
    }
}

/// The device that is taken to be at the port.
fn match_device(devices: &Vec<UsbDevice>) -> (r: Option<&UsbDevice>)
    ensures
        match r {
            Some(device) => matched(device_models(devices@)) == Some(device@),
            None => matched(device_models(devices@)) is None,
        },
{
    let ghost all = device_models(devices@);
    let mut i: usize = 0;
    proof {
        assert(all.skip(0) =~= all);
    }
    while i < devices.len()
        invariant
            i <= devices.len(),
            all == device_models(devices@),
            first_recognized(all) == first_recognized(all.skip(i as int)),
        decreases devices.len() - i,
    {
        proof {
            assert(all.skip(i as int)[0] == devices@[i as int]@);
            assert(all.skip(i as int).skip(1) =~= all.skip(i + 1));
        }
        if devices[i].board_name.is_some() {
            return Some(&devices[i]);
        }
        i = i + 1;
    }
    if devices.len() > 0 {
        proof {
            assert(all[0] == devices@[0]@);
        }
        Some(&devices[0])
    } else {
        None
    }
}

/// The first board of the registry with the two numbers.
fn lookup_board(boards: &Vec<BoardInfo>, vid: u16, pid: u16) -> (r: Option<&BoardInfo>)
    ensures
        match r {
            Some(board) => board_with(board_models(boards@), vid, pid) == Some(board@),
            None => board_with(board_models(boards@), vid, pid) is None,
        },
{
    let ghost all = board_models(boards@);
    let mut i: usize = 0;
    proof {
        assert(all.skip(0) =~= all);
    }
    while i < boards.len()
        invariant
            i <= boards.len(),
            all == board_models(boards@),
            board_with(all, vid, pid) == board_with(all.skip(i as int), vid, pid),
        decreases boards.len() - i,
    {
        proof {
            assert(all.skip(i as int)[0] == boards@[i as int]@);
            assert(all.skip(i as int).skip(1) =~= all.skip(i + 1));
        }
        if boards[i].vid == vid && boards[i].pid == pid {
            return Some(&boards[i]);
        }
        i = i + 1;
    }
    None
}

/// A second optional string of the same characters.
fn copy_option(s: &Option<String>) -> (r: Option<String>)
    ensures
        opt_string(r) == opt_string(*s),
{
    match s {
        Some(s) => Some(s.clone()),
        None => None,
    }
}

/// What is known of the device at `path`, from the connected devices and the
/// registry of boards. It is an error if the devices could not be listed.
pub fn introspect_device(
    path: &str,
    devices: Result<Vec<UsbDevice>, ZeptoError>,
    boards: &Vec<BoardInfo>,
) -> (r: Result<IntrospectResult, ZeptoError>)
    ensures
        outcome(r) == introspected(path@, devices, board_models(boards@)),
{
    let devices = match devices {
        Ok(devices) => devices,
        Err(e) => return Err(e),
    };
    match match_device(&devices) {
        None => Ok(
            IntrospectResult {
                path: path.to_string(),
                vid: None,
                pid: None,
                board_name: None,
                architecture: None,
                memory_map_note: memory_map_for_board(None),
            },
        ),
        Some(device) => {
            let board = lookup_board(boards, device.vid, device.pid);
            let board_name = match (&device.board_name, board) {
                (Some(name), _) => Some(name.clone()),
                (None, Some(board)) => Some(board.name.clone()),
                (None, None) => None,
            };
            let architecture = match (&device.architecture, board) {
                (Some(architecture), _) => Some(architecture.clone()),
                (None, Some(board)) => copy_option(&board.architecture),
                (None, None) => None,
            };
            let memory_map_note = match &board_name {
                Some(name) => memory_map_for_board(Some(name.as_str())),
                None => memory_map_for_board(None),
            };
            Ok(
                IntrospectResult {
                    path: path.to_string(),
                    vid: Some(device.vid),
                    pid: Some(device.pid),
                    board_name,
                    architecture,
                    memory_map_note,
                },
            )
        },
    }
}

/// The note on the memory of a board.
pub fn memory_map_for_board(board_name: Option<&str>) -> (r: String)
    ensures
        r@ == memory_note(opt_text(board_name)),
{
    let note = match board_name {
        None => "Unknown device. Connect a supported board and try again.",
        Some(name) => if same_text(name, "nucleo-f401re") {
            "Flash: 512 KB (0x08000000), RAM: 96 KB (0x20000000). Build with --features probe for live memory map via USB."
        } else if same_text(name, "nucleo-f411re") {
            "Flash: 512 KB (0x08000000), RAM: 128 KB (0x20000000). Build with --features probe for live memory map via USB."
        } else if same_text(name, "arduino-uno") {
            "Flash: 32 KB, SRAM: 2 KB, EEPROM: 1 KB"
        } else if same_text(name, "arduino-mega") {
            "Flash: 256 KB, SRAM: 8 KB, EEPROM: 4 KB"
        } else {
            "Build with --features probe for live memory map via USB"
        },
    };
    note.to_string()
}

/// What the path of a serial port begins with.
pub open spec fn serial_prefixes() -> Seq<Seq<char>> {
    seq![
        "/dev/ttyACM"@,
        "/dev/ttyUSB"@,
        "/dev/tty.usbmodem"@,
        "/dev/cu.usbmodem"@,
        "/dev/tty.usbserial"@,
        "/dev/cu.usbserial"@,
        "COM"@,
    ]
}

/// Whether a path is one of a serial port.
pub open spec fn serial_path(path: Seq<char>) -> bool {
    exists|i: int|
        0 <= i < serial_prefixes().len() && (#[trigger] serial_prefixes()[i]).is_prefix_of(path)
}

/// The complaint that a path is none of a serial port.
pub open spec fn bad_path(path: Seq<char>) -> Seq<char> {
    "Serial path not allowed: "@ + path + ". Allowed prefixes: "@ + joined(
        serial_prefixes(),
        ", "@,
    )
}

/// What the path of a serial port begins with.
fn allowed_path_prefixes() -> (r: Vec<String>)
    ensures
        texts(r@) == serial_prefixes(),
{
    let mut list: Vec<String> = Vec::new();
    list.push("/dev/ttyACM".to_string());
    list.push("/dev/ttyUSB".to_string());
    list.push("/dev/tty.usbmodem".to_string());
    list.push("/dev/cu.usbmodem".to_string());
    list.push("/dev/tty.usbserial".to_string());
    list.push("/dev/cu.usbserial".to_string());
    list.push("COM".to_string());
    proof {
        assert(texts(list@) =~= serial_prefixes());
    }
    list
}

/// Refuses any path that is none of a serial port, so that no other file can be
/// opened as one.
pub fn validate_serial_path(path: &str) -> (r: Result<(), String>)
    ensures
        match r {
            Ok(_) => serial_path(path@),
            Err(e) => !serial_path(path@) && e@ == bad_path(path@),
        },
{
    let prefixes = allowed_path_prefixes();
    let ghost all = serial_prefixes();
    let mut i: usize = 0;
    while i < prefixes.len()
        invariant
            i <= prefixes.len(),
            all == serial_prefixes(),
            all == texts(prefixes@),
            forall|j: int| 0 <= j < i ==> !(#[trigger] all[j]).is_prefix_of(path@),
        decreases prefixes.len() - i,
    {
        if starts_with(path, prefixes[i].as_str()) {
            proof {
                assert(all[i as int].is_prefix_of(path@));
            }
            return Ok(());
        }
        i = i + 1;
    }
    let list = join(&prefixes, ", ");
    let mut text = concat("Serial path not allowed: ", path, ". Allowed prefixes: ");
    text.append(list.as_str());
    Err(text)
}

/// A device that is alone is taken to be at the port.
pub proof fn single_device_is_matched(devices: Seq<DeviceModel>)
    requires
        devices.len() == 1,
    ensures
        matched(devices) == Some(devices[0]),
{
    assert(devices.skip(1) =~= Seq::empty());
    assert(first_recognized(devices.skip(1)) is None);
}

/// Where some device is recognized, one that is recognized is taken to be at the
/// port; otherwise the first.
pub proof fn recognized_device_is_preferred(devices: Seq<DeviceModel>)
    ensures
        (exists|i: int| 0 <= i < devices.len() && (#[trigger] devices[i]).board_name is Some)
            ==> (matched(devices) matches Some(device) && device.board_name is Some
            && devices.contains(device)),
        (forall|i: int| 0 <= i < devices.len() ==> (#[trigger] devices[i]).board_name is None)
            && devices.len() > 0 ==> matched(devices) == Some(devices[0]),
{
    recognized_device_is_found(devices);
}

/// A recognized device is found just where there is one.
proof fn recognized_device_is_found(devices: Seq<DeviceModel>)
    ensures
        first_recognized(devices) is Some == exists|i: int|
            0 <= i < devices.len() && (#[trigger] devices[i]).board_name is Some,
        first_recognized(devices) matches Some(device) ==> device.board_name is Some
            && devices.contains(device),
    decreases devices.len(),
{
    if devices.len() > 0 {
        let rest = devices.skip(1);
        recognized_device_is_found(rest);
        if first_recognized(rest) is Some {
            let i = choose|i: int|
                0 <= i < rest.len() && (#[trigger] rest[i]).board_name is Some;
            assert(devices[i + 1].board_name is Some);
            let k = choose|k: int| 0 <= k < rest.len() && rest[k] == first_recognized(rest)->0;
            assert(devices[k + 1] == first_recognized(rest)->0);
        }
        if exists|i: int| 0 <= i < devices.len() && (#[trigger] devices[i]).board_name is Some {
            let i = choose|i: int|
                0 <= i < devices.len() && (#[trigger] devices[i]).board_name is Some;
            if i > 0 {
                assert(rest[i - 1].board_name is Some);
            }
        }
    }
}

} // verus!
