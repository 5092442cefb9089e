//! Laws of connected devices: what is known of them, the boards and their
//! storage.

use vstd::prelude::*;
use vstd::string::*;
use crate::error::{ErrorModel, ZeptoError};
use crate::hardware::introspect::{
    bad_path, board_with, first_recognized, introspected, introspection, matched, memory_note, serial_path,
    serial_prefixes, BoardModel, DeviceModel, IntrospectModel, UsbDevice,
};
use crate::json::JsonModel;
use crate::laws::values::text_at;
use crate::peripherals::arduino::ARDUINO_DEFAULT_BAUD;
use crate::peripherals::board_profile::{bus_with, esp32, known_profile, I2cBus};
use crate::peripherals::esp32::{profile_tools, BoardTool, ESP32_DEFAULT_BAUD};
use crate::peripherals::nucleo::NUCLEO_DEFAULT_BAUD;
use crate::peripherals::nvs::{
    nvs_char, nvs_fault, set_arguments, set_command, slot_arguments, slot_command, slot_properties, CommandModel,
};
use crate::peripherals::serial::{board_at, board_opened, PeripheralModel};
use crate::text::{decimal, joined, utf8_len};

verus! {

/// A board that is found has both numbers and is in the registry, and no earlier
/// entry has both; where none is found, no entry of the registry has both.
pub proof fn board_is_found_by_both_numbers(boards: Seq<BoardModel>, vid: u16, pid: u16)
    ensures
        match board_with(boards, vid, pid) {
            Some(board) => {
                &&& board.vid == vid
                &&& board.pid == pid
                &&& exists|i: int|
                    0 <= i < boards.len() && #[trigger] boards[i] == board && forall|j: int|
                        0 <= j < i ==> !((#[trigger] boards[j]).vid == vid && boards[j].pid == pid)
            },
            None => forall|i: int|
                0 <= i < boards.len() ==> !((#[trigger] boards[i]).vid == vid && boards[i].pid
                    == pid),
        },
    decreases boards.len(),
{
    if boards.len() > 0 {
        if boards[0].vid == vid && boards[0].pid == pid {
            assert(boards[0] == board_with(boards, vid, pid)->0);
        } else {
            let rest = boards.skip(1);
            board_is_found_by_both_numbers(rest, vid, pid);
            match board_with(rest, vid, pid) {
                Some(board) => {
                    let k = choose|i: int|
                        0 <= i < rest.len() && #[trigger] rest[i] == board && forall|j: int|
                            0 <= j < i ==> !((#[trigger] rest[j]).vid == vid && rest[j].pid
                                == pid);
                    assert(boards[k + 1] == board);
                    assert forall|j: int| 0 <= j < k + 1 implies !((#[trigger] boards[j]).vid
                        == vid && boards[j].pid == pid) by {
                        if j > 0 {
                            assert(rest[j - 1] == boards[j]);
                        }
                    }
                },
                None => {
                    assert forall|i: int| 0 <= i < boards.len() implies !((
                    #[trigger] boards[i]).vid == vid && boards[i].pid == pid) by {
                        if i > 0 {
                            assert(rest[i - 1] == boards[i]);
                        }
                    }
                },
            }
        }
    }
}

/// The first device that is recognized is taken to be at the port.
pub proof fn first_recognized_device_is_taken(devices: Seq<DeviceModel>, i: int)
    requires
        0 <= i < devices.len(),
        devices[i].board_name is Some,
        forall|j: int| 0 <= j < i ==> (#[trigger] devices[j]).board_name is None,
    ensures
        matched(devices) == Some(devices[i]),
        first_recognized(devices) == Some(devices[i]),
    decreases devices.len(),
{
    if i > 0 {
        assert(devices[0].board_name is None);
        let rest = devices.skip(1);
        assert forall|j: int| 0 <= j < i - 1 implies (#[trigger] rest[j]).board_name is None by {
            assert(devices[j + 1].board_name is None);
        }
        first_recognized_device_is_taken(rest, i - 1);
    }
}

/// Where no device is recognized the first is taken, and without devices none.
pub proof fn first_device_is_taken_otherwise(devices: Seq<DeviceModel>)
    requires
        forall|j: int| 0 <= j < devices.len() ==> (#[trigger] devices[j]).board_name is None,
    ensures
        first_recognized(devices) is None,
        devices.len() > 0 ==> matched(devices) == Some(devices[0]),
        devices.len() == 0 ==> matched(devices) is None,
    decreases devices.len(),
{
    if devices.len() > 0 {
        assert(devices[0].board_name is None);
        let rest = devices.skip(1);
        assert forall|j: int| 0 <= j < rest.len() implies (#[trigger] rest[j]).board_name is None by {
            assert(devices[j + 1].board_name is None);
        }
        first_device_is_taken_otherwise(rest);
    }
}

/// What is known of the device at a port are the numbers of the device that is
/// taken to be there, and its name and architecture: as the device says them
/// itself, or else as the registry says of the board with both numbers.
pub proof fn what_is_known_of_a_device(
    path: Seq<char>,
    devices: Seq<DeviceModel>,
    boards: Seq<BoardModel>,
    device: DeviceModel,
)
    requires
        matched(devices) == Some(device),
    ensures
        ({
            let known = introspection(path, devices, boards);
            &&& known.path == path
            &&& known.vid == Some(device.vid)
            &&& known.pid == Some(device.pid)
            &&& device.board_name is Some ==> known.board_name == device.board_name
            &&& device.architecture is Some ==> known.architecture == device.architecture
            &&& device.board_name is None ==> known.board_name == (match board_with(
                boards,
                device.vid,
                device.pid,
            ) {
                Some(board) => Some(board.name),
                None => None,
            })
            &&& device.architecture is None ==> known.architecture == (match board_with(
                boards,
                device.vid,
                device.pid,
            ) {
                Some(board) => board.architecture,
                None => None,
            })
            &&& known.memory_map_note == memory_note(known.board_name)
        }),
{
}

/// Without a device nothing is known but the path.
pub proof fn nothing_is_known_without_a_device(path: Seq<char>, boards: Seq<BoardModel>)
    ensures
        ({
            let known = introspection(path, Seq::empty(), boards);
            &&& known.path == path
            &&& known.vid is None
            &&& known.pid is None
            &&& known.board_name is None
            &&& known.architecture is None
            &&& known.memory_map_note
                == "Unknown device. Connect a supported board and try again."@
        }),
{
    first_device_is_taken_otherwise(Seq::empty());
}

/// The four boards whose memory is known have notes of their own; any other
/// board has a note on how to learn of it.
pub proof fn notes_on_memory(name: Seq<char>)
    ensures
        memory_note(None) == "Unknown device. Connect a supported board and try again."@,
        memory_note(Some("nucleo-f401re"@))
            == "Flash: 512 KB (0x08000000), RAM: 96 KB (0x20000000). Build with --features probe for live memory map via USB."@,
        memory_note(Some("nucleo-f411re"@))
            == "Flash: 512 KB (0x08000000), RAM: 128 KB (0x20000000). Build with --features probe for live memory map via USB."@,
        memory_note(Some("arduino-uno"@)) == "Flash: 32 KB, SRAM: 2 KB, EEPROM: 1 KB"@,
        memory_note(Some("arduino-mega"@)) == "Flash: 256 KB, SRAM: 8 KB, EEPROM: 4 KB"@,
        name != "nucleo-f401re"@ && name != "nucleo-f411re"@ && name != "arduino-uno"@ && name
            != "arduino-mega"@ ==> memory_note(Some(name))
            == "Build with --features probe for live memory map via USB"@,
{
    reveal_strlit("nucleo-f401re");
    reveal_strlit("nucleo-f411re");
    reveal_strlit("arduino-uno");
    reveal_strlit("arduino-mega");
    assert("nucleo-f401re"@.len() == 13 && "nucleo-f411re"@.len() == 13);
    assert("nucleo-f401re"@[9] == '0' && "nucleo-f411re"@[9] == '1');
    assert("arduino-uno"@.len() == 11 && "arduino-mega"@.len() == 12);
}

/// A path is one of a serial port just where it begins in one of seven ways.
pub proof fn paths_of_serial_ports(path: Seq<char>)
    ensures
        serial_path(path) <==> "/dev/ttyACM"@.is_prefix_of(path) || "/dev/ttyUSB"@.is_prefix_of(
            path,
        ) || "/dev/tty.usbmodem"@.is_prefix_of(path) || "/dev/cu.usbmodem"@.is_prefix_of(path)
            || "/dev/tty.usbserial"@.is_prefix_of(path) || "/dev/cu.usbserial"@.is_prefix_of(path)
            || "COM"@.is_prefix_of(path),
{
    let all = serial_prefixes();
    assert(all[0] == "/dev/ttyACM"@ && all[1] == "/dev/ttyUSB"@ && all[2] == "/dev/tty.usbmodem"@);
    assert(all[3] == "/dev/cu.usbmodem"@ && all[4] == "/dev/tty.usbserial"@);
    assert(all[5] == "/dev/cu.usbserial"@ && all[6] == "COM"@);
    if serial_path(path) {
        let i = choose|i: int|
            0 <= i < serial_prefixes().len() && (#[trigger] serial_prefixes()[i]).is_prefix_of(
                path,
            );
        assert(all[i].is_prefix_of(path));
    }
}

/// The complaint names the path that was refused and the seven beginnings.
pub proof fn complaint_about_a_path(path: Seq<char>)
    ensures
        bad_path(path) == "Serial path not allowed: "@ + path + ". Allowed prefixes: "@ + joined(
            seq![
                "/dev/ttyACM"@,
                "/dev/ttyUSB"@,
                "/dev/tty.usbmodem"@,
                "/dev/cu.usbmodem"@,
                "/dev/tty.usbserial"@,
                "/dev/cu.usbserial"@,
                "COM"@,
            ],
            ", "@,
        ),
{
}

/// A board is at a path just where that is one of a serial port; it is the board
/// that was asked for, and its port is shut.
pub proof fn boards_at_serial_ports(path: Seq<char>, board: Seq<char>, baud_rate: u32)
    ensures
        match board_at(path, board, baud_rate) {
            Ok(found) => serial_path(path) && found.path == path && found.board == board
                && found.baud_rate == baud_rate && !found.open,
            Err(e) => !serial_path(path) && e == ErrorModel::Config(bad_path(path)),
        },
{
}

/// A board whose port could be opened is the same board with its port open; else
/// the error names the port and the reason.
pub proof fn boards_are_opened(board: PeripheralModel, reason: String)
    ensures
        board_opened(board, Ok(())) matches Ok(after) && after.open && after.path == board.path
            && after.board == board.board && after.baud_rate == board.baud_rate,
        board_opened(board, Err(reason)) == Err::<PeripheralModel, ErrorModel>(
            ErrorModel::Config("Failed to open serial port "@ + board.path + ": "@ + reason@),
        ),
{
}

/// All boards talk at 115200 baud.
pub proof fn boards_talk_at_one_speed()
    ensures
        ARDUINO_DEFAULT_BAUD == 115_200,
        ESP32_DEFAULT_BAUD == 115_200,
        NUCLEO_DEFAULT_BAUD == 115_200,
{
}

/// The bus that is found is the first with the number.
pub proof fn bus_is_found_by_its_number(buses: Seq<I2cBus>, id: u8)
    ensures
        match bus_with(buses, id) {
            Some(bus) => bus.id == id && exists|i: int|
                0 <= i < buses.len() && #[trigger] buses[i] == bus && forall|j: int|
                    0 <= j < i ==> (#[trigger] buses[j]).id != id,
            None => forall|i: int| 0 <= i < buses.len() ==> (#[trigger] buses[i]).id != id,
        },
    decreases buses.len(),
{
    if buses.len() > 0 {
        if buses[0].id == id {
            assert(buses[0] == bus_with(buses, id)->0);
        } else {
            let rest = buses.skip(1);
            bus_is_found_by_its_number(rest, id);
            match bus_with(rest, id) {
                Some(bus) => {
                    let k = choose|i: int|
                        0 <= i < rest.len() && #[trigger] rest[i] == bus && forall|j: int|
                            0 <= j < i ==> (#[trigger] rest[j]).id != id;
                    assert(buses[k + 1] == bus);
                    assert forall|j: int| 0 <= j < k + 1 implies (#[trigger] buses[j]).id != id by {
                        if j > 0 {
                            assert(rest[j - 1] == buses[j]);
                        }
                    }
                },
                None => {
                    assert forall|i: int| 0 <= i < buses.len() implies (#[trigger] buses[i]).id
                        != id by {
                        if i > 0 {
                            assert(rest[i - 1] == buses[i]);
                        }
                    }
                },
            }
        }
    }
}

/// The pins of the ESP32 that are for input and output leave out 6 to 11, which
/// the flash takes, and those that the board does not bring out; the last of them
/// can measure a voltage. It has one I2C bus, storage and pulse width modulation.
pub proof fn pins_of_the_esp32(pin: u8)
    ensures
        esp32().name == "esp32"@,
        esp32().gpio_pins.contains(pin) <==> (pin <= 5 || 12 <= pin <= 19 || 21 <= pin <= 23 || 25
            <= pin <= 27 || 32 <= pin <= 36 || pin == 39),
        esp32().adc_pins.contains(pin) <==> (32 <= pin <= 36 || pin == 39),
        bus_with(esp32().i2c_buses, 0) matches Some(bus) && bus.sda_pin == 21 && bus.scl_pin == 22,
        esp32().i2c_buses.len() == 1,
        esp32().has_nvs,
        esp32().has_pwm,
{
    let gpio = esp32().gpio_pins;
    let adc = esp32().adc_pins;
    if pin <= 5 {
        assert(gpio[pin as int] == pin);
    }
    if 12 <= pin <= 19 {
        assert(gpio[pin - 6] == pin);
    }
    if 21 <= pin <= 23 {
        assert(gpio[pin - 7] == pin);
    }
    if 25 <= pin <= 27 {
        assert(gpio[pin - 8] == pin);
    }
    if 32 <= pin <= 36 {
        assert(gpio[pin - 12] == pin);
        assert(adc[pin - 32] == pin);
    }
    if pin == 39 {
        assert(gpio[25] == pin);
        assert(adc[5] == pin);
    }
}

/// The tools of the ESP32: three for I2C, then three for its storage.
pub proof fn tools_of_the_esp32()
    ensures
        profile_tools(esp32()) == seq![
            BoardTool::I2cScan,
            BoardTool::I2cRead,
            BoardTool::I2cWrite,
            BoardTool::NvsGet,
            BoardTool::NvsSet,
            BoardTool::NvsDelete,
        ],
{
    assert(profile_tools(esp32()) =~= seq![
        BoardTool::I2cScan,
        BoardTool::I2cRead,
        BoardTool::I2cWrite,
        BoardTool::NvsGet,
        BoardTool::NvsSet,
        BoardTool::NvsDelete,
    ]);
}

/// Whether a text can be a name in the storage: one to fifteen bytes of ASCII
/// letters, digits, underscores and hyphens.
pub open spec fn storage_name(name: Seq<char>) -> bool {
    &&& name.len() > 0
    &&& utf8_len(name) <= 15
    &&& made_of_name_chars(name)
}

/// Whether a text is made of ASCII letters, digits, underscores and hyphens.
pub open spec fn made_of_name_chars(name: Seq<char>) -> bool {
    forall|i: int|
        0 <= i < name.len() ==> 'a' <= #[trigger] name[i] <= 'z' || 'A' <= name[i] <= 'Z' || '0'
            <= name[i] <= '9' || name[i] == '_' || name[i] == '-'
}

/// The characters of a name in the storage.
proof fn use_nvs_char(name: Seq<char>)
    ensures
        (exists|i: int| 0 <= i < name.len() && !#[trigger] nvs_char(name[i]))
            == !made_of_name_chars(name),
{
    if exists|i: int| 0 <= i < name.len() && !#[trigger] nvs_char(name[i]) {
        let i = choose|i: int| 0 <= i < name.len() && !#[trigger] nvs_char(name[i]);
        assert(!('a' <= name[i] <= 'z' || 'A' <= name[i] <= 'Z' || '0' <= name[i] <= '9' || name[i]
            == '_' || name[i] == '-'));
    } else {
        assert forall|i: int| 0 <= i < name.len() implies 'a' <= #[trigger] name[i] <= 'z' || 'A'
            <= name[i] <= 'Z' || '0' <= name[i] <= '9' || name[i] == '_' || name[i] == '-' by {
            assert(nvs_char(name[i]));
        }
    }
}

/// A text is refused as a name just where it is empty, too long or made of other
/// characters; the first of these is named, with the field and the text.
pub proof fn names_in_the_storage(value: Seq<char>, field: Seq<char>, max_len: usize)
    ensures
        nvs_fault(value, field, max_len) is None <==> value.len() > 0 && utf8_len(value) <= max_len
            && made_of_name_chars(value),
        value.len() == 0 ==> nvs_fault(value, field, max_len) == Some(
            "NVS "@ + field + " must not be empty"@,
        ),
        value.len() > 0 && utf8_len(value) > max_len ==> nvs_fault(value, field, max_len) == Some(
            "NVS "@ + field + " '"@ + value + "' exceeds maximum length of "@ + decimal(
                max_len as nat,
            ) + " bytes (got "@ + decimal(utf8_len(value)) + ")"@,
        ),
        value.len() > 0 && utf8_len(value) <= max_len && !made_of_name_chars(value) ==> nvs_fault(
            value,
            field,
            max_len,
        ) == Some(
            "NVS "@ + field + " '"@ + value
                + "' contains invalid characters; only alphanumeric, '_', and '-' are allowed"@,
        ),
{
    use_nvs_char(value);
}

/// The namespace of a call: the text under `namespace`, or `config` without one.
pub open spec fn called_namespace(members: Map<Seq<char>, JsonModel>) -> Seq<char> {
    match text_at(members, "namespace"@) {
        Some(namespace) => namespace,
        None => "config"@,
    }
}

/// A command that stores carries the namespace, the key and the value of the
/// call, and nothing else.
pub proof fn set_command_carries_the_call(args: Map<Seq<char>, JsonModel>)
    ensures
        set_command(JsonModel::Object(args)) matches Ok(command) ==> {
            &&& command.name == "nvs_set"@
            &&& command.args matches JsonModel::Object(sent) && sent.dom() == set![
                "namespace"@,
                "key"@,
                "value"@,
            ] && sent["namespace"@] == JsonModel::Text(called_namespace(args)) && text_at(
                args,
                "key"@,
            ) == text_at(sent, "key"@) && text_at(args, "value"@) == text_at(sent, "value"@)
                && sent["key"@] is Text && sent["value"@] is Text
        },
{
    reveal_strlit("namespace");
    reveal_strlit("key");
    reveal_strlit("value");
    assert("namespace"@.len() == 9 && "key"@.len() == 3 && "value"@.len() == 5);
    if let Ok(command) = set_command(JsonModel::Object(args)) {
        let sent = command.args->Object_0;
        assert(sent.dom() =~= set!["namespace"@, "key"@, "value"@]);
    }
}

/// A value is stored just where the call has a key and a value that are texts,
/// the names are such as the storage can have and the value has at most four
/// thousand bytes. What is missing is named first, then what is wrong.
pub proof fn when_a_value_is_stored(args: Map<Seq<char>, JsonModel>)
    ensures
        set_command(JsonModel::Object(args)) is Ok <==> storage_name(called_namespace(args)) && (
        text_at(args, "key"@) matches Some(key) && storage_name(key)) && (text_at(
            args,
            "value"@,
        ) matches Some(value) && utf8_len(value) <= 4000),
        text_at(args, "key"@) is None ==> set_command(JsonModel::Object(args)) == Err::<
            CommandModel,
            ErrorModel,
        >(ErrorModel::Tool("Missing required parameter 'key'"@)),
        text_at(args, "key"@) is Some && text_at(args, "value"@) is None ==> set_command(
            JsonModel::Object(args),
        ) == Err::<CommandModel, ErrorModel>(
            ErrorModel::Tool("Missing required parameter 'value'"@),
        ),
        text_at(args, "key"@) is Some && text_at(args, "value"@) is Some && !storage_name(
            called_namespace(args),
        ) ==> (nvs_fault(called_namespace(args), "namespace"@, 15) is Some && set_command(
            JsonModel::Object(args),
        ) == Err::<CommandModel, ErrorModel>(
            ErrorModel::Tool(nvs_fault(called_namespace(args), "namespace"@, 15)->0),
        )),
        storage_name(called_namespace(args)) && (text_at(args, "key"@) matches Some(key)
            && !storage_name(key)) && text_at(args, "value"@) is Some ==> (nvs_fault(
            text_at(args, "key"@)->0,
            "key"@,
            15,
        ) is Some && set_command(JsonModel::Object(args)) == Err::<CommandModel, ErrorModel>(
            ErrorModel::Tool(nvs_fault(text_at(args, "key"@)->0, "key"@, 15)->0),
        )),
        storage_name(called_namespace(args)) && (text_at(args, "key"@) matches Some(key)
            && storage_name(key)) && (text_at(args, "value"@) matches Some(value) && utf8_len(value)
            > 4000) ==> set_command(JsonModel::Object(args)) == Err::<CommandModel, ErrorModel>(
            ErrorModel::Tool(
                "NVS value exceeds maximum length of "@ + decimal(4000) + " bytes (got "@
                    + decimal(utf8_len(text_at(args, "value"@)->0)) + ")"@,
            ),
        ),
{
    names_in_the_storage(called_namespace(args), "namespace"@, 15);
    if let Some(key) = text_at(args, "key"@) {
        names_in_the_storage(key, "key"@, 15);
    }
}

/// A command that reads or deletes carries the namespace and the key of the
/// call, and nothing else, under the name of the command.
pub proof fn slot_command_carries_the_call(name: Seq<char>, args: Map<Seq<char>, JsonModel>)
    ensures
        slot_command(name, JsonModel::Object(args)) matches Ok(command) ==> {
            &&& command.name == name
            &&& command.args matches JsonModel::Object(sent) && sent.dom() == set![
                "namespace"@,
                "key"@,
            ] && sent["namespace"@] == JsonModel::Text(called_namespace(args)) && text_at(
                args,
                "key"@,
            ) == text_at(sent, "key"@) && sent["key"@] is Text
        },
{
    reveal_strlit("namespace");
    reveal_strlit("key");
    assert("namespace"@.len() == 9 && "key"@.len() == 3);
    if let Ok(command) = slot_command(name, JsonModel::Object(args)) {
        let sent = command.args->Object_0;
        assert(sent.dom() =~= set!["namespace"@, "key"@]);
    }
}

/// A value is read or deleted just where the call has a key that is a text and
/// the names are such as the storage can have.
pub proof fn when_a_value_is_named(name: Seq<char>, args: Map<Seq<char>, JsonModel>)
    ensures
        slot_command(name, JsonModel::Object(args)) is Ok <==> storage_name(
            called_namespace(args),
        ) && (text_at(args, "key"@) matches Some(key) && storage_name(key)),
        text_at(args, "key"@) is None ==> slot_command(name, JsonModel::Object(args)) == Err::<
            CommandModel,
            ErrorModel,
        >(ErrorModel::Tool("Missing required parameter 'key'"@)),
        text_at(args, "key"@) is Some && !storage_name(called_namespace(args)) ==> (nvs_fault(
            called_namespace(args),
            "namespace"@,
            15,
        ) is Some && slot_command(name, JsonModel::Object(args)) == Err::<CommandModel, ErrorModel>(
            ErrorModel::Tool(nvs_fault(called_namespace(args), "namespace"@, 15)->0),
        )),
        storage_name(called_namespace(args)) && (text_at(args, "key"@) matches Some(key)
            && !storage_name(key)) ==> (nvs_fault(text_at(args, "key"@)->0, "key"@, 15) is Some
            && slot_command(name, JsonModel::Object(args)) == Err::<CommandModel, ErrorModel>(
            ErrorModel::Tool(nvs_fault(text_at(args, "key"@)->0, "key"@, 15)->0),
        )),
{
    names_in_the_storage(called_namespace(args), "namespace"@, 15);
    if let Some(key) = text_at(args, "key"@) {
        names_in_the_storage(key, "key"@, 15);
    }
}

/// A call whose arguments are no object gives no command.
pub proof fn other_values_give_no_command(name: Seq<char>, args: JsonModel)
    requires
        !(args is Object),
    ensures
        slot_command(name, args) == Err::<CommandModel, ErrorModel>(
            ErrorModel::Tool("Missing required parameter 'key'"@),
        ),
        set_command(args) == Err::<CommandModel, ErrorModel>(
            ErrorModel::Tool("Missing required parameter 'key'"@),
        ),
{
}

/// The names of a value stand in a schema as two texts, with the description of
/// the key as it is given.
pub proof fn names_in_a_schema(key_description: Seq<char>)
    ensures
        slot_properties(key_description).dom() == set!["namespace"@, "key"@],
        slot_properties(key_description)["key"@] matches JsonModel::Object(key) && key["type"@]
            == JsonModel::Text("string"@) && key["description"@] == JsonModel::Text(
            key_description,
        ),
        slot_properties(key_description)["namespace"@] matches JsonModel::Object(namespace)
            && namespace["type"@] == JsonModel::Text("string"@),
{
    reveal_strlit("namespace");
    reveal_strlit("key");
    reveal_strlit("type");
    reveal_strlit("description");
    assert("namespace"@.len() == 9 && "key"@.len() == 3);
    assert("type"@.len() == 4 && "description"@.len() == 11);
    assert(slot_properties(key_description).dom() =~= set!["namespace"@, "key"@]);
}

/// A call that stores has to give the key and the value, one that reads or deletes
/// the key; the namespace can be left out, and nothing else can be given.
pub proof fn schemas_of_the_storage(key_description: Seq<char>)
    ensures
        slot_arguments(key_description) matches JsonModel::Object(schema) && schema["required"@]
            == JsonModel::Array(seq![JsonModel::Text("key"@)]) && (
        schema["properties"@] matches JsonModel::Object(properties) && properties.dom() == set![
            "namespace"@,
            "key"@,
        ]),
        set_arguments() matches JsonModel::Object(schema) && schema["required"@]
            == JsonModel::Array(seq![JsonModel::Text("key"@), JsonModel::Text("value"@)]) && (
        schema["properties"@] matches JsonModel::Object(properties) && properties.dom() == set![
            "namespace"@,
            "key"@,
            "value"@,
        ] && (properties["value"@] matches JsonModel::Object(value) && value["type"@]
            == JsonModel::Text("string"@))),
{
    reveal_strlit("namespace");
    reveal_strlit("key");
    reveal_strlit("value");
    reveal_strlit("type");
    reveal_strlit("description");
    reveal_strlit("properties");
    reveal_strlit("required");
    assert("namespace"@.len() == 9 && "key"@.len() == 3 && "value"@.len() == 5);
    assert("type"@.len() == 4 && "description"@.len() == 11);
    assert("properties"@.len() == 10 && "required"@.len() == 8);
    let named = slot_arguments(key_description)->Object_0["properties"@]->Object_0;
    assert(named.dom() =~= set!["namespace"@, "key"@]);
    let stored = set_arguments()->Object_0["properties"@]->Object_0;
    assert(stored.dom() =~= set!["namespace"@, "key"@, "value"@]);
}

/// Of the kinds of boards just the ESP32 has a profile.
pub proof fn known_kinds_of_boards(board_type: Seq<char>)
    ensures
        known_profile("esp32"@) == Some(esp32()),
        board_type != "esp32"@ ==> known_profile(board_type) is None,
{
}

/// Where the devices could not be listed, that error is the answer; else what is
/// known of them.
pub proof fn introspection_needs_the_devices(
    path: Seq<char>,
    devices: Vec<UsbDevice>,
    boards: Seq<BoardModel>,
    e: ZeptoError,
)
    ensures
        introspected(path, Err(e), boards) == Err::<IntrospectModel, ErrorModel>(e@),
        introspected(path, Ok(devices), boards) == Ok::<IntrospectModel, ErrorModel>(
            introspection(path, devices@.map_values(|d: UsbDevice| d@), boards),
        ),
{
}

} // verus!
