use zeptoclaw::error::ZeptoError;
use zeptoclaw::hardware::introspect::{
    introspect_device, memory_map_for_board, validate_serial_path, BoardInfo, UsbDevice,
};
use zeptoclaw::peripherals::arduino::ArduinoPeripheral;
use zeptoclaw::peripherals::board_profile::{esp32_profile, profile_for};
use zeptoclaw::peripherals::esp32::{tools_for, BoardTool, Esp32Peripheral, ESP32_DEFAULT_BAUD};
use zeptoclaw::peripherals::nucleo::NucleoPeripheral;

fn device(vid: u16, pid: u16, board: Option<&str>, arch: Option<&str>) -> UsbDevice {
    UsbDevice {
        vid,
        pid,
        board_name: board.map(String::from),
        architecture: arch.map(String::from),
    }
}

fn registry() -> Vec<BoardInfo> {
    vec![
        BoardInfo {
            vid: 0x0483,
            pid: 0x374b,
            name: "nucleo-f401re".to_string(),
            architecture: Some("ARM Cortex-M4".to_string()),
        },
        BoardInfo {
            vid: 0x2341,
            pid: 0x0043,
            name: "arduino-uno".to_string(),
            architecture: None,
        },
        BoardInfo {
            vid: 0x2341,
            pid: 0x0043,
            name: "second".to_string(),
            architecture: Some("other".to_string()),
        },
    ]
}

#[test]
fn introspection_without_devices() {
    let r = introspect_device("/dev/ttyACM0", Ok(Vec::new()), &registry()).unwrap();
    assert_eq!(r.path, "/dev/ttyACM0");
    assert_eq!((r.vid, r.pid), (None, None));
    assert_eq!(r.board_name, None);
    assert_eq!(r.architecture, None);
    assert_eq!(
        r.memory_map_note,
        "Unknown device. Connect a supported board and try again."
    );
}

#[test]
fn single_device_is_taken() {
    let devices = vec![device(0x0483, 0x374b, None, None)];
    let r = introspect_device("COM3", Ok(devices), &registry()).unwrap();
    assert_eq!((r.vid, r.pid), (Some(0x0483), Some(0x374b)));
    assert_eq!(r.board_name.as_deref(), Some("nucleo-f401re"));
    assert_eq!(r.architecture.as_deref(), Some("ARM Cortex-M4"));
    assert_eq!(
        r.memory_map_note,
        "Flash: 512 KB (0x08000000), RAM: 96 KB (0x20000000). \
         Build with --features probe for live memory map via USB."
    );
}

#[test]
fn recognized_board_is_preferred() {
    let devices = vec![
        device(1, 2, None, None),
        device(3, 4, Some("custom"), None),
        device(0x2341, 0x0043, Some("arduino-uno"), Some("AVR")),
    ];
    let r = introspect_device("COM3", Ok(devices), &registry()).unwrap();
    assert_eq!((r.vid, r.pid), (Some(3), Some(4)));
    assert_eq!(r.board_name.as_deref(), Some("custom"));
    assert_eq!(r.architecture, None);
    assert_eq!(
        r.memory_map_note,
        "Build with --features probe for live memory map via USB"
    );
}

#[test]
fn first_device_where_none_is_recognized() {
    let devices = vec![device(0x2341, 0x0043, None, None), device(3, 4, None, None)];
    let r = introspect_device("COM3", Ok(devices), &registry()).unwrap();
    assert_eq!((r.vid, r.pid), (Some(0x2341), Some(0x0043)));
    assert_eq!(r.board_name.as_deref(), Some("arduino-uno"));
    assert_eq!(r.architecture, None);
}

#[test]
fn device_knows_better_than_the_registry() {
    let devices = vec![device(0x0483, 0x374b, Some("nucleo-f411re"), Some("M4F"))];
    let r = introspect_device("COM3", Ok(devices), &registry()).unwrap();
    assert_eq!(r.board_name.as_deref(), Some("nucleo-f411re"));
    assert_eq!(r.architecture.as_deref(), Some("M4F"));
}

#[test]
fn devices_that_cannot_be_listed() {
    let r = introspect_device("COM3", Err(ZeptoError::Tool("no usb".to_string())), &registry());
    assert_eq!(r.unwrap_err().message(), "no usb");
}

#[test]
fn notes_on_memory() {
    assert_eq!(
        memory_map_for_board(Some("nucleo-f411re")),
        "Flash: 512 KB (0x08000000), RAM: 128 KB (0x20000000). \
         Build with --features probe for live memory map via USB."
    );
    assert_eq!(
        memory_map_for_board(Some("arduino-uno")),
        "Flash: 32 KB, SRAM: 2 KB, EEPROM: 1 KB"
    );
    assert_eq!(
        memory_map_for_board(Some("arduino-mega")),
        "Flash: 256 KB, SRAM: 8 KB, EEPROM: 4 KB"
    );
}

#[test]
fn serial_paths() {
    for path in [
        "/dev/ttyACM0",
        "/dev/ttyUSB1",
        "/dev/tty.usbmodem1",
        "/dev/cu.usbmodem1",
        "/dev/tty.usbserial-1",
        "/dev/cu.usbserial-1",
        "COM3",
    ] {
        assert!(validate_serial_path(path).is_ok());
    }
    for path in ["", "/dev/tty", "/dev/sda", "com3", " COM3"] {
        assert!(validate_serial_path(path).is_err());
    }
    assert_eq!(
        validate_serial_path("/etc/passwd").unwrap_err(),
        "Serial path not allowed: /etc/passwd. Allowed prefixes: /dev/ttyACM, /dev/ttyUSB, \
         /dev/tty.usbmodem, /dev/cu.usbmodem, /dev/tty.usbserial, /dev/cu.usbserial, COM"
    );
}

#[test]
fn test_esp32_default_baud() {
    assert_eq!(ESP32_DEFAULT_BAUD, 115_200);
}

#[test]
fn test_esp32_profile_has_i2c() {
    let profile = esp32_profile();
    assert!(
        !profile.i2c_buses.is_empty(),
        "ESP32 profile should have I2C buses"
    );
    let bus = profile.i2c_bus(0).expect("bus 0 should exist");
    assert_eq!(bus.sda_pin, 21);
    assert_eq!(bus.scl_pin, 22);
}

#[test]
fn test_esp32_profile_has_nvs() {
    assert!(
        esp32_profile().has_nvs,
        "ESP32 profile should have NVS support"
    );
}

#[test]
fn test_esp32_new_rejects_invalid_path() {
    match Esp32Peripheral::new("/etc/passwd") {
        Ok(_) => panic!("should reject disallowed path"),
        Err(e) => {
            let msg = e.message();
            assert!(
                msg.contains("not allowed"),
                "error should mention 'not allowed', got: {msg}"
            );
        }
    }
}

#[test]
fn profile_of_the_esp32() {
    let profile = esp32_profile();
    assert_eq!(profile.name, "esp32");
    assert!(profile.is_valid_gpio(2));
    assert!(profile.is_valid_gpio(21));
    assert!(!profile.is_valid_gpio(6));
    assert!(!profile.is_valid_gpio(255));
    assert!(profile.is_valid_adc(36));
    assert!(!profile.is_valid_adc(2));
    assert!(profile.i2c_bus(1).is_none());
    assert!(profile.has_pwm);
    assert_eq!(profile.gpio_pins.len(), 26);
}

#[test]
fn profiles_by_name() {
    assert_eq!(profile_for("esp32").unwrap().name, "esp32");
    assert!(profile_for("unknown_board").is_none());
}

#[test]
fn tools_follow_the_profile() {
    let board = Esp32Peripheral::new("/dev/ttyUSB0").unwrap_or_else(|e| panic!("{}", e.message()));
    assert_eq!(board.board_type(), "esp32");
    assert_eq!(
        board.tools(),
        [
            BoardTool::I2cScan,
            BoardTool::I2cRead,
            BoardTool::I2cWrite,
            BoardTool::NvsGet,
            BoardTool::NvsSet,
            BoardTool::NvsDelete,
        ]
    );
    let mut profile = esp32_profile();
    profile.i2c_buses.clear();
    assert_eq!(
        tools_for(&profile),
        [BoardTool::NvsGet, BoardTool::NvsSet, BoardTool::NvsDelete]
    );
    profile.has_nvs = false;
    assert!(tools_for(&profile).is_empty());
}

#[test]
fn boards_on_their_ports() {
    let uno = ArduinoPeripheral::uno("/dev/ttyACM0").unwrap_or_else(|e| panic!("{}", e.message()));
    assert_eq!(uno.board_type(), "arduino-uno");
    assert_eq!(uno.port().path(), "/dev/ttyACM0");
    assert_eq!(uno.port().baud_rate(), 115_200);
    let mega = ArduinoPeripheral::mega("COM4").unwrap_or_else(|e| panic!("{}", e.message()));
    assert_eq!(mega.board_type(), "arduino-mega");
    let f401 = NucleoPeripheral::f401re("COM4").unwrap_or_else(|e| panic!("{}", e.message()));
    assert_eq!(f401.board_type(), "nucleo-f401re");
    assert_eq!(f401.port().baud_rate(), 115_200);
    let f411 = NucleoPeripheral::f411re("COM4").unwrap_or_else(|e| panic!("{}", e.message()));
    assert_eq!(f411.board_type(), "nucleo-f411re");
    assert!(ArduinoPeripheral::new("/tmp/x", "arduino-uno").is_err());
    assert!(NucleoPeripheral::new("/tmp/x", "nucleo-f401re").is_err());
}

#[test]
fn ports_that_cannot_be_opened() {
    let board = || Esp32Peripheral::new("/dev/ttyUSB0").unwrap_or_else(|e| panic!("{}", e.message()));
    assert!(!board().port().is_open());
    match board().opened(Ok(())) {
        Ok(board) => {
            assert!(board.port().is_open());
            assert_eq!(board.port().path(), "/dev/ttyUSB0");
            assert_eq!(board.port().board_type(), "esp32");
        }
        Err(e) => panic!("{}", e.message()),
    }
    match board().opened(Err("busy".to_string())) {
        Ok(_) => panic!("expected an error"),
        Err(e) => assert_eq!(e.message(), "Failed to open serial port /dev/ttyUSB0: busy"),
    }
    let uno = ArduinoPeripheral::uno("COM1").unwrap_or_else(|e| panic!("{}", e.message()));
    assert!(uno.opened(Err("busy".to_string())).is_err());
    let f401 = NucleoPeripheral::f401re("COM1").unwrap_or_else(|e| panic!("{}", e.message()));
    assert!(f401.opened(Ok(())).is_ok());
}
