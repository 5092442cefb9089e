//! What the pins of a board can do.

use vstd::prelude::*;
use vstd::string::*;
use crate::text::same_text;

verus! {

/// An I2C bus and its pins.
#[derive(Debug, Clone, Copy, PartialEq, Eq, Structural)]
pub struct I2cBus {
    pub id: u8,
    pub sda_pin: u8,
    pub scl_pin: u8,
}

/// What a board offers.
#[derive(Debug)]
pub struct BoardProfile {
    pub name: &'static str,
    pub gpio_pins: Vec<u8>,
    pub adc_pins: Vec<u8>,
    pub i2c_buses: Vec<I2cBus>,
    pub has_nvs: bool,
    pub has_pwm: bool,
}

/// What a profile says.
#[verifier::ext_equal]
pub struct ProfileModel {
    pub name: Seq<char>,
    pub gpio_pins: Seq<u8>,
    pub adc_pins: Seq<u8>,
    pub i2c_buses: Seq<I2cBus>,
    pub has_nvs: bool,
    pub has_pwm: bool,
}

impl View for BoardProfile {
    type V = ProfileModel;

    open spec fn view(&self) -> ProfileModel {
        ProfileModel {
            name: self.name@,
            gpio_pins: self.gpio_pins@,
            adc_pins: self.adc_pins@,
            i2c_buses: self.i2c_buses@,
            has_nvs: self.has_nvs,
            has_pwm: self.has_pwm,
        }
    }
}

/// Whether a pin is in the list.
fn has_pin(pins: &Vec<u8>, pin: u8) -> (r: bool)
    ensures
        r == pins@.contains(pin),
{
    let mut i: usize = 0;
    while i < pins.len()
        invariant
            i <= pins.len(),
            forall|j: int| 0 <= j < i ==> pins@[j] != pin,
        decreases pins.len() - i,
    {
        if pins[i] == pin {
            return true;
        }
        i = i + 1;
    }
    false
}

/// The first bus of a list with the number.
pub open spec fn bus_with(buses: Seq<I2cBus>, id: u8) -> Option<I2cBus>
    decreases buses.len(),
{
    if buses.len() == 0 {
        None
    } else if buses[0].id == id {
        Some(buses[0])
    } else {
        bus_with(buses.skip(1), id)
    }
}

impl BoardProfile {
    /// Whether the pin can be used for input and output.
    pub fn is_valid_gpio(&self, pin: u8) -> (r: bool)
        ensures
            r == self@.gpio_pins.contains(pin),
    {
        has_pin(&self.gpio_pins, pin)
    }

    /// Whether the pin can measure a voltage.
    pub fn is_valid_adc(&self, pin: u8) -> (r: bool)
        ensures
            r == self@.adc_pins.contains(pin),
    {
        has_pin(&self.adc_pins, pin)
    }

    /// The I2C bus with the number.
    pub fn i2c_bus(&self, id: u8) -> (r: Option<I2cBus>)
        ensures
            r == bus_with(self@.i2c_buses, id),
    {
        let buses = &self.i2c_buses;
        let mut i: usize = 0;
        proof {
            assert(buses@.skip(0) =~= buses@);
        }
        while i < buses.len()
            invariant
                i <= buses.len(),
                *buses == self.i2c_buses,
                bus_with(buses@, id) == bus_with(buses@.skip(i as int), id),
            decreases buses.len() - i,
        {
            proof {
                assert(buses@.skip(i as int)[0] == buses@[i as int]);
                assert(buses@.skip(i as int).skip(1) =~= buses@.skip(i + 1));
            }
            if buses[i].id == id {
                return Some(buses[i]);
            }
            i = i + 1;
        }
        None
    }
}

/// The ESP32 on a board of 38 pins.
pub open spec fn esp32() -> ProfileModel {
    ProfileModel {
        name: "esp32"@,
        gpio_pins: seq![
            0u8,
            1,
            2,
            3,
            4,
            5,
            12,
            13,
            14,
            15,
            16,
            17,
            18,
            19,
            21,
            22,
            23,
            25,
            26,
            27,
            32,
            33,
            34,
            35,
            36,
            39,
        ],
        adc_pins: seq![32u8, 33, 34, 35, 36, 39],
        i2c_buses: seq![I2cBus { id: 0, sda_pin: 21, scl_pin: 22 }],
        has_nvs: true,
        has_pwm: true,
    }
}

/// The ESP32 on a board of 38 pins.
pub fn esp32_profile() -> (r: BoardProfile)
    ensures
        r@ == esp32(),
{
    let gpio_pins: Vec<u8> = vec![
        0,
        1,
        2,
        3,
        4,
        5,
        12,
        13,
        14,
        15,
        16,
        17,
        18,
        19,
        21,
        22,
        23,
        25,
        26,
        27,
        32,
        33,
        34,
        35,
        36,
        39,
    ];
    let adc_pins: Vec<u8> = vec![32, 33, 34, 35, 36, 39];
    let i2c_buses: Vec<I2cBus> = vec![I2cBus { id: 0, sda_pin: 21, scl_pin: 22 }];
    proof {
        assert(gpio_pins@ =~= esp32().gpio_pins);
        assert(adc_pins@ =~= esp32().adc_pins);
        assert(i2c_buses@ =~= esp32().i2c_buses);
    }
    BoardProfile {
        name: "esp32",
        gpio_pins,
        adc_pins,
        i2c_buses,
        has_nvs: true,
        has_pwm: true,
    }
}

/// What is known of a kind of board, where anything is.
pub open spec fn known_profile(board_type: Seq<char>) -> Option<ProfileModel> {
    if board_type == "esp32"@ {
        Some(esp32())
    } else {
        None
    }
}

/// The profile of a kind of board, where it is known.
pub fn profile_for(board_type: &str) -> (r: Option<BoardProfile>)
    ensures
        match r {
            Some(profile) => known_profile(board_type@) == Some(profile@),
            None => known_profile(board_type@) is None,
        },
{
    if same_text(board_type, "esp32") {
        Some(esp32_profile())
    } else {
        None
    }
}

} // verus!
