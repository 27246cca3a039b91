//! GPIO pin assignments of the board for each device layout.

use vstd::prelude::*;
use crate::config::{ButtonInputMode, DeckSettings, get_current_device};
use crate::device::{Device, DeviceConfig};

verus! {

/// Pins of the key matrix.
#[derive(Debug)]
pub struct ButtonPins {
    pub row_pins: Vec<u8>,
    pub col_pins: Vec<u8>,
}

/// Pins of the SPI display.
#[derive(Debug, Clone, Copy)]
pub struct DisplayPins {
    pub spi_mosi: u8,
    pub spi_sck: u8,
    pub cs: u8,
    pub dc: u8,
    pub rst: u8,
    pub backlight: u8,
}

/// Pins of the status LEDs.
#[derive(Debug, Clone, Copy)]
pub struct LedPins {
    pub status: u8,
    pub usb: u8,
    pub error: u8,
}

/// Every pin the board uses for one device.
#[derive(Debug)]
pub struct HardwareConfig {
    pub device: Device,
    pub button_pins: ButtonPins,
    pub display_pins: DisplayPins,
    pub led_pins: LedPins,
}

/// Matrix row and column pins for a grid of `rows` by `cols` keys; grids
/// the board has no wiring for fall back to the six-key wiring.
pub open spec fn matrix_pins(rows: usize, cols: usize) -> (Seq<u8>, Seq<u8>) {
    if rows == 3 && cols == 5 {
        (seq![2u8, 3, 7], seq![4u8, 5, 6, 10, 11])
    } else if rows == 4 && cols == 8 {
        (seq![2u8, 3, 7, 9], seq![4u8, 5, 6, 10, 11, 12, 13, 16])
    } else if rows == 2 && cols == 4 {
        (seq![2u8, 3], seq![4u8, 5, 6, 10])
    } else {
        (seq![2u8, 3], seq![4u8, 5, 6])
    }
}

impl HardwareConfig {
    pub open spec fn fixed_pins(&self) -> bool {
        &&& self.display_pins.spi_mosi == 19
        &&& self.display_pins.spi_sck == 18
        &&& self.display_pins.cs == 8
        &&& self.display_pins.dc == 14
        &&& self.display_pins.rst == 15
        &&& self.display_pins.backlight == 17
        &&& self.led_pins.status == 25
        &&& self.led_pins.usb == 20
        &&& self.led_pins.error == 21
    }

    pub fn for_device(device: Device) -> (r: Self)
        ensures
            r.device == device,
            (r.button_pins.row_pins@, r.button_pins.col_pins@) == matrix_pins(
                device.layout().rows,
                device.layout().cols,
            ),
            r.fixed_pins(),
    {
        let layout = device.button_layout();
        let (row_pins, col_pins) = if layout.rows == 3 && layout.cols == 5 {
            (vec![2u8, 3, 7], vec![4u8, 5, 6, 10, 11])
        } else if layout.rows == 4 && layout.cols == 8 {
            (vec![2u8, 3, 7, 9], vec![4u8, 5, 6, 10, 11, 12, 13, 16])
        } else if layout.rows == 2 && layout.cols == 4 {
            (vec![2u8, 3], vec![4u8, 5, 6, 10])
        } else {
            (vec![2u8, 3], vec![4u8, 5, 6])
        };
        assert(row_pins@ =~= matrix_pins(layout.rows, layout.cols).0);
        assert(col_pins@ =~= matrix_pins(layout.rows, layout.cols).1);
        HardwareConfig {
            device,
            button_pins: ButtonPins { row_pins, col_pins },
            display_pins: DisplayPins { spi_mosi: 19, spi_sck: 18, cs: 8, dc: 14, rst: 15, backlight: 17 },
            led_pins: LedPins { status: 25, usb: 20, error: 21 },
        }
    }

    /// Pins for the device the settings select.
    pub fn for_current_device(settings: &DeckSettings) -> (r: Self)
        ensures
            r.device == settings.device(),
            (r.button_pins.row_pins@, r.button_pins.col_pins@) == matrix_pins(
                settings.device().layout().rows,
                settings.device().layout().cols,
            ),
            r.fixed_pins(),
    {
        Self::for_device(get_current_device(settings))
    }
}

/// Whether keys are best read one pin per key: the Mini models have six
/// dedicated inputs.
pub fn prefers_direct_input(device: Device) -> (r: bool)
    ensures
        r == (device == Device::Mini || device == Device::RevisedMini),
{
    match device {
        Device::Mini | Device::RevisedMini => true,
        _ => false,
    }
}

/// How the keys are to be read: a matrix with its row and column pins, or
/// one input pin per key.
#[derive(Debug)]
pub enum InputPlan {
    Matrix { rows: Vec<u8>, cols: Vec<u8> },
    Direct { pins: Vec<u8> },
}

/// Key input wiring for a device in a given mode. A matrix uses the
/// layout's row and column pins; direct input uses six dedicated pins on
/// the Mini models and the column pins otherwise.
pub fn input_plan(device: Device, mode: ButtonInputMode) -> (r: InputPlan)
    ensures
        match r {
            InputPlan::Matrix { rows, cols } => mode == ButtonInputMode::Matrix && (rows@, cols@)
                == matrix_pins(device.layout().rows, device.layout().cols),
            InputPlan::Direct { pins } => mode == ButtonInputMode::Direct && pins@ == if device
                == Device::Mini || device == Device::RevisedMini {
                seq![4u8, 5, 6, 10, 11, 12]
            } else {
                matrix_pins(device.layout().rows, device.layout().cols).1
            },
        },
{
    let hw = HardwareConfig::for_device(device);
    match mode {
        ButtonInputMode::Matrix => InputPlan::Matrix {
            rows: hw.button_pins.row_pins,
            cols: hw.button_pins.col_pins,
        },
        ButtonInputMode::Direct => {
            if prefers_direct_input(device) {
                let pins = vec![4u8, 5, 6, 10, 11, 12];
                assert(pins@ =~= seq![4u8, 5, 6, 10, 11, 12]);
                InputPlan::Direct { pins }
            } else {
                InputPlan::Direct { pins: hw.button_pins.col_pins }
            }
        },
    }
}

} // verus!
