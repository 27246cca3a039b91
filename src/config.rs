//! Device selection and the settings derived from the selected device.
//! The selection is an explicit value handed to whoever needs it.

use vstd::prelude::*;
use crate::device::{
    Device, DeviceConfig, FEATURE_REPORT_SIZE, OUTPUT_REPORT_SIZE, device_input_report_size,
    pid_of,
};

verus! {

/// How key presses are read.
#[derive(Debug, Clone, Copy, PartialEq, Eq, Structural)]
pub enum ButtonInputMode {
    Matrix,
    Direct,
}

/// Why a selection was refused.
#[derive(Debug, Clone, Copy, PartialEq, Eq, Structural)]
pub enum ConfigError {
    UnsupportedDevice,
}

/// USB serial number string of every device.
pub const USB_SERIAL: &'static str = "PRODUCTIONDK";

/// USB device release number (2.00).
pub const USB_BCD_DEVICE: u16 = 0x0200;

/// Interval at which the host polls the input endpoint, in milliseconds.
pub const USB_POLL_RATE_MS: u8 = 1;

/// Product id selected when nothing else is.
pub const DEFAULT_DEVICE_PID: u16 = 0x0063;

/// The selected device and key input mode.
#[derive(Debug, Clone, Copy)]
pub struct DeckSettings {
    device_pid: u16,
    input_mode: ButtonInputMode,
}

/// Whether some model has this product id.
pub open spec fn is_supported(pid: u16) -> bool {
    exists|d: Device| pid_of(d) == pid
}

/// The model selected by `pid`, the Mini when no model has it.
pub open spec fn device_for_pid(pid: u16) -> Device {
    if is_supported(pid) {
        choose|d: Device| pid_of(d) == pid
    } else {
        Device::Mini
    }
}

impl DeckSettings {
    /// The selected product id always belongs to a supported model.
    #[verifier::type_invariant]
    spec fn selects_supported(&self) -> bool {
        is_supported(self.device_pid)
    }

    pub closed spec fn pid(&self) -> u16 {
        self.device_pid
    }

    pub closed spec fn mode(&self) -> ButtonInputMode {
        self.input_mode
    }

    pub open spec fn device(&self) -> Device {
        device_for_pid(self.pid())
    }

    /// The Mini, read as a key matrix.
    pub fn new() -> (r: Self)
        ensures
            r.pid() == DEFAULT_DEVICE_PID,
            r.mode() == ButtonInputMode::Matrix,
    {
        assert(pid_of(Device::Mini) == DEFAULT_DEVICE_PID);
        DeckSettings { device_pid: DEFAULT_DEVICE_PID, input_mode: ButtonInputMode::Matrix }
    }
}

/// Selects the model with product id `pid`; refuses an unknown id and then
/// keeps the current selection.
pub fn set_device_pid(settings: &mut DeckSettings, pid: u16) -> (r: Result<(), ConfigError>)
    ensures
        r is Ok <==> is_supported(pid),
        r is Ok ==> final(settings).pid() == pid,
        r is Err ==> r == Err::<(), ConfigError>(ConfigError::UnsupportedDevice)
            && *final(settings) == *old(settings),
        final(settings).mode() == old(settings).mode(),
{
    match Device::from_pid(pid) {
        Some(_) => {
            *settings = DeckSettings { device_pid: pid, input_mode: settings.input_mode };
            Ok(())
        },
        None => Err(ConfigError::UnsupportedDevice),
    }
}

/// The selected product id, always that of a supported model.
pub fn get_device_pid(settings: &DeckSettings) -> (r: u16)
    ensures
        r == settings.pid(),
        is_supported(r),
{
    proof {
        use_type_invariant(settings);
    }
    settings.device_pid
}

/// The selected model.
pub fn get_current_device(settings: &DeckSettings) -> (r: Device)
    ensures
        r == settings.device(),
        pid_of(r) == settings.pid(),
{
    proof {
        use_type_invariant(settings);
    }
    match Device::from_pid(settings.device_pid) {
        Some(d) => d,
        None => Device::Mini,
    }
}

pub fn set_button_input_mode(settings: &mut DeckSettings, mode: ButtonInputMode)
    ensures
        final(settings).mode() == mode,
        final(settings).pid() == old(settings).pid(),
{
    proof {
        use_type_invariant(&*settings);
    }
    *settings = DeckSettings { device_pid: settings.device_pid, input_mode: mode };
}

pub fn button_input_mode(settings: &DeckSettings) -> (r: ButtonInputMode)
    ensures
        r == settings.mode(),
{
    settings.input_mode
}

pub fn usb_vid(settings: &DeckSettings) -> (r: u16)
    ensures
        r == settings.device().usb().vid,
{
    get_current_device(settings).usb_config().vid
}

/// The USB product id, which is the selected product id.
pub fn usb_pid(settings: &DeckSettings) -> (r: u16)
    ensures
        r == settings.device().usb().pid,
        r == settings.pid(),
{
    get_current_device(settings).usb_config().pid
}

pub fn usb_manufacturer(settings: &DeckSettings) -> (r: &'static str)
    ensures
        r == settings.device().usb().manufacturer,
{
    get_current_device(settings).usb_config().manufacturer
}

pub fn usb_product(settings: &DeckSettings) -> (r: &'static str)
    ensures
        r == settings.device().usb().product_name,
{
    get_current_device(settings).usb_config().product_name
}

pub fn streamdeck_keys(settings: &DeckSettings) -> (r: usize)
    ensures
        r == settings.device().layout().total_keys,
{
    get_current_device(settings).button_layout().total_keys
}

pub fn streamdeck_cols(settings: &DeckSettings) -> (r: usize)
    ensures
        r == settings.device().layout().cols,
{
    get_current_device(settings).button_layout().cols
}

pub fn streamdeck_rows(settings: &DeckSettings) -> (r: usize)
    ensures
        r == settings.device().layout().rows,
{
    get_current_device(settings).button_layout().rows
}

/// Side of a (square) key image, in pixels.
pub fn key_image_size(settings: &DeckSettings) -> (r: usize)
    ensures
        r == settings.device().display().image_width,
{
    get_current_device(settings).display_config().image_width
}

/// Bytes of RGB data in one key image.
pub fn key_image_bytes(settings: &DeckSettings) -> (r: usize)
    ensures
        r == settings.device().display().image_width * settings.device().display().image_height * 3,
{
    let d = get_current_device(settings).display_config();
    assert(d.image_width * d.image_height <= 4096 * 4096) by (nonlinear_arith)
        requires
            d.image_width <= 4096,
            d.image_height <= 4096,
    ;
    d.image_width * d.image_height * 3
}

pub fn hid_report_size_input(settings: &DeckSettings) -> (r: usize)
    ensures
        r == device_input_report_size(
            settings.device().usb().protocol,
            settings.device().layout().total_keys as int,
        ),
{
    get_current_device(settings).input_report_size()
}

pub fn hid_report_size_feature(settings: &DeckSettings) -> (r: usize)
    ensures
        r == FEATURE_REPORT_SIZE,
{
    get_current_device(settings).feature_report_size()
}

pub fn hid_report_size_output(settings: &DeckSettings) -> (r: usize)
    ensures
        r == OUTPUT_REPORT_SIZE,
{
    get_current_device(settings).output_report_size()
}

/// GPIO pins driving the key-matrix rows, by row count.
pub open spec fn row_pins_for(rows: usize) -> Seq<u8> {
    if rows == 3 {
        seq![2u8, 3, 7]
    } else if rows == 4 {
        seq![2u8, 3, 7, 9]
    } else {
        seq![2u8, 3]
    }
}

/// GPIO pins reading the key-matrix columns, by column count.
pub open spec fn col_pins_for(cols: usize) -> Seq<u8> {
    if cols == 4 {
        seq![4u8, 5, 6, 10]
    } else if cols == 5 {
        seq![4u8, 5, 6, 10, 11]
    } else if cols == 8 {
        seq![4u8, 5, 6, 10, 11, 12, 13, 16]
    } else {
        seq![4u8, 5, 6]
    }
}

pub fn btn_row_pins(settings: &DeckSettings) -> (r: Vec<u8>)
    ensures
        r@ == row_pins_for(settings.device().layout().rows),
{
    let rows = streamdeck_rows(settings);
    let r = if rows == 3 {
        vec![2u8, 3, 7]
    } else if rows == 4 {
        vec![2u8, 3, 7, 9]
    } else {
        vec![2u8, 3]
    };
    assert(r@ =~= row_pins_for(rows));
    r
}

pub fn btn_col_pins(settings: &DeckSettings) -> (r: Vec<u8>)
    ensures
        r@ == col_pins_for(settings.device().layout().cols),
{
    let cols = streamdeck_cols(settings);
    let r = if cols == 4 {
        vec![4u8, 5, 6, 10]
    } else if cols == 5 {
        vec![4u8, 5, 6, 10, 11]
    } else if cols == 8 {
        vec![4u8, 5, 6, 10, 11, 12, 13, 16]
    } else {
        vec![4u8, 5, 6]
    };
    assert(r@ =~= col_pins_for(cols));
    r
}

/// One GPIO pin per key: six dedicated pins for six-key devices, the column
/// pins otherwise.
pub fn btn_direct_pins(settings: &DeckSettings) -> (r: Vec<u8>)
    ensures
        r@ == if settings.device().layout().total_keys == 6 {
            seq![4u8, 5, 6, 10, 11, 12]
        } else {
            col_pins_for(settings.device().layout().cols)
        },
{
    if streamdeck_keys(settings) == 6 {
        let r = vec![4u8, 5, 6, 10, 11, 12];
        assert(r@ =~= seq![4u8, 5, 6, 10, 11, 12]);
        r
    } else {
        btn_col_pins(settings)
    }
}

/// Initial backlight level.
pub fn display_brightness() -> (r: u8)
    ensures
        r == 255,
{
    255
}

/// Width in pixels of the panel that shows every key side by side.
pub fn display_total_width(settings: &DeckSettings) -> (r: usize)
    ensures
        r == settings.device().layout().cols * settings.device().display().image_width,
{
    let cols = streamdeck_cols(settings);
    let side = key_image_size(settings);
    assert(cols * side <= 32 * 4096) by (nonlinear_arith)
        requires
            cols <= 32,
            side <= 4096,
    ;
    cols * side
}

/// Height in pixels of the panel that shows every key side by side.
pub fn display_total_height(settings: &DeckSettings) -> (r: usize)
    ensures
        r == settings.device().layout().rows * settings.device().display().image_width,
{
    let rows = streamdeck_rows(settings);
    let side = key_image_size(settings);
    assert(rows * side <= 32 * 4096) by (nonlinear_arith)
        requires
            rows <= 32,
            side <= 4096,
    ;
    rows * side
}

} // verus!
