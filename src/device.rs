//! Device capability model: layout, display geometry, USB identity and
//! protocol family of every emulated model, and the sizes derived from them.

use vstd::prelude::*;

verus! {

/// Image format that the host sends for each key.
#[derive(Debug, Clone, Copy, PartialEq, Eq, Structural)]
pub enum ImageFormat {
    Bmp,
    Jpeg,
}

/// Wire-protocol family.
#[derive(Debug, Clone, Copy, PartialEq, Eq, Structural)]
pub enum ProtocolVersion {
    V1,
    V2,
    Module6Keys,
    Module15_32Keys,
}

/// Key grid of a device, scanned row by row.
#[derive(Debug, Clone, Copy)]
pub struct ButtonLayout {
    pub cols: usize,
    pub rows: usize,
    pub total_keys: usize,
    pub left_to_right: bool,
}

/// Largest number of keys any device has.
pub const MAX_KEYS: usize = 32;

impl ButtonLayout {
    /// `total_keys` is the product of the grid's sides and fits the fixed
    /// 32-entry button arrays.
    pub open spec fn wf(&self) -> bool {
        &&& self.total_keys == self.cols * self.rows
        &&& self.total_keys <= MAX_KEYS
    }

    pub fn new(cols: usize, rows: usize, left_to_right: bool) -> (r: Self)
        requires
            cols * rows <= MAX_KEYS,
        ensures
            r.cols == cols,
            r.rows == rows,
            r.total_keys == cols * rows,
            r.left_to_right == left_to_right,
            r.wf(),
    {
        ButtonLayout { cols, rows, total_keys: cols * rows, left_to_right }
    }
}

/// Per-key display geometry and the transforms the panel needs.
#[derive(Debug, Clone, Copy)]
pub struct DisplayConfig {
    pub image_width: usize,
    pub image_height: usize,
    pub format: ImageFormat,
    pub needs_rotation: bool,
    pub flip_horizontal: bool,
    pub flip_vertical: bool,
}

/// Largest key image side, in pixels, that the model admits.
pub const MAX_IMAGE_SIDE: usize = 4096;

impl DisplayConfig {
    pub open spec fn wf(&self) -> bool {
        &&& self.image_width <= MAX_IMAGE_SIDE
        &&& self.image_height <= MAX_IMAGE_SIDE
    }
}

/// USB identity of a device.
#[derive(Debug, Clone, Copy)]
pub struct UsbConfig {
    pub vid: u16,
    pub pid: u16,
    pub product_name: &'static str,
    pub manufacturer: &'static str,
    pub protocol: ProtocolVersion,
}

/// Size in bytes of the largest image a display accepts: a BMP header plus
/// RGB data for BMP, half the pixel count for JPEG.
pub open spec fn max_image_size_of(d: DisplayConfig) -> int {
    match d.format {
        ImageFormat::Bmp => 54 + d.image_width * d.image_height * 3,
        ImageFormat::Jpeg => (d.image_width * d.image_height) / 2,
    }
}

/// Input report size of a device: report id plus one byte per key for V1,
/// a three-byte header plus one byte per key for V2, a fixed 65 bytes for
/// every module.
pub open spec fn device_input_report_size(p: ProtocolVersion, total_keys: int) -> int {
    match p {
        ProtocolVersion::V1 => total_keys + 1,
        ProtocolVersion::V2 => total_keys + 3,
        ProtocolVersion::Module6Keys => 65,
        ProtocolVersion::Module15_32Keys => 65,
    }
}

/// Size of the standard HID report descriptor.
pub const HID_DESCRIPTOR_SIZE: usize = 173;

/// Size of every feature report.
pub const FEATURE_REPORT_SIZE: usize = 32;

/// Size of every output (image data) report.
pub const OUTPUT_REPORT_SIZE: usize = 1024;

/// Complete description of one emulated model.
pub trait DeviceConfig {
    spec fn layout(&self) -> ButtonLayout;

    spec fn display(&self) -> DisplayConfig;

    spec fn usb(&self) -> UsbConfig;

    spec fn name(&self) -> Seq<char>;

    fn device_name(&self) -> (r: &'static str)
        ensures
            r@ == self.name(),
    ;

    fn button_layout(&self) -> (r: ButtonLayout)
        ensures
            r == self.layout(),
            r.wf(),
    ;

    fn display_config(&self) -> (r: DisplayConfig)
        ensures
            r == self.display(),
            r.wf(),
    ;

    fn usb_config(&self) -> (r: UsbConfig)
        ensures
            r == self.usb(),
    ;

    fn max_image_size(&self) -> (r: usize)
        ensures
            r == max_image_size_of(self.display()),
    {
        let d = self.display_config();
        assert(d.image_width * d.image_height <= MAX_IMAGE_SIDE * MAX_IMAGE_SIDE) by (nonlinear_arith)
            requires
                d.image_width <= MAX_IMAGE_SIDE,
                d.image_height <= MAX_IMAGE_SIDE,
        ;
        match d.format {
            ImageFormat::Bmp => 54 + d.image_width * d.image_height * 3,
            ImageFormat::Jpeg => d.image_width * d.image_height / 2,
        }
    }

    fn hid_descriptor_size(&self) -> (r: usize)
        ensures
            r == HID_DESCRIPTOR_SIZE,
    {
        HID_DESCRIPTOR_SIZE
    }

    fn input_report_size(&self) -> (r: usize)
        ensures
            r == device_input_report_size(self.usb().protocol, self.layout().total_keys as int),
    {
        let layout = self.button_layout();
        match self.usb_config().protocol {
            ProtocolVersion::V1 => layout.total_keys + 1,
            ProtocolVersion::V2 => layout.total_keys + 3,
            ProtocolVersion::Module6Keys => 65,
            ProtocolVersion::Module15_32Keys => 65,
        }
    }

    fn feature_report_size(&self) -> (r: usize)
        ensures
            r == FEATURE_REPORT_SIZE,
    {
        FEATURE_REPORT_SIZE
    }

    fn output_report_size(&self) -> (r: usize)
        ensures
            r == OUTPUT_REPORT_SIZE,
    {
        OUTPUT_REPORT_SIZE
    }
}


/// Every emulated model.
#[derive(Debug, Clone, Copy, PartialEq, Eq, Structural)]
pub enum Device {
    Mini,
    RevisedMini,
    Original,
    OriginalV2,
    Xl,
    Plus,
    Module6,
    Module15,
    Module32,
}
/// Product id of each model.
pub open spec fn pid_of(d: Device) -> u16 {
    match d {
        Device::Mini => 0x0063,
        Device::RevisedMini => 0x0080,
        Device::Original => 0x0060,
        Device::OriginalV2 => 0x006d,
        Device::Xl => 0x006c,
        Device::Plus => 0x0084,
        Device::Module6 => 0x00b8,
        Device::Module15 => 0x00b9,
        Device::Module32 => 0x00ba,
    }
}
impl Device {
    /// The model whose product id is `pid`, if any.
    pub fn from_pid(pid: u16) -> (r: Option<Self>)
        ensures
            r matches Some(d) ==> pid_of(d) == pid,
            r is None ==> (forall|d: Device| pid_of(d) != pid),
    {
        match pid {
            0x0063 => Some(Device::Mini),
            0x0080 => Some(Device::RevisedMini),
            0x0060 => Some(Device::Original),
            0x006d => Some(Device::OriginalV2),
            0x006c => Some(Device::Xl),
            0x0084 => Some(Device::Plus),
            0x00b8 => Some(Device::Module6),
            0x00b9 => Some(Device::Module15),
            0x00ba => Some(Device::Module32),
            _ => {
                assert(pid_of(Device::Mini) != pid);
                assert(pid_of(Device::RevisedMini) != pid);
                assert(pid_of(Device::Original) != pid);
                assert(pid_of(Device::OriginalV2) != pid);
                assert(pid_of(Device::Xl) != pid);
                assert(pid_of(Device::Plus) != pid);
                assert(pid_of(Device::Module6) != pid);
                assert(pid_of(Device::Module15) != pid);
                assert(pid_of(Device::Module32) != pid);
                assert(forall|d: Device| pid_of(d) != pid);
                None
            },
        }
    }

    /// The product ids of all models.
    pub fn supported_pids() -> (r: Vec<u16>)
        ensures
            forall|p: u16| r@.contains(p) <==> exists|d: Device| pid_of(d) == p,
            r@.no_duplicates(),
    {
        let r = vec![0x0063, 0x0080, 0x0060, 0x006d, 0x006c, 0x0084, 0x00b8, 0x00b9, 0x00ba];
        assert(r@[0] == pid_of(Device::Mini));
        assert(r@[1] == pid_of(Device::RevisedMini));
        assert(r@[2] == pid_of(Device::Original));
        assert(r@[3] == pid_of(Device::OriginalV2));
        assert(r@[4] == pid_of(Device::Xl));
        assert(r@[5] == pid_of(Device::Plus));
        assert(r@[6] == pid_of(Device::Module6));
        assert(r@[7] == pid_of(Device::Module15));
        assert(r@[8] == pid_of(Device::Module32));
        assert forall|p: u16| r@.contains(p) implies exists|d: Device| pid_of(d) == p by {
            let i = choose|i: int| 0 <= i < r@.len() && r@[i] == p;
        }
        r
    }

    pub fn pid(&self) -> (r: u16)
        ensures
            r == pid_of(*self),
    {
        match self {
            Device::Mini => 0x0063,
            Device::RevisedMini => 0x0080,
            Device::Original => 0x0060,
            Device::OriginalV2 => 0x006d,
            Device::Xl => 0x006c,
            Device::Plus => 0x0084,
            Device::Module6 => 0x00b8,
            Device::Module15 => 0x00b9,
            Device::Module32 => 0x00ba,
        }
    }
}
impl DeviceConfig for Device {
    open spec fn layout(&self) -> ButtonLayout {
        match *self {
            Device::Mini => ButtonLayout { cols: 3, rows: 2, total_keys: 6, left_to_right: true },
            Device::RevisedMini => ButtonLayout { cols: 3, rows: 2, total_keys: 6, left_to_right: true },
            Device::Original => ButtonLayout { cols: 5, rows: 3, total_keys: 15, left_to_right: false },
            Device::OriginalV2 => ButtonLayout { cols: 5, rows: 3, total_keys: 15, left_to_right: true },
            Device::Xl => ButtonLayout { cols: 8, rows: 4, total_keys: 32, left_to_right: true },
            Device::Plus => ButtonLayout { cols: 4, rows: 2, total_keys: 8, left_to_right: true },
            Device::Module6 => ButtonLayout { cols: 3, rows: 2, total_keys: 6, left_to_right: true },
            Device::Module15 => ButtonLayout { cols: 5, rows: 3, total_keys: 15, left_to_right: true },
            Device::Module32 => ButtonLayout { cols: 8, rows: 4, total_keys: 32, left_to_right: true },
        }
    }

    open spec fn display(&self) -> DisplayConfig {
        match *self {
            Device::Mini => DisplayConfig {
                    image_width: 80,
                    image_height: 80,
                    format: ImageFormat::Bmp,
                    needs_rotation: true,
                    flip_horizontal: false,
                    flip_vertical: false,
                },
            Device::RevisedMini => DisplayConfig {
                    image_width: 80,
                    image_height: 80,
                    format: ImageFormat::Bmp,
                    needs_rotation: true,
                    flip_horizontal: false,
                    flip_vertical: false,
                },
            Device::Original => DisplayConfig {
                    image_width: 72,
                    image_height: 72,
                    format: ImageFormat::Bmp,
                    needs_rotation: false,
                    flip_horizontal: true,
                    flip_vertical: false,
                },
            Device::OriginalV2 => DisplayConfig {
                    image_width: 72,
                    image_height: 72,
                    format: ImageFormat::Jpeg,
                    needs_rotation: false,
                    flip_horizontal: true,
                    flip_vertical: true,
                },
            Device::Xl => DisplayConfig {
                    image_width: 96,
                    image_height: 96,
                    format: ImageFormat::Jpeg,
                    needs_rotation: false,
                    flip_horizontal: true,
                    flip_vertical: true,
                },
            Device::Plus => DisplayConfig {
                    image_width: 120,
                    image_height: 120,
                    format: ImageFormat::Jpeg,
                    needs_rotation: false,
                    flip_horizontal: false,
                    flip_vertical: false,
                },
            Device::Module6 => DisplayConfig {
                    image_width: 80,
                    image_height: 80,
                    format: ImageFormat::Bmp,
                    needs_rotation: true,
                    flip_horizontal: false,
                    flip_vertical: false,
                },
            Device::Module15 => DisplayConfig {
                    image_width: 72,
                    image_height: 72,
                    format: ImageFormat::Bmp,
                    needs_rotation: true,
                    flip_horizontal: false,
                    flip_vertical: false,
                },
            Device::Module32 => DisplayConfig {
                    image_width: 96,
                    image_height: 96,
                    format: ImageFormat::Bmp,
                    needs_rotation: true,
                    flip_horizontal: false,
                    flip_vertical: false,
                },
        }
    }

    open spec fn usb(&self) -> UsbConfig {
        match *self {
            Device::Mini => UsbConfig {
                    vid: 0x0fd9,
                    pid: 0x0063,
                    product_name: "Stream Deck Mini",
                    manufacturer: "Elgato Systems",
                    protocol: ProtocolVersion::V1,
                },
            Device::RevisedMini => UsbConfig {
                    vid: 0x0fd9,
                    pid: 0x0080,
                    product_name: "Stream Deck Mini",
                    manufacturer: "Elgato Systems",
                    protocol: ProtocolVersion::V1,
                },
            Device::Original => UsbConfig {
                    vid: 0x0fd9,
                    pid: 0x0060,
                    product_name: "Stream Deck",
                    manufacturer: "Elgato Systems",
                    protocol: ProtocolVersion::V1,
                },
            Device::OriginalV2 => UsbConfig {
                    vid: 0x0fd9,
                    pid: 0x006d,
                    product_name: "Stream Deck",
                    manufacturer: "Elgato Systems",
                    protocol: ProtocolVersion::V2,
                },
            Device::Xl => UsbConfig {
                    vid: 0x0fd9,
                    pid: 0x006c,
                    product_name: "Stream Deck XL",
                    manufacturer: "Elgato Systems",
                    protocol: ProtocolVersion::V2,
                },
            Device::Plus => UsbConfig {
                    vid: 0x0fd9,
                    pid: 0x0084,
                    product_name: "Stream Deck Plus",
                    manufacturer: "Elgato Systems",
                    protocol: ProtocolVersion::V2,
                },
            Device::Module6 => UsbConfig {
                    vid: 0x0fd9,
                    pid: 0x00b8,
                    product_name: "Stream Deck Module 6 Keys",
                    manufacturer: "Elgato Systems",
                    protocol: ProtocolVersion::Module6Keys,
                },
            Device::Module15 => UsbConfig {
                    vid: 0x0fd9,
                    pid: 0x00b9,
                    product_name: "Stream Deck Module 15 Keys",
                    manufacturer: "Elgato Systems",
                    protocol: ProtocolVersion::Module15_32Keys,
                },
            Device::Module32 => UsbConfig {
                    vid: 0x0fd9,
                    pid: 0x00ba,
                    product_name: "Stream Deck Module 32 Keys",
                    manufacturer: "Elgato Systems",
                    protocol: ProtocolVersion::Module15_32Keys,
                },
        }
    }

    open spec fn name(&self) -> Seq<char> {
        match *self {
            Device::Mini => "StreamDeck Mini"@,
            Device::RevisedMini => "StreamDeck Mini (Revised)"@,
            Device::Original => "StreamDeck Original"@,
            Device::OriginalV2 => "StreamDeck Original V2"@,
            Device::Xl => "StreamDeck XL"@,
            Device::Plus => "StreamDeck Plus"@,
            Device::Module6 => "Stream Deck Module 6 Keys"@,
            Device::Module15 => "Stream Deck Module 15 Keys"@,
            Device::Module32 => "Stream Deck Module 32 Keys"@,
        }
    }

    fn device_name(&self) -> (r: &'static str) {
        match self {
            Device::Mini => "StreamDeck Mini",
            Device::RevisedMini => "StreamDeck Mini (Revised)",
            Device::Original => "StreamDeck Original",
            Device::OriginalV2 => "StreamDeck Original V2",
            Device::Xl => "StreamDeck XL",
            Device::Plus => "StreamDeck Plus",
            Device::Module6 => "Stream Deck Module 6 Keys",
            Device::Module15 => "Stream Deck Module 15 Keys",
            Device::Module32 => "Stream Deck Module 32 Keys",
        }
    }

    fn button_layout(&self) -> (r: ButtonLayout) {
        match self {
            Device::Mini => ButtonLayout { cols: 3, rows: 2, total_keys: 6, left_to_right: true },
            Device::RevisedMini => ButtonLayout { cols: 3, rows: 2, total_keys: 6, left_to_right: true },
            Device::Original => ButtonLayout { cols: 5, rows: 3, total_keys: 15, left_to_right: false },
            Device::OriginalV2 => ButtonLayout { cols: 5, rows: 3, total_keys: 15, left_to_right: true },
            Device::Xl => ButtonLayout { cols: 8, rows: 4, total_keys: 32, left_to_right: true },
            Device::Plus => ButtonLayout { cols: 4, rows: 2, total_keys: 8, left_to_right: true },
            Device::Module6 => ButtonLayout { cols: 3, rows: 2, total_keys: 6, left_to_right: true },
            Device::Module15 => ButtonLayout { cols: 5, rows: 3, total_keys: 15, left_to_right: true },
            Device::Module32 => ButtonLayout { cols: 8, rows: 4, total_keys: 32, left_to_right: true },
        }
    }

    fn display_config(&self) -> (r: DisplayConfig) {
        match self {
            Device::Mini => DisplayConfig {
                    image_width: 80,
                    image_height: 80,
                    format: ImageFormat::Bmp,
                    needs_rotation: true,
                    flip_horizontal: false,
                    flip_vertical: false,
                },
            Device::RevisedMini => DisplayConfig {
                    image_width: 80,
                    image_height: 80,
                    format: ImageFormat::Bmp,
                    needs_rotation: true,
                    flip_horizontal: false,
                    flip_vertical: false,
                },
            Device::Original => DisplayConfig {
                    image_width: 72,
                    image_height: 72,
                    format: ImageFormat::Bmp,
                    needs_rotation: false,
                    flip_horizontal: true,
                    flip_vertical: false,
                },
            Device::OriginalV2 => DisplayConfig {
                    image_width: 72,
                    image_height: 72,
                    format: ImageFormat::Jpeg,
                    needs_rotation: false,
                    flip_horizontal: true,
                    flip_vertical: true,
                },
            Device::Xl => DisplayConfig {
                    image_width: 96,
                    image_height: 96,
                    format: ImageFormat::Jpeg,
                    needs_rotation: false,
                    flip_horizontal: true,
                    flip_vertical: true,
                },
            Device::Plus => DisplayConfig {
                    image_width: 120,
                    image_height: 120,
                    format: ImageFormat::Jpeg,
                    needs_rotation: false,
                    flip_horizontal: false,
                    flip_vertical: false,
                },
            Device::Module6 => DisplayConfig {
                    image_width: 80,
                    image_height: 80,
                    format: ImageFormat::Bmp,
                    needs_rotation: true,
                    flip_horizontal: false,
                    flip_vertical: false,
                },
            Device::Module15 => DisplayConfig {
                    image_width: 72,
                    image_height: 72,
                    format: ImageFormat::Bmp,
                    needs_rotation: true,
                    flip_horizontal: false,
                    flip_vertical: false,
                },
            Device::Module32 => DisplayConfig {
                    image_width: 96,
                    image_height: 96,
                    format: ImageFormat::Bmp,
                    needs_rotation: true,
                    flip_horizontal: false,
                    flip_vertical: false,
                },
        }
    }

    fn usb_config(&self) -> (r: UsbConfig) {
        match self {
            Device::Mini => UsbConfig {
                    vid: 0x0fd9,
                    pid: 0x0063,
                    product_name: "Stream Deck Mini",
                    manufacturer: "Elgato Systems",
                    protocol: ProtocolVersion::V1,
                },
            Device::RevisedMini => UsbConfig {
                    vid: 0x0fd9,
                    pid: 0x0080,
                    product_name: "Stream Deck Mini",
                    manufacturer: "Elgato Systems",
                    protocol: ProtocolVersion::V1,
                },
            Device::Original => UsbConfig {
                    vid: 0x0fd9,
                    pid: 0x0060,
                    product_name: "Stream Deck",
                    manufacturer: "Elgato Systems",
                    protocol: ProtocolVersion::V1,
                },
            Device::OriginalV2 => UsbConfig {
                    vid: 0x0fd9,
                    pid: 0x006d,
                    product_name: "Stream Deck",
                    manufacturer: "Elgato Systems",
                    protocol: ProtocolVersion::V2,
                },
            Device::Xl => UsbConfig {
                    vid: 0x0fd9,
                    pid: 0x006c,
                    product_name: "Stream Deck XL",
                    manufacturer: "Elgato Systems",
                    protocol: ProtocolVersion::V2,
                },
            Device::Plus => UsbConfig {
                    vid: 0x0fd9,
                    pid: 0x0084,
                    product_name: "Stream Deck Plus",
                    manufacturer: "Elgato Systems",
                    protocol: ProtocolVersion::V2,
                },
            Device::Module6 => UsbConfig {
                    vid: 0x0fd9,
                    pid: 0x00b8,
                    product_name: "Stream Deck Module 6 Keys",
                    manufacturer: "Elgato Systems",
                    protocol: ProtocolVersion::Module6Keys,
                },
            Device::Module15 => UsbConfig {
                    vid: 0x0fd9,
                    pid: 0x00b9,
                    product_name: "Stream Deck Module 15 Keys",
                    manufacturer: "Elgato Systems",
                    protocol: ProtocolVersion::Module15_32Keys,
                },
            Device::Module32 => UsbConfig {
                    vid: 0x0fd9,
                    pid: 0x00ba,
                    product_name: "Stream Deck Module 32 Keys",
                    manufacturer: "Elgato Systems",
                    protocol: ProtocolVersion::Module15_32Keys,
                },
        }
    }
}

/// Stand-alone description of one model.
pub struct MiniConfig;

impl DeviceConfig for MiniConfig {
    open spec fn layout(&self) -> ButtonLayout {
        ButtonLayout { cols: 3, rows: 2, total_keys: 6, left_to_right: true }
    }

    open spec fn display(&self) -> DisplayConfig {
        DisplayConfig {
            image_width: 80,
            image_height: 80,
            format: ImageFormat::Bmp,
            needs_rotation: true,
            flip_horizontal: false,
            flip_vertical: false,
        }
    }

    open spec fn usb(&self) -> UsbConfig {
        UsbConfig {
            vid: 0x0fd9,
            pid: 0x0063,
            product_name: "Stream Deck Mini",
            manufacturer: "Elgato Systems",
            protocol: ProtocolVersion::V1,
        }
    }

    open spec fn name(&self) -> Seq<char> {
        "StreamDeck Mini"@
    }

    fn device_name(&self) -> (r: &'static str) {
        "StreamDeck Mini"
    }

    fn button_layout(&self) -> (r: ButtonLayout) {
        ButtonLayout { cols: 3, rows: 2, total_keys: 6, left_to_right: true }
    }

    fn display_config(&self) -> (r: DisplayConfig) {
        DisplayConfig {
            image_width: 80,
            image_height: 80,
            format: ImageFormat::Bmp,
            needs_rotation: true,
            flip_horizontal: false,
            flip_vertical: false,
        }
    }

    fn usb_config(&self) -> (r: UsbConfig) {
        UsbConfig {
            vid: 0x0fd9,
            pid: 0x0063,
            product_name: "Stream Deck Mini",
            manufacturer: "Elgato Systems",
            protocol: ProtocolVersion::V1,
        }
    }
}

/// Stand-alone description of one model.
pub struct RevisedMiniConfig;

impl DeviceConfig for RevisedMiniConfig {
    open spec fn layout(&self) -> ButtonLayout {
        ButtonLayout { cols: 3, rows: 2, total_keys: 6, left_to_right: true }
    }

    open spec fn display(&self) -> DisplayConfig {
        DisplayConfig {
            image_width: 80,
            image_height: 80,
            format: ImageFormat::Bmp,
            needs_rotation: true,
            flip_horizontal: false,
            flip_vertical: false,
        }
    }

    open spec fn usb(&self) -> UsbConfig {
        UsbConfig {
            vid: 0x0fd9,
            pid: 0x0090,
            product_name: "Stream Deck Mini",
            manufacturer: "Elgato Systems",
            protocol: ProtocolVersion::V1,
        }
    }

    open spec fn name(&self) -> Seq<char> {
        "StreamDeck Revised Mini"@
    }

    fn device_name(&self) -> (r: &'static str) {
        "StreamDeck Revised Mini"
    }

    fn button_layout(&self) -> (r: ButtonLayout) {
        ButtonLayout { cols: 3, rows: 2, total_keys: 6, left_to_right: true }
    }

    fn display_config(&self) -> (r: DisplayConfig) {
        DisplayConfig {
            image_width: 80,
            image_height: 80,
            format: ImageFormat::Bmp,
            needs_rotation: true,
            flip_horizontal: false,
            flip_vertical: false,
        }
    }

    fn usb_config(&self) -> (r: UsbConfig) {
        UsbConfig {
            vid: 0x0fd9,
            pid: 0x0090,
            product_name: "Stream Deck Mini",
            manufacturer: "Elgato Systems",
            protocol: ProtocolVersion::V1,
        }
    }
}

/// Stand-alone description of one model.
pub struct OriginalConfig;

impl DeviceConfig for OriginalConfig {
    open spec fn layout(&self) -> ButtonLayout {
        ButtonLayout { cols: 5, rows: 3, total_keys: 15, left_to_right: false }
    }

    open spec fn display(&self) -> DisplayConfig {
        DisplayConfig {
            image_width: 72,
            image_height: 72,
            format: ImageFormat::Bmp,
            needs_rotation: false,
            flip_horizontal: true,
            flip_vertical: false,
        }
    }

    open spec fn usb(&self) -> UsbConfig {
        UsbConfig {
            vid: 0x0fd9,
            pid: 0x0060,
            product_name: "Stream Deck",
            manufacturer: "Elgato Systems",
            protocol: ProtocolVersion::V1,
        }
    }

    open spec fn name(&self) -> Seq<char> {
        "StreamDeck Original"@
    }

    fn device_name(&self) -> (r: &'static str) {
        "StreamDeck Original"
    }

    fn button_layout(&self) -> (r: ButtonLayout) {
        ButtonLayout { cols: 5, rows: 3, total_keys: 15, left_to_right: false }
    }

    fn display_config(&self) -> (r: DisplayConfig) {
        DisplayConfig {
            image_width: 72,
            image_height: 72,
            format: ImageFormat::Bmp,
            needs_rotation: false,
            flip_horizontal: true,
            flip_vertical: false,
        }
    }

    fn usb_config(&self) -> (r: UsbConfig) {
        UsbConfig {
            vid: 0x0fd9,
            pid: 0x0060,
            product_name: "Stream Deck",
            manufacturer: "Elgato Systems",
            protocol: ProtocolVersion::V1,
        }
    }
}

/// Stand-alone description of one model.
pub struct OriginalV2Config;

impl DeviceConfig for OriginalV2Config {
    open spec fn layout(&self) -> ButtonLayout {
        ButtonLayout { cols: 5, rows: 3, total_keys: 15, left_to_right: true }
    }

    open spec fn display(&self) -> DisplayConfig {
        DisplayConfig {
            image_width: 72,
            image_height: 72,
            format: ImageFormat::Jpeg,
            needs_rotation: false,
            flip_horizontal: true,
            flip_vertical: true,
        }
    }

    open spec fn usb(&self) -> UsbConfig {
        UsbConfig {
            vid: 0x0fd9,
            pid: 0x006d,
            product_name: "Stream Deck",
            manufacturer: "Elgato Systems",
            protocol: ProtocolVersion::V2,
        }
    }

    open spec fn name(&self) -> Seq<char> {
        "StreamDeck Original V2"@
    }

    fn device_name(&self) -> (r: &'static str) {
        "StreamDeck Original V2"
    }

    fn button_layout(&self) -> (r: ButtonLayout) {
        ButtonLayout { cols: 5, rows: 3, total_keys: 15, left_to_right: true }
    }

    fn display_config(&self) -> (r: DisplayConfig) {
        DisplayConfig {
            image_width: 72,
            image_height: 72,
            format: ImageFormat::Jpeg,
            needs_rotation: false,
            flip_horizontal: true,
            flip_vertical: true,
        }
    }

    fn usb_config(&self) -> (r: UsbConfig) {
        UsbConfig {
            vid: 0x0fd9,
            pid: 0x006d,
            product_name: "Stream Deck",
            manufacturer: "Elgato Systems",
            protocol: ProtocolVersion::V2,
        }
    }
}

/// Stand-alone description of one model.
pub struct XlConfig;

impl DeviceConfig for XlConfig {
    open spec fn layout(&self) -> ButtonLayout {
        ButtonLayout { cols: 8, rows: 4, total_keys: 32, left_to_right: true }
    }

    open spec fn display(&self) -> DisplayConfig {
        DisplayConfig {
            image_width: 96,
            image_height: 96,
            format: ImageFormat::Jpeg,
            needs_rotation: false,
            flip_horizontal: true,
            flip_vertical: true,
        }
    }

    open spec fn usb(&self) -> UsbConfig {
        UsbConfig {
            vid: 0x0fd9,
            pid: 0x006c,
            product_name: "Stream Deck XL",
            manufacturer: "Elgato Systems",
            protocol: ProtocolVersion::V2,
        }
    }

    open spec fn name(&self) -> Seq<char> {
        "StreamDeck XL"@
    }

    fn device_name(&self) -> (r: &'static str) {
        "StreamDeck XL"
    }

    fn button_layout(&self) -> (r: ButtonLayout) {
        ButtonLayout { cols: 8, rows: 4, total_keys: 32, left_to_right: true }
    }

    fn display_config(&self) -> (r: DisplayConfig) {
        DisplayConfig {
            image_width: 96,
            image_height: 96,
            format: ImageFormat::Jpeg,
            needs_rotation: false,
            flip_horizontal: true,
            flip_vertical: true,
        }
    }

    fn usb_config(&self) -> (r: UsbConfig) {
        UsbConfig {
            vid: 0x0fd9,
            pid: 0x006c,
            product_name: "Stream Deck XL",
            manufacturer: "Elgato Systems",
            protocol: ProtocolVersion::V2,
        }
    }
}

/// Stand-alone description of one model.
pub struct PlusConfig;

impl DeviceConfig for PlusConfig {
    open spec fn layout(&self) -> ButtonLayout {
        ButtonLayout { cols: 4, rows: 2, total_keys: 8, left_to_right: true }
    }

    open spec fn display(&self) -> DisplayConfig {
        DisplayConfig {
            image_width: 120,
            image_height: 120,
            format: ImageFormat::Jpeg,
            needs_rotation: false,
            flip_horizontal: false,
            flip_vertical: false,
        }
    }

    open spec fn usb(&self) -> UsbConfig {
        UsbConfig {
            vid: 0x0fd9,
            pid: 0x0084,
            product_name: "Stream Deck Plus",
            manufacturer: "Elgato Systems",
            protocol: ProtocolVersion::V2,
        }
    }

    open spec fn name(&self) -> Seq<char> {
        "StreamDeck Plus"@
    }

    fn device_name(&self) -> (r: &'static str) {
        "StreamDeck Plus"
    }

    fn button_layout(&self) -> (r: ButtonLayout) {
        ButtonLayout { cols: 4, rows: 2, total_keys: 8, left_to_right: true }
    }

    fn display_config(&self) -> (r: DisplayConfig) {
        DisplayConfig {
            image_width: 120,
            image_height: 120,
            format: ImageFormat::Jpeg,
            needs_rotation: false,
            flip_horizontal: false,
            flip_vertical: false,
        }
    }

    fn usb_config(&self) -> (r: UsbConfig) {
        UsbConfig {
            vid: 0x0fd9,
            pid: 0x0084,
            product_name: "Stream Deck Plus",
            manufacturer: "Elgato Systems",
            protocol: ProtocolVersion::V2,
        }
    }
}

/// Stand-alone description of one model.
pub struct Module6Config;

impl DeviceConfig for Module6Config {
    open spec fn layout(&self) -> ButtonLayout {
        ButtonLayout { cols: 3, rows: 2, total_keys: 6, left_to_right: true }
    }

    open spec fn display(&self) -> DisplayConfig {
        DisplayConfig {
            image_width: 80,
            image_height: 80,
            format: ImageFormat::Bmp,
            needs_rotation: true,
            flip_horizontal: false,
            flip_vertical: false,
        }
    }

    open spec fn usb(&self) -> UsbConfig {
        UsbConfig {
            vid: 0x0fd9,
            pid: 0x00b8,
            product_name: "Stream Deck Module 6",
            manufacturer: "Elgato Systems",
            protocol: ProtocolVersion::Module6Keys,
        }
    }

    open spec fn name(&self) -> Seq<char> {
        "Stream Deck Module 6"@
    }

    fn device_name(&self) -> (r: &'static str) {
        "Stream Deck Module 6"
    }

    fn button_layout(&self) -> (r: ButtonLayout) {
        ButtonLayout { cols: 3, rows: 2, total_keys: 6, left_to_right: true }
    }

    fn display_config(&self) -> (r: DisplayConfig) {
        DisplayConfig {
            image_width: 80,
            image_height: 80,
            format: ImageFormat::Bmp,
            needs_rotation: true,
            flip_horizontal: false,
            flip_vertical: false,
        }
    }

    fn usb_config(&self) -> (r: UsbConfig) {
        UsbConfig {
            vid: 0x0fd9,
            pid: 0x00b8,
            product_name: "Stream Deck Module 6",
            manufacturer: "Elgato Systems",
            protocol: ProtocolVersion::Module6Keys,
        }
    }
}

} // verus!
