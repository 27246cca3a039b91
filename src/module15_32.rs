//! Module protocol for the 15- and 32-key modules: command-byte feature
//! reports and a length-prefixed input report. Image upload for these
//! modules uses a separate output command whose framing is not known, so
//! output reports are left unhandled.

use vstd::prelude::*;
use vstd::math::min;
use crate::command::{FirmwareType, ModuleGetCommand, ModuleSetCommand, le_bytes_i32, i32_to_le};
use crate::v1::{feature_payload, strip_report_id};
use crate::report::{
    ButtonMapping, ENVELOPE_LEN, OutputReportResult, Outcome, append_bytes, envelope,
    key_state_bytes, make_envelope, map_grid, mapped_states, state_bytes, write_front,
    zero_bytes, zeros,
};

verus! {

/// Which of the two larger modules is emulated.
#[derive(Debug, Clone, Copy, PartialEq, Eq, Structural)]
pub enum ModuleModel {
    Module15,
    Module32,
}

/// Number of keys of a model.
pub open spec fn key_limit(m: ModuleModel) -> int {
    match m {
        ModuleModel::Module15 => 15,
        ModuleModel::Module32 => 32,
    }
}

/// "Set" commands: report 0x03 (the host may echo the report id in front)
/// with command `08` and a value sets the brightness.
pub open spec fn m15_set_command(report_id: u8, d: Seq<u8>) -> Option<ModuleSetCommand> {
    let p = feature_payload(report_id, d);
    if report_id == 0x03 && p.len() >= 2 && p[0] == 0x08 {
        Some(ModuleSetCommand::SetBrightness { value: p[1] })
    } else {
        None
    }
}

pub open spec fn m15_get_command(report_id: u8) -> Option<ModuleGetCommand> {
    if report_id == 0x04 {
        Some(ModuleGetCommand::GetFirmwareVersion(FirmwareType::LD))
    } else if report_id == 0x05 {
        Some(ModuleGetCommand::GetFirmwareVersion(FirmwareType::AP2))
    } else if report_id == 0x07 {
        Some(ModuleGetCommand::GetFirmwareVersion(FirmwareType::AP1))
    } else if report_id == 0x06 {
        Some(ModuleGetCommand::GetUnitSerialNumber)
    } else if report_id == 0x0a {
        Some(ModuleGetCommand::GetIdleTime)
    } else {
        None
    }
}

/// Firmware version of every slot, "1.00.000".
pub open spec fn m15_version() -> Seq<u8> {
    seq![0x31u8, 0x2e, 0x30, 0x30, 0x2e, 0x30, 0x30, 0x30]
}

/// Unit serial number, "A1B2C3D4E5F6G7".
pub open spec fn m15_serial() -> Seq<u8> {
    seq![0x41u8, 0x31, 0x42, 0x32, 0x43, 0x33, 0x44, 0x34, 0x45, 0x35, 0x46, 0x36, 0x47, 0x37]
}

/// Bytes of the reply to a feature "get" request, if the request is known
/// and answered.
pub open spec fn m15_feature_response(report_id: u8, idle: i32) -> Option<Seq<u8>> {
    match m15_get_command(report_id) {
        Some(ModuleGetCommand::GetFirmwareVersion(_)) => Some(envelope(seq![report_id, 0x0c], 6, m15_version())),
        Some(ModuleGetCommand::GetUnitSerialNumber) => Some(envelope(seq![0x06u8, 14], 2, m15_serial())),
        Some(ModuleGetCommand::GetIdleTime) => Some(envelope(seq![0x0au8, 0x04] + le_bytes_i32(idle), 6, Seq::empty())),
        _ => None,
    }
}

/// Input report: report id 1, command 0, key count as a little-endian
/// 16-bit length, then one byte per key.
pub open spec fn m15_button_report(m: Seq<bool>, keys: int) -> Seq<u8> {
    seq![0x01u8, 0x00, keys as u8, 0x00] + state_bytes(m, keys)
}

/// The HID report descriptor, byte for byte as the real device sends it.
pub open spec fn m15_descriptor_spec() -> Seq<u8> {
    seq![
        0x05, 0x0c, 0x09, 0x01, 0xa1, 0x01, 0x85, 0x01, 0x05, 0x09, 0x19, 0x01,
        0x29, 0x20, 0x15, 0x00, 0x26, 0xff, 0x00, 0x75, 0x08, 0x95, 0x20, 0x81,
        0x02, 0x85, 0x02, 0x0a, 0x00, 0xff, 0x15, 0x00, 0x26, 0xff, 0x00, 0x75,
        0x08, 0x96, 0xff, 0x03, 0x91, 0x02, 0x85, 0x03, 0x0a, 0x00, 0xff, 0x15,
        0x00, 0x26, 0xff, 0x00, 0x75, 0x08, 0x95, 0x10, 0xb1, 0x04, 0x85, 0x04,
        0x0a, 0x00, 0xff, 0x15, 0x00, 0x26, 0xff, 0x00, 0x75, 0x08, 0x95, 0x10,
        0xb1, 0x04, 0x85, 0x05, 0x0a, 0x00, 0xff, 0x15, 0x00, 0x26, 0xff, 0x00,
        0x75, 0x08, 0x95, 0x10, 0xb1, 0x04, 0x85, 0x06, 0x0a, 0x00, 0xff, 0x15,
        0x00, 0x26, 0xff, 0x00, 0x75, 0x08, 0x95, 0x10, 0xb1, 0x04, 0x85, 0x07,
        0x0a, 0x00, 0xff, 0x15, 0x00, 0x26, 0xff, 0x00, 0x75, 0x08, 0x95, 0x10,
        0xb1, 0x04, 0x85, 0x0a, 0x0a, 0x00, 0xff, 0x15, 0x00, 0x26, 0xff, 0x00,
        0x75, 0x08, 0x95, 0x10, 0xb1, 0x04, 0xc0,
    ]
}

fn m15_descriptor_bytes() -> (r: Vec<u8>)
    ensures
        r@ == m15_descriptor_spec(),
{
    let r = vec![
        0x05, 0x0c, 0x09, 0x01, 0xa1, 0x01, 0x85, 0x01, 0x05, 0x09, 0x19, 0x01,
        0x29, 0x20, 0x15, 0x00, 0x26, 0xff, 0x00, 0x75, 0x08, 0x95, 0x20, 0x81,
        0x02, 0x85, 0x02, 0x0a, 0x00, 0xff, 0x15, 0x00, 0x26, 0xff, 0x00, 0x75,
        0x08, 0x96, 0xff, 0x03, 0x91, 0x02, 0x85, 0x03, 0x0a, 0x00, 0xff, 0x15,
        0x00, 0x26, 0xff, 0x00, 0x75, 0x08, 0x95, 0x10, 0xb1, 0x04, 0x85, 0x04,
        0x0a, 0x00, 0xff, 0x15, 0x00, 0x26, 0xff, 0x00, 0x75, 0x08, 0x95, 0x10,
        0xb1, 0x04, 0x85, 0x05, 0x0a, 0x00, 0xff, 0x15, 0x00, 0x26, 0xff, 0x00,
        0x75, 0x08, 0x95, 0x10, 0xb1, 0x04, 0x85, 0x06, 0x0a, 0x00, 0xff, 0x15,
        0x00, 0x26, 0xff, 0x00, 0x75, 0x08, 0x95, 0x10, 0xb1, 0x04, 0x85, 0x07,
        0x0a, 0x00, 0xff, 0x15, 0x00, 0x26, 0xff, 0x00, 0x75, 0x08, 0x95, 0x10,
        0xb1, 0x04, 0x85, 0x0a, 0x0a, 0x00, 0xff, 0x15, 0x00, 0x26, 0xff, 0x00,
        0x75, 0x08, 0x95, 0x10, 0xb1, 0x04, 0xc0,
    ];
    assert(r@ =~= m15_descriptor_spec());
    r
}


/// Handler for the 15- and 32-key modules.
#[derive(Debug)]
pub struct Module15_32KeysHandler {
    model: ModuleModel,
    idle_time_seconds: i32,
}

impl Module15_32KeysHandler {
    pub closed spec fn model(&self) -> ModuleModel {
        self.model
    }

    pub closed spec fn idle_time(&self) -> i32 {
        self.idle_time_seconds
    }

    pub fn new() -> (r: Self)
        ensures
            r.model() == ModuleModel::Module15,
            r.idle_time() == 0,
    {
        Module15_32KeysHandler { model: ModuleModel::Module15, idle_time_seconds: 0 }
    }

    pub fn with_model(model: ModuleModel) -> (r: Self)
        ensures
            r.model() == model,
            r.idle_time() == 0,
    {
        Module15_32KeysHandler { model, idle_time_seconds: 0 }
    }

    fn keys(&self) -> (r: usize)
        ensures
            r == key_limit(self.model()),
    {
        match self.model {
            ModuleModel::Module15 => 15,
            ModuleModel::Module32 => 32,
        }
    }

    /// Image upload for these modules is not supported: every output report
    /// is left unhandled.
    pub fn parse_output_report(&mut self, data: &[u8]) -> (r: OutputReportResult)
        ensures
            r@ == Outcome::Unhandled,
            *final(self) == *old(self),
    {
        OutputReportResult::Unhandled
    }

    pub fn parse_module_set_command(&self, report_id: u8, data: &[u8]) -> (r: Option<ModuleSetCommand>)
        ensures
            r == m15_set_command(report_id, data@),
    {
        let p = strip_report_id(report_id, data);
        if report_id == 0x03 && p.len() >= 2 && p[0] == 0x08 {
            Some(ModuleSetCommand::SetBrightness { value: p[1] })
        } else {
            None
        }
    }

    pub fn parse_module_get_command(&self, report_id: u8) -> (r: Option<ModuleGetCommand>)
        ensures
            r == m15_get_command(report_id),
    {
        if report_id == 0x04 {
            Some(ModuleGetCommand::GetFirmwareVersion(FirmwareType::LD))
        } else if report_id == 0x05 {
            Some(ModuleGetCommand::GetFirmwareVersion(FirmwareType::AP2))
        } else if report_id == 0x07 {
            Some(ModuleGetCommand::GetFirmwareVersion(FirmwareType::AP1))
        } else if report_id == 0x06 {
            Some(ModuleGetCommand::GetUnitSerialNumber)
        } else if report_id == 0x0a {
            Some(ModuleGetCommand::GetIdleTime)
        } else {
            None
        }
    }

    pub fn get_firmware_version(&self, firmware_type: FirmwareType) -> (r: Vec<u8>)
        ensures
            r@ == m15_version(),
    {
        let r = vec![0x31u8, 0x2e, 0x30, 0x30, 0x2e, 0x30, 0x30, 0x30];
        assert(r@ =~= m15_version());
        r
    }

    pub fn get_unit_serial_number(&self) -> (r: Vec<u8>)
        ensures
            r@ == m15_serial(),
    {
        let r = vec![0x41u8, 0x31, 0x42, 0x32, 0x43, 0x33, 0x44, 0x34, 0x45, 0x35, 0x46, 0x36, 0x47, 0x37];
        assert(r@ =~= m15_serial());
        r
    }

    pub fn handle_feature_report(&mut self, report_id: u8, data: &[u8]) -> (r: Option<ModuleSetCommand>)
        ensures
            r == m15_set_command(report_id, data@),
            *final(self) == *old(self),
    {
        self.parse_module_set_command(report_id, data)
    }

    /// Builds the reply to a feature "get" request in `buf`. The first
    /// `min(32, buf.len())` bytes are cleared whatever the request.
    pub fn get_feature_report(&mut self, report_id: u8, buf: &mut [u8]) -> (r: Option<usize>)
        ensures
            *final(self) == *old(self),
            ({
                let n = min(ENVELOPE_LEN as int, old(buf)@.len() as int);
                match m15_feature_response(report_id, old(self).idle_time()) {
                    Some(content) => {
                        &&& r == Some(n as usize)
                        &&& final(buf)@ == content.subrange(0, n) + old(buf)@.skip(n)
                    },
                    None => r is None && final(buf)@ == zeros(n) + old(buf)@.skip(n),
                }
            }),
    {
        let content: Vec<u8> = match self.parse_module_get_command(report_id) {
            Some(ModuleGetCommand::GetFirmwareVersion(t)) => {
                let ver = self.get_firmware_version(t);
                make_envelope(vec![report_id, 0x0c].as_slice(), 6, ver.as_slice())
            },
            Some(ModuleGetCommand::GetUnitSerialNumber) => {
                let serial = self.get_unit_serial_number();
                make_envelope(vec![0x06u8, 14].as_slice(), 2, serial.as_slice())
            },
            Some(ModuleGetCommand::GetIdleTime) => {
                let mut head: Vec<u8> = vec![0x0au8, 0x04];
                let le = i32_to_le(self.idle_time_seconds);
                append_bytes(&mut head, &le);
                let empty: Vec<u8> = Vec::new();
                make_envelope(head.as_slice(), 6, empty.as_slice())
            },
            _ => {
                let z = zero_bytes(ENVELOPE_LEN);
                write_front(buf, &z);
                assert(z@.subrange(0, min(ENVELOPE_LEN as int, old(buf)@.len() as int)) =~= zeros(min(ENVELOPE_LEN as int, old(buf)@.len() as int)));
                return None;
            },
        };
        let n = write_front(buf, &content);
        Some(n)
    }

    pub fn map_buttons(&self, physical_buttons: &[bool], cols: usize, rows: usize, left_to_right: bool) -> (r: ButtonMapping)
        requires
            cols * rows <= usize::MAX,
        ensures
            r.mapped_buttons@ == mapped_states(physical_buttons@, cols as int, rows as int, left_to_right, key_limit(self.model())),
            r.active_count == key_limit(self.model()),
    {
        let max = self.keys();
        ButtonMapping {
            mapped_buttons: map_grid(physical_buttons, cols, rows, left_to_right, max),
            active_count: max,
        }
    }

    pub fn hid_descriptor(&self) -> (r: Vec<u8>)
        ensures
            r@ == m15_descriptor_spec(),
    {
        m15_descriptor_bytes()
    }

    pub fn input_report_size(&self, button_count: usize) -> (r: usize)
        ensures
            r == 512,
    {
        512
    }

    pub fn format_button_report(&self, buttons: &ButtonMapping, report: &mut [u8]) -> (r: usize)
        ensures
            ({
                let keys = key_limit(self.model());
                &&& old(report)@.len() < 4 + keys ==> r == 0 && final(report)@ == old(report)@
                &&& old(report)@.len() >= 4 + keys ==> r == 4 + keys && final(report)@
                    == m15_button_report(buttons.mapped_buttons@, keys) + old(report)@.skip(4 + keys)
            }),
    {
        let used = self.keys();
        let needed = 4 + used;
        if report.len() < needed {
            return 0;
        }
        let mut content: Vec<u8> = vec![0x01u8, 0x00, used as u8, 0x00];
        let states = key_state_bytes(&buttons.mapped_buttons, used);
        append_bytes(&mut content, &states);
        assert(content@ =~= m15_button_report(buttons.mapped_buttons@, used as int));
        write_front(report, &content);
        assert(content@.subrange(0, needed as int) =~= content@);
        needed
    }
}

} // verus!
