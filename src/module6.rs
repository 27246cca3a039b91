//! Module protocol for the six-key module: chunked image uploads, magic
//! brightness and logo/idle commands, a fixed 64-byte input report.

use vstd::prelude::*;
use vstd::math::min;
use crate::buffer::{ImageBuffer, IMAGE_BUFFER_CAPACITY};
use crate::command::{
    FirmwareType, ModuleGetCommand, ModuleSetCommand, le_i32, i32_from_le, le_bytes_i32, i32_to_le,
};
use crate::report::{
    ButtonMapping, ENVELOPE_LEN, ImageState, Outcome, OutputReportResult, append_bytes, envelope,
    idle_image, key_state_bytes, make_envelope, map_grid, mapped_states, state_bytes, write_front,
    zero_bytes, zeros,
};

verus! {

/// Bytes in front of the payload of a chunk report.
pub const CHUNK_HEADER_LEN: usize = 10;

/// Payload bytes in every chunk but the last.
pub const CHUNK_PAYLOAD_LEN: usize = 1014;

/// Size of a whole six-key-module key image: a BMP header and 80×80 RGB.
pub const MODULE6_IMAGE_BYTES: usize = 19254;

/// Chunk index and key index of an image chunk report
/// `[0x02, 0x01, chunk, _, show, key, _, _, _, _, payload...]`.
pub open spec fn m6_header(d: Seq<u8>) -> Option<(u8, u8)> {
    if d.len() >= CHUNK_HEADER_LEN && d[0] == 0x02 && d[1] == 0x01 {
        Some((d[2], d[5]))
    } else {
        None
    }
}

/// Number of chunks an upload is expected to take, judged from the size of
/// its first chunk.
pub open spec fn total_chunks_for(first_len: int) -> int {
    if first_len <= 0 {
        1
    } else {
        (MODULE6_IMAGE_BYTES - 1) / first_len + 1
    }
}

/// One step of chunked reassembly. Chunk 0 starts an upload for its key and
/// fixes the expected chunk count; later chunks must carry the same key and
/// exactly the next index, else the state resets and the chunk is dropped.
/// The upload completes at the last expected chunk or at a short chunk.
pub open spec fn m6_step(s: ImageState, d: Seq<u8>) -> (ImageState, Outcome) {
    match m6_header(d) {
        None => (s, Outcome::Unhandled),
        Some((chunk, key)) => {
            let payload = d.skip(CHUNK_HEADER_LEN as int);
            let s1 = if chunk == 0 {
                ImageState {
                    buffer: Seq::empty(),
                    receiving: true,
                    key,
                    next: 0,
                    total: total_chunks_for(payload.len() as int),
                }
            } else {
                s
            };
            if !s1.receiving || key != s1.key || chunk != s1.next {
                (idle_image(), Outcome::Unhandled)
            } else if s1.buffer.len() + payload.len() > IMAGE_BUFFER_CAPACITY {
                (idle_image(), Outcome::Unhandled)
            } else if chunk + 1 >= s1.total || payload.len() < CHUNK_PAYLOAD_LEN {
                (idle_image(), Outcome::Complete { key_id: key, image: s1.buffer + payload })
            } else {
                (
                    ImageState {
                        buffer: s1.buffer + payload,
                        receiving: true,
                        key,
                        next: chunk + 1,
                        total: s1.total,
                    },
                    Outcome::Incomplete,
                )
            }
        },
    }
}

/// Six-key module "set" commands, decoded from the payload after the
/// report id.
pub open spec fn m6_set_command(report_id: u8, d: Seq<u8>) -> Option<ModuleSetCommand> {
    if report_id == 0x05 {
        if d.len() >= 5 && d[0] == 0x55 && d[1] == 0xaa && d[2] == 0xd1 && d[3] == 0x01 {
            Some(ModuleSetCommand::SetBrightness { value: d[4] })
        } else {
            None
        }
    } else if report_id == 0x0b && d.len() >= 1 {
        if d[0] == 0x63 {
            if d.len() >= 2 && d[1] == 0x00 {
                Some(ModuleSetCommand::ShowLogo)
            } else if d.len() >= 2 && d[1] == 0x02 {
                Some(ModuleSetCommand::UpdateBootLogo { slice: if d.len() >= 3 { d[2] } else { 0 } })
            } else {
                None
            }
        } else if d[0] == 0xa2 && d.len() >= 5 {
            Some(ModuleSetCommand::SetIdleTime { seconds: le_i32(d[1], d[2], d[3], d[4]) })
        } else {
            None
        }
    } else {
        None
    }
}

pub open spec fn m6_get_command(report_id: u8) -> Option<ModuleGetCommand> {
    if report_id == 0xa0 {
        Some(ModuleGetCommand::GetFirmwareVersion(FirmwareType::LD))
    } else if report_id == 0xa1 {
        Some(ModuleGetCommand::GetFirmwareVersion(FirmwareType::AP2))
    } else if report_id == 0xa2 {
        Some(ModuleGetCommand::GetFirmwareVersion(FirmwareType::AP1))
    } else if report_id == 0x03 {
        Some(ModuleGetCommand::GetUnitSerialNumber)
    } else if report_id == 0xa3 {
        Some(ModuleGetCommand::GetIdleTime)
    } else if report_id == 0x08 {
        Some(ModuleGetCommand::GetUnitInformation)
    } else {
        None
    }
}

/// Firmware version strings: "1.00.003" for LD, "1.03.000" otherwise.
pub open spec fn m6_version(t: FirmwareType) -> Seq<u8> {
    match t {
        FirmwareType::LD => seq![0x31u8, 0x2e, 0x30, 0x30, 0x2e, 0x30, 0x30, 0x33],
        _ => seq![0x31u8, 0x2e, 0x30, 0x33, 0x2e, 0x30, 0x30, 0x30],
    }
}

/// Unit serial number, "1234567890".
pub open spec fn m6_serial() -> Seq<u8> {
    seq![0x31u8, 0x32, 0x33, 0x34, 0x35, 0x36, 0x37, 0x38, 0x39, 0x30]
}

/// Bytes of the reply to a feature "get" request, if the request is known
/// and answered.
pub open spec fn m6_feature_response(report_id: u8, idle: i32) -> Option<Seq<u8>> {
    match m6_get_command(report_id) {
        Some(ModuleGetCommand::GetFirmwareVersion(t)) => Some(envelope(seq![report_id], 5, m6_version(t))),
        Some(ModuleGetCommand::GetUnitSerialNumber) => Some(envelope(seq![0x03u8], 5, m6_serial())),
        Some(ModuleGetCommand::GetIdleTime) => Some(envelope(seq![0xa3u8, 0x04] + le_bytes_i32(idle), 6, Seq::empty())),
        _ => None,
    }
}

/// Input report: report id 1, the first six key states, zeros to 64 bytes.
pub open spec fn m6_button_report(m: Seq<bool>) -> Seq<u8> {
    seq![0x01u8] + state_bytes(m, 6) + zeros(57)
}

/// The HID report descriptor, byte for byte as the real device sends it.
pub open spec fn m6_descriptor_spec() -> Seq<u8> {
    seq![
        0x05, 0x0c, 0x09, 0x01, 0xa1, 0x01, 0x85, 0x01, 0x05, 0x09, 0x19, 0x01,
        0x29, 0x20, 0x15, 0x00, 0x26, 0xff, 0x00, 0x75, 0x08, 0x95, 0x3f, 0x81,
        0x02, 0x85, 0x02, 0x0a, 0x00, 0xff, 0x15, 0x00, 0x26, 0xff, 0x00, 0x75,
        0x08, 0x96, 0xff, 0x03, 0x91, 0x02, 0x85, 0x03, 0x0a, 0x00, 0xff, 0x15,
        0x00, 0x26, 0xff, 0x00, 0x75, 0x08, 0x95, 0x10, 0xb1, 0x04, 0x85, 0x04,
        0x0a, 0x00, 0xff, 0x15, 0x00, 0x26, 0xff, 0x00, 0x75, 0x08, 0x95, 0x10,
        0xb1, 0x04, 0x85, 0x05, 0x0a, 0x00, 0xff, 0x15, 0x00, 0x26, 0xff, 0x00,
        0x75, 0x08, 0x95, 0x10, 0xb1, 0x04, 0x85, 0x07, 0x0a, 0x00, 0xff, 0x15,
        0x00, 0x26, 0xff, 0x00, 0x75, 0x08, 0x95, 0x10, 0xb1, 0x04, 0x85, 0x08,
        0x0a, 0x00, 0xff, 0x15, 0x00, 0x26, 0xff, 0x00, 0x75, 0x08, 0x95, 0x10,
        0xb1, 0x04, 0x85, 0x0b, 0x0a, 0x00, 0xff, 0x15, 0x00, 0x26, 0xff, 0x00,
        0x75, 0x08, 0x95, 0x10, 0xb1, 0x04, 0x85, 0xa0, 0x0a, 0x00, 0xff, 0x15,
        0x00, 0x26, 0xff, 0x00, 0x75, 0x08, 0x95, 0x10, 0xb1, 0x04, 0x85, 0xa1,
        0x0a, 0x00, 0xff, 0x15, 0x00, 0x26, 0xff, 0x00, 0x75, 0x08, 0x95, 0x10,
        0xb1, 0x04, 0x85, 0xa2, 0x0a, 0x00, 0xff, 0x15, 0x00, 0x26, 0xff, 0x00,
        0x75, 0x08, 0x95, 0x10, 0xb1, 0x04, 0x85, 0xa3, 0x0a, 0x00, 0xff, 0x15,
        0x00, 0x26, 0xff, 0x00, 0x75, 0x08, 0x95, 0x10, 0xb1, 0x04, 0xc0,
    ]
}

fn m6_descriptor_bytes() -> (r: Vec<u8>)
    ensures
        r@ == m6_descriptor_spec(),
{
    let r = vec![
        0x05, 0x0c, 0x09, 0x01, 0xa1, 0x01, 0x85, 0x01, 0x05, 0x09, 0x19, 0x01,
        0x29, 0x20, 0x15, 0x00, 0x26, 0xff, 0x00, 0x75, 0x08, 0x95, 0x3f, 0x81,
        0x02, 0x85, 0x02, 0x0a, 0x00, 0xff, 0x15, 0x00, 0x26, 0xff, 0x00, 0x75,
        0x08, 0x96, 0xff, 0x03, 0x91, 0x02, 0x85, 0x03, 0x0a, 0x00, 0xff, 0x15,
        0x00, 0x26, 0xff, 0x00, 0x75, 0x08, 0x95, 0x10, 0xb1, 0x04, 0x85, 0x04,
        0x0a, 0x00, 0xff, 0x15, 0x00, 0x26, 0xff, 0x00, 0x75, 0x08, 0x95, 0x10,
        0xb1, 0x04, 0x85, 0x05, 0x0a, 0x00, 0xff, 0x15, 0x00, 0x26, 0xff, 0x00,
        0x75, 0x08, 0x95, 0x10, 0xb1, 0x04, 0x85, 0x07, 0x0a, 0x00, 0xff, 0x15,
        0x00, 0x26, 0xff, 0x00, 0x75, 0x08, 0x95, 0x10, 0xb1, 0x04, 0x85, 0x08,
        0x0a, 0x00, 0xff, 0x15, 0x00, 0x26, 0xff, 0x00, 0x75, 0x08, 0x95, 0x10,
        0xb1, 0x04, 0x85, 0x0b, 0x0a, 0x00, 0xff, 0x15, 0x00, 0x26, 0xff, 0x00,
        0x75, 0x08, 0x95, 0x10, 0xb1, 0x04, 0x85, 0xa0, 0x0a, 0x00, 0xff, 0x15,
        0x00, 0x26, 0xff, 0x00, 0x75, 0x08, 0x95, 0x10, 0xb1, 0x04, 0x85, 0xa1,
        0x0a, 0x00, 0xff, 0x15, 0x00, 0x26, 0xff, 0x00, 0x75, 0x08, 0x95, 0x10,
        0xb1, 0x04, 0x85, 0xa2, 0x0a, 0x00, 0xff, 0x15, 0x00, 0x26, 0xff, 0x00,
        0x75, 0x08, 0x95, 0x10, 0xb1, 0x04, 0x85, 0xa3, 0x0a, 0x00, 0xff, 0x15,
        0x00, 0x26, 0xff, 0x00, 0x75, 0x08, 0x95, 0x10, 0xb1, 0x04, 0xc0,
    ];
    assert(r@ =~= m6_descriptor_spec());
    r
}


/// Handler for the six-key module.
#[derive(Debug)]
pub struct Module6KeysHandler {
    image_buffer: ImageBuffer,
    receiving_image: bool,
    expected_key: u8,
    expected_chunk: usize,
    total_chunks: usize,
    idle_time_seconds: i32,
}

impl Module6KeysHandler {
    pub closed spec fn image(&self) -> ImageState {
        ImageState {
            buffer: self.image_buffer@,
            receiving: self.receiving_image,
            key: self.expected_key,
            next: self.expected_chunk as int,
            total: self.total_chunks as int,
        }
    }

    pub closed spec fn idle_time(&self) -> i32 {
        self.idle_time_seconds
    }

    pub open spec fn wf(&self) -> bool {
        &&& self.image().wf()
        &&& self.image().next <= 256
    }

    pub fn new() -> (r: Self)
        ensures
            r.image() == idle_image(),
            r.idle_time() == 0,
            r.wf(),
    {
        Module6KeysHandler {
            image_buffer: ImageBuffer::new(),
            receiving_image: false,
            expected_key: 0,
            expected_chunk: 0,
            total_chunks: 0,
            idle_time_seconds: 0,
        }
    }

    /// Drops any upload in flight.
    pub fn reset(&mut self)
        ensures
            final(self).image() == idle_image(),
            final(self).idle_time() == old(self).idle_time(),
    {
        self.image_buffer.clear();
        self.receiving_image = false;
        self.expected_key = 0;
        self.expected_chunk = 0;
        self.total_chunks = 0;
    }

    pub fn parse_output_report(&mut self, data: &[u8]) -> (r: OutputReportResult)
        requires
            old(self).wf(),
        ensures
            (final(self).image(), r@) == m6_step(old(self).image(), data@),
            final(self).idle_time() == old(self).idle_time(),
            final(self).wf(),
    {
        if data.len() < CHUNK_HEADER_LEN || data[0] != 0x02 || data[1] != 0x01 {
            return OutputReportResult::Unhandled;
        }
        let chunk_index = data[2];
        let key_index = data[5];
        let payload = &data[CHUNK_HEADER_LEN..data.len()];
        assert(payload@ =~= data@.skip(CHUNK_HEADER_LEN as int));
        if chunk_index == 0 {
            self.reset();
            self.receiving_image = true;
            self.expected_key = key_index;
            let first_len = payload.len();
            self.total_chunks = if first_len == 0 {
                1
            } else {
                (MODULE6_IMAGE_BYTES - 1) / first_len + 1
            };
        }
        if !self.receiving_image || key_index != self.expected_key || chunk_index as usize
            != self.expected_chunk {
            self.reset();
            return OutputReportResult::Unhandled;
        }
        if !self.image_buffer.append(payload) {
            self.reset();
            return OutputReportResult::Unhandled;
        }
        if chunk_index as usize + 1 >= self.total_chunks || payload.len() < CHUNK_PAYLOAD_LEN {
            let image = self.image_buffer.to_vec();
            self.reset();
            OutputReportResult::KeyImageComplete { key_id: key_index, image }
        } else {
            self.expected_chunk = chunk_index as usize + 1;
            OutputReportResult::Incomplete
        }
    }

    pub fn parse_module_set_command(&self, report_id: u8, data: &[u8]) -> (r: Option<ModuleSetCommand>)
        ensures
            r == m6_set_command(report_id, data@),
    {
        if report_id == 0x05 {
            if data.len() >= 5 && data[0] == 0x55 && data[1] == 0xaa && data[2] == 0xd1 && data[3]
                == 0x01 {
                Some(ModuleSetCommand::SetBrightness { value: data[4] })
            } else {
                None
            }
        } else if report_id == 0x0b && data.len() >= 1 {
            if data[0] == 0x63 {
                if data.len() >= 2 && data[1] == 0x00 {
                    Some(ModuleSetCommand::ShowLogo)
                } else if data.len() >= 2 && data[1] == 0x02 {
                    let slice = if data.len() >= 3 {
                        data[2]
                    } else {
                        0
                    };
                    Some(ModuleSetCommand::UpdateBootLogo { slice })
                } else {
                    None
                }
            } else if data[0] == 0xa2 && data.len() >= 5 {
                let seconds = i32_from_le(data[1], data[2], data[3], data[4]);
                Some(ModuleSetCommand::SetIdleTime { seconds })
            } else {
                None
            }
        } else {
            None
        }
    }

    pub fn parse_module_get_command(&self, report_id: u8) -> (r: Option<ModuleGetCommand>)
        ensures
            r == m6_get_command(report_id),
    {
        if report_id == 0xa0 {
            Some(ModuleGetCommand::GetFirmwareVersion(FirmwareType::LD))
        } else if report_id == 0xa1 {
            Some(ModuleGetCommand::GetFirmwareVersion(FirmwareType::AP2))
        } else if report_id == 0xa2 {
            Some(ModuleGetCommand::GetFirmwareVersion(FirmwareType::AP1))
        } else if report_id == 0x03 {
            Some(ModuleGetCommand::GetUnitSerialNumber)
        } else if report_id == 0xa3 {
            Some(ModuleGetCommand::GetIdleTime)
        } else if report_id == 0x08 {
            Some(ModuleGetCommand::GetUnitInformation)
        } else {
            None
        }
    }

    pub fn get_firmware_version(&self, firmware_type: FirmwareType) -> (r: Vec<u8>)
        ensures
            r@ == m6_version(firmware_type),
    {
        let r = match firmware_type {
            FirmwareType::LD => vec![0x31u8, 0x2e, 0x30, 0x30, 0x2e, 0x30, 0x30, 0x33],
            _ => vec![0x31u8, 0x2e, 0x30, 0x33, 0x2e, 0x30, 0x30, 0x30],
        };
        assert(r@ =~= m6_version(firmware_type));
        r
    }

    pub fn get_unit_serial_number(&self) -> (r: Vec<u8>)
        ensures
            r@ == m6_serial(),
    {
        let r = vec![0x31u8, 0x32, 0x33, 0x34, 0x35, 0x36, 0x37, 0x38, 0x39, 0x30];
        assert(r@ =~= m6_serial());
        r
    }

    /// Builds the reply to a feature "get" request in `buf`. The first
    /// `min(32, buf.len())` bytes are cleared whatever the request.
    pub fn get_feature_report_bytes(&self, report_id: u8, buf: &mut [u8]) -> (r: Option<usize>)
        ensures
            ({
                let n = min(ENVELOPE_LEN as int, old(buf)@.len() as int);
                match m6_feature_response(report_id, self.idle_time()) {
                    Some(content) => {
                        &&& r == Some(n as usize)
                        &&& final(buf)@ == content.subrange(0, n) + old(buf)@.skip(n)
                    },
                    None => r is None && final(buf)@ == zeros(n) + old(buf)@.skip(n),
                }
            }),
    {
        let content: Vec<u8> = match self.parse_module_get_command(report_id) {
            Some(ModuleGetCommand::GetFirmwareVersion(t)) => {
                let ver = self.get_firmware_version(t);
                make_envelope(vec![report_id].as_slice(), 5, ver.as_slice())
            },
            Some(ModuleGetCommand::GetUnitSerialNumber) => {
                let serial = self.get_unit_serial_number();
                make_envelope(vec![0x03u8].as_slice(), 5, serial.as_slice())
            },
            Some(ModuleGetCommand::GetIdleTime) => {
                let mut head: Vec<u8> = vec![0xa3u8, 0x04];
                let le = i32_to_le(self.idle_time_seconds);
                append_bytes(&mut head, &le);
                let empty: Vec<u8> = Vec::new();
                make_envelope(head.as_slice(), 6, empty.as_slice())
            },
            _ => {
                let z = zero_bytes(ENVELOPE_LEN);
                write_front(buf, &z);
                assert(z@.subrange(0, min(ENVELOPE_LEN as int, old(buf)@.len() as int)) =~= zeros(min(ENVELOPE_LEN as int, old(buf)@.len() as int)));
                return None;
            },
        };
        let n = write_front(buf, &content);
        Some(n)
    }

    pub fn handle_feature_report(&mut self, report_id: u8, data: &[u8]) -> (r: Option<ModuleSetCommand>)
        ensures
            r == m6_set_command(report_id, data@),
            final(self).image() == old(self).image(),
            final(self).idle_time() == (match r {
                Some(ModuleSetCommand::SetIdleTime { seconds }) => seconds,
                _ => old(self).idle_time(),
            }),
    {
        let r = self.parse_module_set_command(report_id, data);
        if let Some(ModuleSetCommand::SetIdleTime { seconds }) = r {
            self.idle_time_seconds = seconds;
        }
        r
    }

    pub fn get_feature_report(&mut self, report_id: u8, buf: &mut [u8]) -> (r: Option<usize>)
        ensures
            *final(self) == *old(self),
            ({
                let n = min(ENVELOPE_LEN as int, old(buf)@.len() as int);
                match m6_feature_response(report_id, old(self).idle_time()) {
                    Some(content) => {
                        &&& r == Some(n as usize)
                        &&& final(buf)@ == content.subrange(0, n) + old(buf)@.skip(n)
                    },
                    None => r is None && final(buf)@ == zeros(n) + old(buf)@.skip(n),
                }
            }),
    {
        self.get_feature_report_bytes(report_id, buf)
    }

    pub fn map_buttons(&self, physical_buttons: &[bool], cols: usize, rows: usize, left_to_right: bool) -> (r: ButtonMapping)
        requires
            cols * rows <= usize::MAX,
        ensures
            r.mapped_buttons@ == mapped_states(physical_buttons@, cols as int, rows as int, left_to_right, 32),
            r.active_count == 6,
    {
        ButtonMapping {
            mapped_buttons: map_grid(physical_buttons, cols, rows, left_to_right, 32),
            active_count: 6,
        }
    }

    pub fn hid_descriptor(&self) -> (r: Vec<u8>)
        ensures
            r@ == m6_descriptor_spec(),
    {
        m6_descriptor_bytes()
    }

    pub fn input_report_size(&self, button_count: usize) -> (r: usize)
        ensures
            r == 65,
    {
        65
    }

    pub fn format_button_report(&self, buttons: &ButtonMapping, report: &mut [u8]) -> (r: usize)
        ensures
            old(report)@.len() < 64 ==> r == 0 && final(report)@ == old(report)@,
            old(report)@.len() >= 64 ==> r == 64 && final(report)@ == m6_button_report(buttons.mapped_buttons@) + old(report)@.skip(64),
    {
        if report.len() < 64 {
            return 0;
        }
        let mut content: Vec<u8> = vec![0x01u8];
        let states = key_state_bytes(&buttons.mapped_buttons, 6);
        append_bytes(&mut content, &states);
        let pad = zero_bytes(57);
        append_bytes(&mut content, &pad);
        assert(content@ =~= m6_button_report(buttons.mapped_buttons@));
        write_front(report, &content);
        assert(content@.subrange(0, 64) =~= content@);
        64
    }
}

} // verus!
