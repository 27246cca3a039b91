//! V1 protocol (BMP devices): two-packet image uploads, magic-byte
//! brightness and reset commands, one byte per key in input reports.

use vstd::prelude::*;
use vstd::math::min;
use crate::buffer::{ImageBuffer, IMAGE_BUFFER_CAPACITY};
use crate::command::{ModuleSetCommand, le_i32, i32_from_le, le_bytes_i32, i32_to_le};
use crate::report::{
    ButtonMapping, ImageState, Outcome, OutputReportResult, append_bytes, envelope, idle_image,
    key_state_bytes, make_envelope, map_grid, mapped_states, state_bytes, write_front, zero_bytes,
    zeros,
};

verus! {

/// Packet number and key id of a V1 image packet, and where its payload
/// starts; the report id byte `0x02` may have been stripped by the host.
pub open spec fn v1_header(d: Seq<u8>) -> Option<(u8, u8, int)> {
    if d.len() < 8 {
        None
    } else if d[0] == 0x02 {
        Some((d[2], d[5], 8))
    } else if d[0] == 0x01 {
        Some((d[1], d[4], 7))
    } else {
        None
    }
}

/// One step of V1 reassembly. Packet 1 starts an upload for its key;
/// packet 2 for the same key completes it. Anything else is ignored
/// without touching the state; a payload that does not fit resets it.
pub open spec fn v1_step(s: ImageState, d: Seq<u8>) -> (ImageState, Outcome) {
    match v1_header(d) {
        None => (s, Outcome::Unhandled),
        Some((packet, key, start)) => {
            let payload = d.skip(start);
            if packet == 1 {
                if payload.len() <= IMAGE_BUFFER_CAPACITY {
                    (
                        ImageState { buffer: payload, receiving: true, key, next: 0, total: 0 },
                        Outcome::Incomplete,
                    )
                } else {
                    (idle_image(), Outcome::Unhandled)
                }
            } else if packet == 2 && s.receiving && key == s.key {
                if s.buffer.len() + payload.len() <= IMAGE_BUFFER_CAPACITY {
                    (idle_image(), Outcome::Complete { key_id: key, image: s.buffer + payload })
                } else {
                    (idle_image(), Outcome::Unhandled)
                }
            } else {
                (s, Outcome::Unhandled)
            }
        },
    }
}

/// The command bytes of a feature report, after its report id when the
/// host left it in front.
pub open spec fn feature_payload(report_id: u8, d: Seq<u8>) -> Seq<u8> {
    if d.len() > 0 && d[0] == report_id {
        d.skip(1)
    } else {
        d
    }
}

/// The command bytes of a feature report, without an echoed report id.
pub fn strip_report_id(report_id: u8, data: &[u8]) -> (r: &[u8])
    ensures
        r@ == feature_payload(report_id, data@),
{
    let start: usize = if data.len() > 0 && data[0] == report_id { 1 } else { 0 };
    let p = &data[start..data.len()];
    assert(p@ =~= feature_payload(report_id, data@));
    p
}

/// Brightness byte that asks for a reset instead.
pub const BRIGHTNESS_RESET_MAGIC: u8 = 0x3e;

/// V1 "set" commands: report 0x05 with `55 AA D1 01 value` sets the
/// brightness (or resets on the reserved value); report 0x0B with `63`
/// resets and with `A2` and four bytes sets the idle time.
pub open spec fn v1_set_command(report_id: u8, d: Seq<u8>) -> Option<ModuleSetCommand> {
    let p = feature_payload(report_id, d);
    if report_id == 0x05 {
        if p.len() >= 5 && p[0] == 0x55 && p[1] == 0xaa && p[2] == 0xd1 && p[3] == 0x01 {
            if p[4] == BRIGHTNESS_RESET_MAGIC {
                Some(ModuleSetCommand::Reset)
            } else {
                Some(ModuleSetCommand::SetBrightness { value: p[4] })
            }
        } else {
            None
        }
    } else if report_id == 0x0b {
        if p.len() >= 5 && p[0] == 0xa2 {
            Some(ModuleSetCommand::SetIdleTime { seconds: le_i32(p[1], p[2], p[3], p[4]) })
        } else if p.len() >= 1 && p[0] == 0x63 {
            Some(ModuleSetCommand::Reset)
        } else {
            None
        }
    } else {
        None
    }
}

/// Serial number reported by V1 and V2 devices.
pub open spec fn deck_serial() -> Seq<u8> {
    serial_seq()
}

/// Firmware version reported by V1 and V2 devices.
pub open spec fn deck_version() -> Seq<u8> {
    version_seq()
}

/// Bytes of the V1 reply to a feature "get" request, if the id is known.
pub open spec fn v1_feature_response(report_id: u8, idle: i32) -> Option<Seq<u8>> {
    if (0xa0 <= report_id <= 0xa2) || report_id == 0x04 || report_id == 0x05 {
        Some(envelope(seq![report_id, 0x0c, 0x31, 0x33, 0x00], 5, deck_version()))
    } else if report_id == 0x03 {
        Some(envelope(seq![report_id, 0x0c, 0x31, 0x33, 0x00], 5, deck_serial()))
    } else if report_id == 0xa3 {
        Some(envelope(seq![report_id, 0x06] + le_bytes_i32(idle), 6, Seq::empty()))
    } else if report_id == 0x07 {
        Some(seq![report_id] + zeros(15))
    } else {
        None
    }
}

/// V1 input report: report id 1, then one byte per reported key (as many as
/// fit), then zeros to the end of the buffer.
pub open spec fn v1_button_report(m: Seq<bool>, active: int, len: int) -> Seq<u8> {
    let n = min(min(active, len - 1), 32);
    seq![0x01u8] + state_bytes(m, n) + zeros(len - 1 - n)
}

/// The HID report descriptor, byte for byte as the real device sends it.
pub open spec fn v1_descriptor_spec() -> Seq<u8> {
    seq![
        0x05, 0x0c, 0x09, 0x01, 0xa1, 0x01, 0x09, 0x01, 0x05, 0x09, 0x19, 0x01,
        0x29, 0x06, 0x15, 0x00, 0x26, 0xff, 0x00, 0x75, 0x08, 0x95, 0x06, 0x85,
        0x01, 0x81, 0x02, 0x0a, 0x00, 0xff, 0x15, 0x00, 0x26, 0xff, 0x00, 0x75,
        0x08, 0x96, 0xff, 0x03, 0x85, 0x02, 0x91, 0x02, 0x0a, 0x00, 0xff, 0x15,
        0x00, 0x26, 0xff, 0x00, 0x75, 0x08, 0x95, 0x10, 0x85, 0x03, 0xb1, 0x04,
        0x0a, 0x00, 0xff, 0x15, 0x00, 0x26, 0xff, 0x00, 0x75, 0x08, 0x95, 0x10,
        0x85, 0x04, 0xb1, 0x04, 0x0a, 0x00, 0xff, 0x15, 0x00, 0x26, 0xff, 0x00,
        0x75, 0x08, 0x95, 0x10, 0x85, 0x05, 0xb1, 0x04, 0x0a, 0x00, 0xff, 0x15,
        0x00, 0x26, 0xff, 0x00, 0x75, 0x08, 0x95, 0x10, 0x85, 0x07, 0xb1, 0x04,
        0x0a, 0x00, 0xff, 0x15, 0x00, 0x26, 0xff, 0x00, 0x75, 0x08, 0x95, 0x10,
        0x85, 0x0b, 0xb1, 0x04, 0x0a, 0x00, 0xff, 0x15, 0x00, 0x26, 0xff, 0x00,
        0x75, 0x08, 0x95, 0x10, 0x85, 0xa0, 0xb1, 0x04, 0x0a, 0x00, 0xff, 0x15,
        0x00, 0x26, 0xff, 0x00, 0x75, 0x08, 0x95, 0x10, 0x85, 0xa1, 0xb1, 0x04,
        0x0a, 0x00, 0xff, 0x15, 0x00, 0x26, 0xff, 0x00, 0x75, 0x08, 0x95, 0x10,
        0x85, 0xa2, 0xb1, 0x04, 0xc0,
    ]
}

fn v1_descriptor_bytes() -> (r: Vec<u8>)
    ensures
        r@ == v1_descriptor_spec(),
{
    let r = vec![
        0x05, 0x0c, 0x09, 0x01, 0xa1, 0x01, 0x09, 0x01, 0x05, 0x09, 0x19, 0x01,
        0x29, 0x06, 0x15, 0x00, 0x26, 0xff, 0x00, 0x75, 0x08, 0x95, 0x06, 0x85,
        0x01, 0x81, 0x02, 0x0a, 0x00, 0xff, 0x15, 0x00, 0x26, 0xff, 0x00, 0x75,
        0x08, 0x96, 0xff, 0x03, 0x85, 0x02, 0x91, 0x02, 0x0a, 0x00, 0xff, 0x15,
        0x00, 0x26, 0xff, 0x00, 0x75, 0x08, 0x95, 0x10, 0x85, 0x03, 0xb1, 0x04,
        0x0a, 0x00, 0xff, 0x15, 0x00, 0x26, 0xff, 0x00, 0x75, 0x08, 0x95, 0x10,
        0x85, 0x04, 0xb1, 0x04, 0x0a, 0x00, 0xff, 0x15, 0x00, 0x26, 0xff, 0x00,
        0x75, 0x08, 0x95, 0x10, 0x85, 0x05, 0xb1, 0x04, 0x0a, 0x00, 0xff, 0x15,
        0x00, 0x26, 0xff, 0x00, 0x75, 0x08, 0x95, 0x10, 0x85, 0x07, 0xb1, 0x04,
        0x0a, 0x00, 0xff, 0x15, 0x00, 0x26, 0xff, 0x00, 0x75, 0x08, 0x95, 0x10,
        0x85, 0x0b, 0xb1, 0x04, 0x0a, 0x00, 0xff, 0x15, 0x00, 0x26, 0xff, 0x00,
        0x75, 0x08, 0x95, 0x10, 0x85, 0xa0, 0xb1, 0x04, 0x0a, 0x00, 0xff, 0x15,
        0x00, 0x26, 0xff, 0x00, 0x75, 0x08, 0x95, 0x10, 0x85, 0xa1, 0xb1, 0x04,
        0x0a, 0x00, 0xff, 0x15, 0x00, 0x26, 0xff, 0x00, 0x75, 0x08, 0x95, 0x10,
        0x85, 0xa2, 0xb1, 0x04, 0xc0,
    ];
    assert(r@ =~= v1_descriptor_spec());
    r
}


/// Handler for V1 (BMP) devices.
#[derive(Debug)]
pub struct V1Handler {
    image_buffer: ImageBuffer,
    receiving_image: bool,
    expected_key: u8,
    idle_time_seconds: i32,
}

impl V1Handler {
    pub closed spec fn image(&self) -> ImageState {
        ImageState {
            buffer: self.image_buffer@,
            receiving: self.receiving_image,
            key: self.expected_key,
            next: 0,
            total: 0,
        }
    }

    pub closed spec fn idle_time(&self) -> i32 {
        self.idle_time_seconds
    }

    pub open spec fn wf(&self) -> bool {
        self.image().wf()
    }

    pub fn new() -> (r: Self)
        ensures
            r.image() == idle_image(),
            r.idle_time() == 0,
            r.wf(),
    {
        V1Handler {
            image_buffer: ImageBuffer::new(),
            receiving_image: false,
            expected_key: 0,
            idle_time_seconds: 0,
        }
    }

    /// Drops any upload in flight.
    pub fn reset(&mut self)
        ensures
            final(self).image() == idle_image(),
            final(self).idle_time() == old(self).idle_time(),
    {
        self.image_buffer.clear();
        self.receiving_image = false;
        self.expected_key = 0;
    }

    pub fn parse_output_report(&mut self, data: &[u8]) -> (r: OutputReportResult)
        requires
            old(self).wf(),
        ensures
            (final(self).image(), r@) == v1_step(old(self).image(), data@),
            final(self).idle_time() == old(self).idle_time(),
            final(self).wf(),
    {
        if data.len() < 8 {
            return OutputReportResult::Unhandled;
        }
        let (packet_num, key_id, data_start): (u8, u8, usize) = if data[0] == 0x02 {
            (data[2], data[5], 8)
        } else if data[0] == 0x01 {
            (data[1], data[4], 7)
        } else {
            return OutputReportResult::Unhandled;
        };
        let payload = &data[data_start..data.len()];
        assert(payload@ =~= data@.skip(data_start as int));
        if packet_num == 0x01 {
            self.reset();
            if !self.image_buffer.append(payload) {
                self.reset();
                return OutputReportResult::Unhandled;
            }
            self.receiving_image = true;
            self.expected_key = key_id;
            assert(self.image_buffer@ =~= payload@);
            OutputReportResult::Incomplete
        } else if packet_num == 0x02 && self.receiving_image && key_id == self.expected_key {
            if !self.image_buffer.append(payload) {
                self.reset();
                return OutputReportResult::Unhandled;
            }
            let image = self.image_buffer.to_vec();
            self.reset();
            OutputReportResult::KeyImageComplete { key_id, image }
        } else {
            OutputReportResult::Unhandled
        }
    }

    pub fn map_buttons(&self, physical_buttons: &[bool], cols: usize, rows: usize, left_to_right: bool) -> (r: ButtonMapping)
        requires
            cols * rows <= usize::MAX,
        ensures
            r.mapped_buttons@ == mapped_states(physical_buttons@, cols as int, rows as int, left_to_right, 32),
            r.active_count == cols * rows,
    {
        ButtonMapping {
            mapped_buttons: map_grid(physical_buttons, cols, rows, left_to_right, 32),
            active_count: cols * rows,
        }
    }

    pub fn hid_descriptor(&self) -> (r: Vec<u8>)
        ensures
            r@ == v1_descriptor_spec(),
    {
        v1_descriptor_bytes()
    }

    pub fn input_report_size(&self, button_count: usize) -> (r: usize)
        requires
            button_count < usize::MAX,
        ensures
            r == 1 + button_count,
    {
        1 + button_count
    }

    pub fn format_button_report(&self, buttons: &ButtonMapping, report: &mut [u8]) -> (r: usize)
        ensures
            old(report)@.len() == 0 ==> r == 0 && final(report)@ == old(report)@,
            old(report)@.len() > 0 ==> {
                &&& final(report)@ == v1_button_report(buttons.mapped_buttons@, buttons.active_count as int, old(report)@.len() as int)
                &&& r == 1 + min(min(buttons.active_count as int, old(report)@.len() - 1), 32)
            },
    {
        if report.len() == 0 {
            return 0;
        }
        let mut n = if buttons.active_count < report.len() - 1 { buttons.active_count } else { report.len() - 1 };
        if n > 32 {
            n = 32;
        }
        let mut content: Vec<u8> = vec![0x01u8];
        let states = key_state_bytes(&buttons.mapped_buttons, n);
        append_bytes(&mut content, &states);
        let pad = zero_bytes(report.len() - 1 - n);
        append_bytes(&mut content, &pad);
        assert(content@ =~= v1_button_report(buttons.mapped_buttons@, buttons.active_count as int, report@.len() as int));
        write_front(report, &content);
        assert(content@.subrange(0, content@.len() as int) =~= content@);
        assert(final(report)@ =~= content@);
        1 + n
    }

    pub fn handle_feature_report(&mut self, report_id: u8, data: &[u8]) -> (r: Option<ModuleSetCommand>)
        ensures
            r == v1_set_command(report_id, data@),
            final(self).image() == old(self).image(),
            final(self).idle_time() == (match r {
                Some(ModuleSetCommand::SetIdleTime { seconds }) => seconds,
                _ => old(self).idle_time(),
            }),
    {
        let p = strip_report_id(report_id, data);
        if report_id == 0x05 {
            if p.len() >= 5 && p[0] == 0x55 && p[1] == 0xaa && p[2] == 0xd1 && p[3] == 0x01 {
                if p[4] == BRIGHTNESS_RESET_MAGIC {
                    Some(ModuleSetCommand::Reset)
                } else {
                    Some(ModuleSetCommand::SetBrightness { value: p[4] })
                }
            } else {
                None
            }
        } else if report_id == 0x0b {
            if p.len() >= 5 && p[0] == 0xa2 {
                let seconds = i32_from_le(p[1], p[2], p[3], p[4]);
                self.idle_time_seconds = seconds;
                Some(ModuleSetCommand::SetIdleTime { seconds })
            } else if p.len() >= 1 && p[0] == 0x63 {
                Some(ModuleSetCommand::Reset)
            } else {
                None
            }
        } else {
            None
        }
    }

    pub fn get_feature_report(&mut self, report_id: u8, buf: &mut [u8]) -> (r: Option<usize>)
        ensures
            *final(self) == *old(self),
            match v1_feature_response(report_id, old(self).idle_time()) {
                Some(content) => {
                    let n = min(content.len() as int, old(buf)@.len() as int);
                    &&& r == Some(n as usize)
                    &&& final(buf)@ == content.subrange(0, n) + old(buf)@.skip(n)
                },
                None => r is None && final(buf)@ == old(buf)@,
            },
    {
        let content: Vec<u8> = if (0xa0 <= report_id && report_id <= 0xa2) || report_id == 0x04
            || report_id == 0x05 {
            make_envelope(vec![report_id, 0x0c, 0x31, 0x33, 0x00].as_slice(), 5, version_bytes().as_slice())
        } else if report_id == 0x03 {
            make_envelope(vec![report_id, 0x0c, 0x31, 0x33, 0x00].as_slice(), 5, serial_bytes().as_slice())
        } else if report_id == 0xa3 {
            let mut head: Vec<u8> = vec![report_id, 0x06];
            let le = i32_to_le(self.idle_time_seconds);
            append_bytes(&mut head, &le);
            let empty: Vec<u8> = Vec::new();
            make_envelope(head.as_slice(), 6, empty.as_slice())
        } else if report_id == 0x07 {
            let mut c: Vec<u8> = vec![report_id];
            let z = zero_bytes(15);
            append_bytes(&mut c, &z);
            c
        } else {
            return None;
        };
        let n = write_front(buf, &content);
        Some(n)
    }
}

/// Serial number bytes, "PRODUCTIONDK".
pub open spec fn serial_seq() -> Seq<u8> {
    seq![0x50u8, 0x52, 0x4f, 0x44, 0x55, 0x43, 0x54, 0x49, 0x4f, 0x4e, 0x44, 0x4b]
}

/// Firmware version bytes, "3.00.000".
pub open spec fn version_seq() -> Seq<u8> {
    seq![0x33u8, 0x2e, 0x30, 0x30, 0x2e, 0x30, 0x30, 0x30]
}

pub fn serial_bytes() -> (r: Vec<u8>)
    ensures
        r@ == deck_serial(),
{
    let r = vec![0x50u8, 0x52, 0x4f, 0x44, 0x55, 0x43, 0x54, 0x49, 0x4f, 0x4e, 0x44, 0x4b];
    assert(r@ =~= deck_serial());
    r
}

pub fn version_bytes() -> (r: Vec<u8>)
    ensures
        r@ == deck_version(),
{
    let r = vec![0x33u8, 0x2e, 0x30, 0x30, 0x2e, 0x30, 0x30, 0x30];
    assert(r@ =~= deck_version());
    r
}

} // verus!
