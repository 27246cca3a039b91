//! V2 protocol (JPEG devices): sequenced multi-packet image uploads,
//! command-byte feature reports and a three-byte input report header.

use vstd::prelude::*;
use vstd::math::min;
use crate::buffer::{ImageBuffer, IMAGE_BUFFER_CAPACITY};
use crate::command::{ModuleSetCommand, le_bytes_i32, i32_to_le, le_u16, u16_from_le};
use crate::report::{
    ButtonMapping, ImageState, Outcome, OutputReportResult, append_bytes, envelope, idle_image,
    key_state_bytes, make_envelope, map_grid, mapped_states, state_bytes, write_front, zero_bytes,
    zeros,
};
use crate::v1::{
    deck_serial, deck_version, feature_payload, serial_bytes, strip_report_id, version_bytes,
};

verus! {

/// Key id, last-packet flag, payload length, sequence number and payload
/// start of a V2 image packet; the report id byte `0x02` may have been
/// stripped by the host.
pub open spec fn v2_header(d: Seq<u8>) -> Option<(u8, bool, u16, u16, int)> {
    if d.len() < 8 {
        None
    } else if d[0] == 0x02 && d[1] == 0x07 {
        Some((d[2], d[3] != 0, le_u16(d[4], d[5]), le_u16(d[6], d[7]), 8))
    } else if d[0] == 0x07 {
        Some((d[1], d[2] != 0, le_u16(d[3], d[4]), le_u16(d[5], d[6]), 7))
    } else {
        None
    }
}

/// One step of V2 reassembly. Sequence 0 starts an upload for its key;
/// every later packet must carry the same key and exactly the next
/// sequence number, else the state resets and the packet is dropped. The
/// payload is the declared length, cut to what the packet holds; the packet
/// flagged last completes the image.
pub open spec fn v2_step(s: ImageState, d: Seq<u8>) -> (ImageState, Outcome) {
    match v2_header(d) {
        None => (s, Outcome::Unhandled),
        Some((key, last, len, seq, start)) => {
            let s1 = if seq == 0 {
                ImageState { buffer: Seq::empty(), receiving: true, key, next: 0, total: 0 }
            } else {
                s
            };
            if !s1.receiving || key != s1.key || seq != s1.next {
                (idle_image(), Outcome::Unhandled)
            } else {
                let n = min(len as int, d.len() - start);
                let payload = d.subrange(start, start + n);
                if s1.buffer.len() + n > IMAGE_BUFFER_CAPACITY {
                    (idle_image(), Outcome::Unhandled)
                } else if last {
                    (idle_image(), Outcome::Complete { key_id: key, image: s1.buffer + payload })
                } else {
                    (
                        ImageState {
                            buffer: s1.buffer + payload,
                            receiving: true,
                            key,
                            next: (seq + 1) % 0x10000,
                            total: 0,
                        },
                        Outcome::Incomplete,
                    )
                }
            }
        },
    }
}

/// V2 "set" commands, carried in report 0x03 (the host may echo the report
/// id in front): command `02` resets, command `08` with a value sets the
/// brightness.
pub open spec fn v2_set_command(report_id: u8, d: Seq<u8>) -> Option<ModuleSetCommand> {
    let p = feature_payload(report_id, d);
    if report_id == 0x03 && p.len() >= 1 {
        if p[0] == 0x02 {
            Some(ModuleSetCommand::Reset)
        } else if p[0] == 0x08 && p.len() >= 2 {
            Some(ModuleSetCommand::SetBrightness { value: p[1] })
        } else {
            None
        }
    } else {
        None
    }
}

/// Bytes of the V2 reply to a feature "get" request, if the id is known.
pub open spec fn v2_feature_response(report_id: u8, idle: i32) -> Option<Seq<u8>> {
    if 0xa0 <= report_id <= 0xa2 {
        Some(envelope(seq![report_id, 0x0c, 0x31, 0x33, 0x00], 5, deck_version()))
    } else if report_id == 0x03 {
        Some(envelope(seq![report_id, 0x0c, 0x31, 0x33, 0x00], 5, deck_serial()))
    } else if report_id == 0xa3 {
        Some(envelope(seq![report_id, 0x06] + le_bytes_i32(idle), 6, Seq::empty()))
    } else {
        None
    }
}

/// V2 input report: three zero header bytes, one byte per reported key (as
/// many as fit), then zeros to the end of the buffer.
pub open spec fn v2_button_report(m: Seq<bool>, active: int, len: int) -> Seq<u8> {
    let n = min(min(active, len - 3), 32);
    seq![0x00u8, 0x00, 0x00] + state_bytes(m, n) + zeros(len - 3 - n)
}

/// The HID report descriptor, byte for byte as the real device sends it.
pub open spec fn v2_descriptor_spec() -> Seq<u8> {
    seq![
        0x05, 0x0c, 0x09, 0x01, 0xa1, 0x01, 0x09, 0x01, 0x05, 0x09, 0x19, 0x01,
        0x29, 0x20, 0x15, 0x00, 0x26, 0xff, 0x00, 0x75, 0x08, 0x95, 0x20, 0x85,
        0x01, 0x81, 0x02, 0x0a, 0x00, 0xff, 0x15, 0x00, 0x26, 0xff, 0x00, 0x75,
        0x08, 0x96, 0x00, 0x04, 0x85, 0x02, 0x91, 0x02, 0x0a, 0x00, 0xff, 0x15,
        0x00, 0x26, 0xff, 0x00, 0x75, 0x08, 0x95, 0x20, 0x85, 0x03, 0xb1, 0x04,
        0x0a, 0x00, 0xff, 0x15, 0x00, 0x26, 0xff, 0x00, 0x75, 0x08, 0x95, 0x20,
        0x85, 0x04, 0xb1, 0x04, 0x0a, 0x00, 0xff, 0x15, 0x00, 0x26, 0xff, 0x00,
        0x75, 0x08, 0x95, 0x20, 0x85, 0x05, 0xb1, 0x04, 0xc0,
    ]
}

fn v2_descriptor_bytes() -> (r: Vec<u8>)
    ensures
        r@ == v2_descriptor_spec(),
{
    let r = vec![
        0x05, 0x0c, 0x09, 0x01, 0xa1, 0x01, 0x09, 0x01, 0x05, 0x09, 0x19, 0x01,
        0x29, 0x20, 0x15, 0x00, 0x26, 0xff, 0x00, 0x75, 0x08, 0x95, 0x20, 0x85,
        0x01, 0x81, 0x02, 0x0a, 0x00, 0xff, 0x15, 0x00, 0x26, 0xff, 0x00, 0x75,
        0x08, 0x96, 0x00, 0x04, 0x85, 0x02, 0x91, 0x02, 0x0a, 0x00, 0xff, 0x15,
        0x00, 0x26, 0xff, 0x00, 0x75, 0x08, 0x95, 0x20, 0x85, 0x03, 0xb1, 0x04,
        0x0a, 0x00, 0xff, 0x15, 0x00, 0x26, 0xff, 0x00, 0x75, 0x08, 0x95, 0x20,
        0x85, 0x04, 0xb1, 0x04, 0x0a, 0x00, 0xff, 0x15, 0x00, 0x26, 0xff, 0x00,
        0x75, 0x08, 0x95, 0x20, 0x85, 0x05, 0xb1, 0x04, 0xc0,
    ];
    assert(r@ =~= v2_descriptor_spec());
    r
}


/// Handler for V2 (JPEG) devices.
#[derive(Debug)]
pub struct V2Handler {
    image_buffer: ImageBuffer,
    receiving_image: bool,
    expected_key: u8,
    expected_sequence: u16,
    idle_time_seconds: i32,
}

impl V2Handler {
    pub closed spec fn image(&self) -> ImageState {
        ImageState {
            buffer: self.image_buffer@,
            receiving: self.receiving_image,
            key: self.expected_key,
            next: self.expected_sequence as int,
            total: 0,
        }
    }

    pub closed spec fn idle_time(&self) -> i32 {
        self.idle_time_seconds
    }

    pub open spec fn wf(&self) -> bool {
        self.image().wf()
    }

    pub fn new() -> (r: Self)
        ensures
            r.image() == idle_image(),
            r.idle_time() == 0,
            r.wf(),
    {
        V2Handler {
            image_buffer: ImageBuffer::new(),
            receiving_image: false,
            expected_key: 0,
            expected_sequence: 0,
            idle_time_seconds: 0,
        }
    }

    /// Drops any upload in flight.
    pub fn reset(&mut self)
        ensures
            final(self).image() == idle_image(),
            final(self).idle_time() == old(self).idle_time(),
    {
        self.image_buffer.clear();
        self.receiving_image = false;
        self.expected_key = 0;
        self.expected_sequence = 0;
    }

    pub fn parse_output_report(&mut self, data: &[u8]) -> (r: OutputReportResult)
        requires
            old(self).wf(),
        ensures
            (final(self).image(), r@) == v2_step(old(self).image(), data@),
            final(self).idle_time() == old(self).idle_time(),
            final(self).wf(),
    {
        if data.len() < 8 {
            return OutputReportResult::Unhandled;
        }
        let (key_id, is_last, payload_len, sequence, data_start): (u8, bool, u16, u16, usize) =
            if data[0] == 0x02 && data[1] == 0x07 {
            (
                data[2],
                data[3] != 0,
                u16_from_le(data[4], data[5]),
                u16_from_le(data[6], data[7]),
                8,
            )
        } else if data[0] == 0x07 {
            (
                data[1],
                data[2] != 0,
                u16_from_le(data[3], data[4]),
                u16_from_le(data[5], data[6]),
                7,
            )
        } else {
            return OutputReportResult::Unhandled;
        };
        if sequence == 0 {
            self.reset();
            self.receiving_image = true;
            self.expected_key = key_id;
        }
        if !self.receiving_image || key_id != self.expected_key || sequence
            != self.expected_sequence {
            self.reset();
            return OutputReportResult::Unhandled;
        }
        let avail = data.len() - data_start;
        let copy_len: usize = if (payload_len as usize) < avail {
            payload_len as usize
        } else {
            avail
        };
        let payload = &data[data_start..data_start + copy_len];
        if !self.image_buffer.append(payload) {
            self.reset();
            return OutputReportResult::Unhandled;
        }
        if is_last {
            let image = self.image_buffer.to_vec();
            self.reset();
            OutputReportResult::KeyImageComplete { key_id, image }
        } else {
            self.expected_sequence = if sequence == 0xffff {
                0
            } else {
                sequence + 1
            };
            OutputReportResult::Incomplete
        }
    }

    pub fn map_buttons(&self, physical_buttons: &[bool], cols: usize, rows: usize, left_to_right: bool) -> (r: ButtonMapping)
        requires
            cols * rows <= usize::MAX,
        ensures
            r.mapped_buttons@ == mapped_states(physical_buttons@, cols as int, rows as int, left_to_right, 32),
            r.active_count == cols * rows,
    {
        ButtonMapping {
            mapped_buttons: map_grid(physical_buttons, cols, rows, left_to_right, 32),
            active_count: cols * rows,
        }
    }

    pub fn hid_descriptor(&self) -> (r: Vec<u8>)
        ensures
            r@ == v2_descriptor_spec(),
    {
        v2_descriptor_bytes()
    }

    pub fn input_report_size(&self, button_count: usize) -> (r: usize)
        requires
            button_count <= usize::MAX - 3,
        ensures
            r == 3 + button_count,
    {
        3 + button_count
    }

    pub fn format_button_report(&self, buttons: &ButtonMapping, report: &mut [u8]) -> (r: usize)
        ensures
            old(report)@.len() < 4 ==> r == 0 && final(report)@ == old(report)@,
            old(report)@.len() >= 4 ==> {
                &&& final(report)@ == v2_button_report(buttons.mapped_buttons@, buttons.active_count as int, old(report)@.len() as int)
                &&& r == 3 + min(min(buttons.active_count as int, old(report)@.len() - 3), 32)
            },
    {
        if report.len() < 4 {
            return 0;
        }
        let mut n = if buttons.active_count < report.len() - 3 { buttons.active_count } else { report.len() - 3 };
        if n > 32 {
            n = 32;
        }
        let mut content: Vec<u8> = vec![0x00u8, 0x00, 0x00];
        let states = key_state_bytes(&buttons.mapped_buttons, n);
        append_bytes(&mut content, &states);
        let pad = zero_bytes(report.len() - 3 - n);
        append_bytes(&mut content, &pad);
        assert(content@ =~= v2_button_report(buttons.mapped_buttons@, buttons.active_count as int, report@.len() as int));
        write_front(report, &content);
        assert(content@.subrange(0, content@.len() as int) =~= content@);
        assert(final(report)@ =~= content@);
        3 + n
    }

    pub fn handle_feature_report(&mut self, report_id: u8, data: &[u8]) -> (r: Option<ModuleSetCommand>)
        ensures
            r == v2_set_command(report_id, data@),
            *final(self) == *old(self),
    {
        let p = strip_report_id(report_id, data);
        if report_id == 0x03 && p.len() >= 1 {
            if p[0] == 0x02 {
                Some(ModuleSetCommand::Reset)
            } else if p[0] == 0x08 && p.len() >= 2 {
                Some(ModuleSetCommand::SetBrightness { value: p[1] })
            } else {
                None
            }
        } else {
            None
        }
    }

    pub fn get_feature_report(&mut self, report_id: u8, buf: &mut [u8]) -> (r: Option<usize>)
        ensures
            *final(self) == *old(self),
            match v2_feature_response(report_id, old(self).idle_time()) {
                Some(content) => {
                    let n = min(content.len() as int, old(buf)@.len() as int);
                    &&& r == Some(n as usize)
                    &&& final(buf)@ == content.subrange(0, n) + old(buf)@.skip(n)
                },
                None => r is None && final(buf)@ == old(buf)@,
            },
    {
        let content: Vec<u8> = if 0xa0 <= report_id && report_id <= 0xa2 {
            make_envelope(vec![report_id, 0x0c, 0x31, 0x33, 0x00].as_slice(), 5, version_bytes().as_slice())
        } else if report_id == 0x03 {
            make_envelope(vec![report_id, 0x0c, 0x31, 0x33, 0x00].as_slice(), 5, serial_bytes().as_slice())
        } else if report_id == 0xa3 {
            let mut head: Vec<u8> = vec![report_id, 0x06];
            let le = i32_to_le(self.idle_time_seconds);
            append_bytes(&mut head, &le);
            let empty: Vec<u8> = Vec::new();
            make_envelope(head.as_slice(), 6, empty.as_slice())
        } else {
            return None;
        };
        let n = write_front(buf, &content);
        Some(n)
    }
}

} // verus!
