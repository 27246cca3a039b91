//! The protocol dispatcher: one handler per connection, chosen by protocol
//! family, with every call forwarded to the family's own handler.

use vstd::prelude::*;
use vstd::math::min;
use crate::command::ModuleSetCommand;
use crate::device::ProtocolVersion;
use crate::module15_32::{
    Module15_32KeysHandler, ModuleModel, key_limit, m15_button_report, m15_descriptor_spec,
    m15_feature_response, m15_set_command,
};
use crate::module6::{
    Module6KeysHandler, m6_button_report, m6_descriptor_spec, m6_feature_response, m6_set_command,
    m6_step,
};
use crate::report::{
    ButtonMapping, ENVELOPE_LEN, ImageState, Outcome, OutputReportResult, idle_image,
    mapped_states, zeros,
};
use crate::v1::{
    V1Handler, v1_button_report, v1_descriptor_spec, v1_feature_response, v1_set_command, v1_step,
};
use crate::v2::{
    V2Handler, v2_button_report, v2_descriptor_spec, v2_feature_response, v2_set_command, v2_step,
};

verus! {

/// Abstract state of a handler: its family, its reassembly state where the
/// family has one, and the idle time last set by the host.
pub ghost enum HandlerView {
    V1 { image: ImageState, idle: i32 },
    V2 { image: ImageState, idle: i32 },
    Module6Keys { image: ImageState, idle: i32 },
    Module15_32Keys { model: ModuleModel, idle: i32 },
}

pub open spec fn view_version(v: HandlerView) -> ProtocolVersion {
    match v {
        HandlerView::V1 { .. } => ProtocolVersion::V1,
        HandlerView::V2 { .. } => ProtocolVersion::V2,
        HandlerView::Module6Keys { .. } => ProtocolVersion::Module6Keys,
        HandlerView::Module15_32Keys { .. } => ProtocolVersion::Module15_32Keys,
    }
}

/// State of a freshly created handler.
pub open spec fn initial_view(p: ProtocolVersion) -> HandlerView {
    match p {
        ProtocolVersion::V1 => HandlerView::V1 { image: idle_image(), idle: 0 },
        ProtocolVersion::V2 => HandlerView::V2 { image: idle_image(), idle: 0 },
        ProtocolVersion::Module6Keys => HandlerView::Module6Keys { image: idle_image(), idle: 0 },
        ProtocolVersion::Module15_32Keys => HandlerView::Module15_32Keys {
            model: ModuleModel::Module15,
            idle: 0,
        },
    }
}

/// The state after dropping any upload in flight.
pub open spec fn reset_view(v: HandlerView) -> HandlerView {
    match v {
        HandlerView::V1 { idle, .. } => HandlerView::V1 { image: idle_image(), idle },
        HandlerView::V2 { idle, .. } => HandlerView::V2 { image: idle_image(), idle },
        HandlerView::Module6Keys { idle, .. } => HandlerView::Module6Keys { image: idle_image(), idle },
        HandlerView::Module15_32Keys { .. } => v,
    }
}

/// One output report handled by the family's reassembly state machine.
pub open spec fn output_step(v: HandlerView, d: Seq<u8>) -> (HandlerView, Outcome) {
    match v {
        HandlerView::V1 { image, idle } => {
            let (s, o) = v1_step(image, d);
            (HandlerView::V1 { image: s, idle }, o)
        },
        HandlerView::V2 { image, idle } => {
            let (s, o) = v2_step(image, d);
            (HandlerView::V2 { image: s, idle }, o)
        },
        HandlerView::Module6Keys { image, idle } => {
            let (s, o) = m6_step(image, d);
            (HandlerView::Module6Keys { image: s, idle }, o)
        },
        HandlerView::Module15_32Keys { .. } => (v, Outcome::Unhandled),
    }
}

/// Highest logical index a family reports, and the active count it puts in
/// a mapping of a grid of `total` keys.
pub open spec fn mapping_limit(v: HandlerView) -> int {
    match v {
        HandlerView::Module15_32Keys { model, .. } => key_limit(model),
        _ => 32,
    }
}

pub open spec fn mapping_active_count(v: HandlerView, total: int) -> int {
    match v {
        HandlerView::V1 { .. } => total,
        HandlerView::V2 { .. } => total,
        HandlerView::Module6Keys { .. } => 6,
        HandlerView::Module15_32Keys { model, .. } => key_limit(model),
    }
}

pub open spec fn descriptor_for(p: ProtocolVersion) -> Seq<u8> {
    match p {
        ProtocolVersion::V1 => v1_descriptor_spec(),
        ProtocolVersion::V2 => v2_descriptor_spec(),
        ProtocolVersion::Module6Keys => m6_descriptor_spec(),
        ProtocolVersion::Module15_32Keys => m15_descriptor_spec(),
    }
}

pub open spec fn input_size_for(p: ProtocolVersion, button_count: int) -> int {
    match p {
        ProtocolVersion::V1 => 1 + button_count,
        ProtocolVersion::V2 => 3 + button_count,
        ProtocolVersion::Module6Keys => 65,
        ProtocolVersion::Module15_32Keys => 512,
    }
}

/// Bytes written by `format_button_report`, and the new buffer contents.
pub open spec fn formatted(v: HandlerView, m: Seq<bool>, active: int, old: Seq<u8>) -> (int, Seq<u8>) {
    let len = old.len() as int;
    match v {
        HandlerView::V1 { .. } => if len == 0 {
            (0, old)
        } else {
            (1 + min(min(active, len - 1), 32), v1_button_report(m, active, len))
        },
        HandlerView::V2 { .. } => if len < 4 {
            (0, old)
        } else {
            (3 + min(min(active, len - 3), 32), v2_button_report(m, active, len))
        },
        HandlerView::Module6Keys { .. } => if len < 64 {
            (0, old)
        } else {
            (64, m6_button_report(m) + old.skip(64))
        },
        HandlerView::Module15_32Keys { model, .. } => {
            let keys = key_limit(model);
            if len < 4 + keys {
                (0, old)
            } else {
                (4 + keys, m15_button_report(m, keys) + old.skip(4 + keys))
            }
        },
    }
}

pub open spec fn set_command_for(v: HandlerView, report_id: u8, d: Seq<u8>) -> Option<ModuleSetCommand> {
    match v {
        HandlerView::V1 { .. } => v1_set_command(report_id, d),
        HandlerView::V2 { .. } => v2_set_command(report_id, d),
        HandlerView::Module6Keys { .. } => m6_set_command(report_id, d),
        HandlerView::Module15_32Keys { .. } => m15_set_command(report_id, d),
    }
}

/// The state after a decoded "set" command: V1 and the six-key module keep
/// the idle time that the host sets.
pub open spec fn after_set(v: HandlerView, c: Option<ModuleSetCommand>) -> HandlerView {
    match (v, c) {
        (HandlerView::V1 { image, .. }, Some(ModuleSetCommand::SetIdleTime { seconds })) =>
            HandlerView::V1 { image, idle: seconds },
        (
            HandlerView::Module6Keys { image, .. },
            Some(ModuleSetCommand::SetIdleTime { seconds }),
        ) => HandlerView::Module6Keys { image, idle: seconds },
        _ => v,
    }
}

/// Return value of `get_feature_report` and the new buffer contents.
pub open spec fn feature_reply(v: HandlerView, report_id: u8, old: Seq<u8>) -> (Option<usize>, Seq<u8>) {
    let n = min(ENVELOPE_LEN as int, old.len() as int);
    match v {
        HandlerView::V1 { idle, .. } => match v1_feature_response(report_id, idle) {
            Some(c) => {
                let k = min(c.len() as int, old.len() as int);
                (Some(k as usize), c.subrange(0, k) + old.skip(k))
            },
            None => (None, old),
        },
        HandlerView::V2 { idle, .. } => match v2_feature_response(report_id, idle) {
            Some(c) => {
                let k = min(c.len() as int, old.len() as int);
                (Some(k as usize), c.subrange(0, k) + old.skip(k))
            },
            None => (None, old),
        },
        HandlerView::Module6Keys { idle, .. } => match m6_feature_response(report_id, idle) {
            Some(c) => (Some(n as usize), c.subrange(0, n) + old.skip(n)),
            None => (None, zeros(n) + old.skip(n)),
        },
        HandlerView::Module15_32Keys { idle, .. } => match m15_feature_response(report_id, idle) {
            Some(c) => (Some(n as usize), c.subrange(0, n) + old.skip(n)),
            None => (None, zeros(n) + old.skip(n)),
        },
    }
}

/// The handler of one USB connection.
#[derive(Debug)]
pub enum ProtocolHandler {
    V1(V1Handler),
    V2(V2Handler),
    Module6Keys(Module6KeysHandler),
    Module15_32Keys(Module15_32KeysHandler),
}

impl View for ProtocolHandler {
    type V = HandlerView;

    open spec fn view(&self) -> HandlerView {
        match self {
            ProtocolHandler::V1(h) => HandlerView::V1 { image: h.image(), idle: h.idle_time() },
            ProtocolHandler::V2(h) => HandlerView::V2 { image: h.image(), idle: h.idle_time() },
            ProtocolHandler::Module6Keys(h) => HandlerView::Module6Keys {
                image: h.image(),
                idle: h.idle_time(),
            },
            ProtocolHandler::Module15_32Keys(h) => HandlerView::Module15_32Keys {
                model: h.model(),
                idle: h.idle_time(),
            },
        }
    }
}

impl ProtocolHandler {
    pub open spec fn wf(&self) -> bool {
        match self {
            ProtocolHandler::V1(h) => h.wf(),
            ProtocolHandler::V2(h) => h.wf(),
            ProtocolHandler::Module6Keys(h) => h.wf(),
            ProtocolHandler::Module15_32Keys(_) => true,
        }
    }

    pub fn create(version: ProtocolVersion) -> (r: Self)
        ensures
            r@ == initial_view(version),
            r.wf(),
    {
        match version {
            ProtocolVersion::V1 => ProtocolHandler::V1(V1Handler::new()),
            ProtocolVersion::V2 => ProtocolHandler::V2(V2Handler::new()),
            ProtocolVersion::Module6Keys => ProtocolHandler::Module6Keys(Module6KeysHandler::new()),
            ProtocolVersion::Module15_32Keys => ProtocolHandler::Module15_32Keys(
                Module15_32KeysHandler::new(),
            ),
        }
    }

    pub fn version(&self) -> (r: ProtocolVersion)
        ensures
            r == view_version(self@),
    {
        match self {
            ProtocolHandler::V1(_) => ProtocolVersion::V1,
            ProtocolHandler::V2(_) => ProtocolVersion::V2,
            ProtocolHandler::Module6Keys(_) => ProtocolVersion::Module6Keys,
            ProtocolHandler::Module15_32Keys(_) => ProtocolVersion::Module15_32Keys,
        }
    }

    /// Drops any image upload in flight.
    pub fn reset(&mut self)
        requires
            old(self).wf(),
        ensures
            final(self)@ == reset_view(old(self)@),
            final(self).wf(),
    {
        match self {
            ProtocolHandler::V1(h) => h.reset(),
            ProtocolHandler::V2(h) => h.reset(),
            ProtocolHandler::Module6Keys(h) => h.reset(),
            ProtocolHandler::Module15_32Keys(_) => {},
        }
    }

    /// Feeds one output report to the image-reassembly state machine.
    pub fn parse_output_report(&mut self, data: &[u8]) -> (r: OutputReportResult)
        requires
            old(self).wf(),
        ensures
            (final(self)@, r@) == output_step(old(self)@, data@),
            final(self).wf(),
    {
        match self {
            ProtocolHandler::V1(h) => h.parse_output_report(data),
            ProtocolHandler::V2(h) => h.parse_output_report(data),
            ProtocolHandler::Module6Keys(h) => h.parse_output_report(data),
            ProtocolHandler::Module15_32Keys(h) => h.parse_output_report(data),
        }
    }

    /// Orders physical key states as the protocol reports them.
    pub fn map_buttons(&self, physical_buttons: &[bool], cols: usize, rows: usize, left_to_right: bool) -> (r: ButtonMapping)
        requires
            cols * rows <= usize::MAX,
        ensures
            r.mapped_buttons@ == mapped_states(
                physical_buttons@,
                cols as int,
                rows as int,
                left_to_right,
                mapping_limit(self@),
            ),
            r.active_count == mapping_active_count(self@, cols * rows),
    {
        match self {
            ProtocolHandler::V1(h) => h.map_buttons(physical_buttons, cols, rows, left_to_right),
            ProtocolHandler::V2(h) => h.map_buttons(physical_buttons, cols, rows, left_to_right),
            ProtocolHandler::Module6Keys(h) => h.map_buttons(physical_buttons, cols, rows, left_to_right),
            ProtocolHandler::Module15_32Keys(h) => h.map_buttons(physical_buttons, cols, rows, left_to_right),
        }
    }

    pub fn hid_descriptor(&self) -> (r: Vec<u8>)
        ensures
            r@ == descriptor_for(view_version(self@)),
    {
        match self {
            ProtocolHandler::V1(h) => h.hid_descriptor(),
            ProtocolHandler::V2(h) => h.hid_descriptor(),
            ProtocolHandler::Module6Keys(h) => h.hid_descriptor(),
            ProtocolHandler::Module15_32Keys(h) => h.hid_descriptor(),
        }
    }

    pub fn input_report_size(&self, button_count: usize) -> (r: usize)
        requires
            button_count <= usize::MAX - 3,
        ensures
            r == input_size_for(view_version(self@), button_count as int),
    {
        match self {
            ProtocolHandler::V1(h) => h.input_report_size(button_count),
            ProtocolHandler::V2(h) => h.input_report_size(button_count),
            ProtocolHandler::Module6Keys(h) => h.input_report_size(button_count),
            ProtocolHandler::Module15_32Keys(h) => h.input_report_size(button_count),
        }
    }

    /// Writes the input report for `buttons` to the front of `report`;
    /// returns its length, or 0 when `report` is too short.
    pub fn format_button_report(&self, buttons: &ButtonMapping, report: &mut [u8]) -> (r: usize)
        ensures
            (r as int, final(report)@) == formatted(
                self@,
                buttons.mapped_buttons@,
                buttons.active_count as int,
                old(report)@,
            ),
    {
        match self {
            ProtocolHandler::V1(h) => h.format_button_report(buttons, report),
            ProtocolHandler::V2(h) => h.format_button_report(buttons, report),
            ProtocolHandler::Module6Keys(h) => h.format_button_report(buttons, report),
            ProtocolHandler::Module15_32Keys(h) => h.format_button_report(buttons, report),
        }
    }

    /// Decodes a feature "set" report.
    pub fn handle_feature_report(&mut self, report_id: u8, data: &[u8]) -> (r: Option<ModuleSetCommand>)
        requires
            old(self).wf(),
        ensures
            r == set_command_for(old(self)@, report_id, data@),
            final(self)@ == after_set(old(self)@, r),
            final(self).wf(),
    {
        match self {
            ProtocolHandler::V1(h) => h.handle_feature_report(report_id, data),
            ProtocolHandler::V2(h) => h.handle_feature_report(report_id, data),
            ProtocolHandler::Module6Keys(h) => h.handle_feature_report(report_id, data),
            ProtocolHandler::Module15_32Keys(h) => h.handle_feature_report(report_id, data),
        }
    }

    /// Builds the reply to a feature "get" request in `buf`.
    pub fn get_feature_report(&mut self, report_id: u8, buf: &mut [u8]) -> (r: Option<usize>)
        requires
            old(self).wf(),
        ensures
            (r, final(buf)@) == feature_reply(old(self)@, report_id, old(buf)@),
            final(self)@ == old(self)@,
            final(self).wf(),
    {
        match self {
            ProtocolHandler::V1(h) => h.get_feature_report(report_id, buf),
            ProtocolHandler::V2(h) => h.get_feature_report(report_id, buf),
            ProtocolHandler::Module6Keys(h) => h.get_feature_report(report_id, buf),
            ProtocolHandler::Module15_32Keys(h) => h.get_feature_report(report_id, buf),
        }
    }
}

} // verus!
