//! Values passed between the scanning, protocol and display parts.

use vstd::prelude::*;
use crate::command::ModuleSetCommand;
use crate::report::OutputReportResult;

verus! {

/// Debounced state of every key.
#[derive(Clone, Copy, Debug)]
pub struct ButtonState {
    pub buttons: [bool; 32],
    pub changed: bool,
    pub active_count: usize,
}

impl ButtonState {
    /// All keys released, nothing changed, `active_count` capped at 32.
    pub fn new(active_count: usize) -> (r: Self)
        ensures
            forall|i: int| 0 <= i < 32 ==> !r.buttons@[i],
            !r.changed,
            r.active_count == if active_count < 32 { active_count } else { 32 },
    {
        ButtonState {
            buttons: [false; 32],
            changed: false,
            active_count: if active_count < 32 {
                active_count
            } else {
                32
            },
        }
    }

    /// Whether an active key is pressed; keys past the active count read
    /// as released.
    pub fn is_pressed(&self, button_index: usize) -> (r: bool)
        ensures
            r == (button_index < self.active_count && button_index < 32
                && self.buttons@[button_index as int]),
    {
        if button_index < self.active_count && button_index < 32 {
            self.buttons[button_index]
        } else {
            false
        }
    }

    /// Records the state of an active key and marks the state changed when
    /// it differs; keys past the active count are ignored.
    pub fn set_button(&mut self, button_index: usize, pressed: bool)
        ensures
            ({
                let moved = button_index < old(self).active_count && button_index < 32
                    && old(self).buttons@[button_index as int] != pressed;
                &&& final(self).active_count == old(self).active_count
                &&& final(self).buttons@ == if moved {
                    old(self).buttons@.update(button_index as int, pressed)
                } else {
                    old(self).buttons@
                }
                &&& final(self).changed == (old(self).changed || moved)
            }),
    {
        if button_index < self.active_count && button_index < 32 && self.buttons[button_index]
            != pressed {
            self.buttons[button_index] = pressed;
            self.changed = true;
        }
    }
}

/// Version of this firmware.
pub struct AppVersion {
    pub major: u8,
    pub minor: u8,
    pub patch: u8,
}

impl AppVersion {
    pub fn new(major: u8, minor: u8, patch: u8) -> (r: Self)
        ensures
            r.major == major,
            r.minor == minor,
            r.patch == patch,
    {
        AppVersion { major, minor, patch }
    }

    /// The released version string.
    pub fn as_string(&self) -> (r: &'static str)
        ensures
            r@ == "0.1.0"@,
    {
        "0.1.0"
    }
}

/// Commands the USB side hands on for execution.
#[derive(Debug)]
pub enum UsbCommand {
    Reset,
    SetBrightness(u8),
    ImageData { key_id: u8, data: Vec<u8> },
}

/// Commands the display side executes.
#[derive(Debug)]
pub enum DisplayCommand {
    Clear(u8),
    ClearAll,
    SetBrightness(u8),
    DisplayImage { key_id: u8, data: Vec<u8> },
}

/// What a decoded "set" command asks of the rest of the firmware: resets
/// and brightness changes are passed on, the rest stays with the handler.
pub fn usb_command_for(cmd: ModuleSetCommand) -> (r: Option<UsbCommand>)
    ensures
        match cmd {
            ModuleSetCommand::Reset => r matches Some(UsbCommand::Reset),
            ModuleSetCommand::SetBrightness { value } => r matches Some(UsbCommand::SetBrightness(v)) && v == value,
            _ => r is None,
        },
{
    match cmd {
        ModuleSetCommand::Reset => Some(UsbCommand::Reset),
        ModuleSetCommand::SetBrightness { value } => Some(UsbCommand::SetBrightness(value)),
        _ => None,
    }
}

/// A completed key image becomes an image command; nothing else does.
pub fn image_command(result: OutputReportResult) -> (r: Option<UsbCommand>)
    ensures
        match result {
            OutputReportResult::KeyImageComplete { key_id, image } => r matches Some(
                UsbCommand::ImageData { key_id: k, data },
            ) && k == key_id && data@ == image@,
            _ => r is None,
        },
{
    match result {
        OutputReportResult::KeyImageComplete { key_id, image } => Some(
            UsbCommand::ImageData { key_id, data: image },
        ),
        _ => None,
    }
}

/// The display command that carries out a USB command: a reset clears
/// every key.
pub fn display_command_for(cmd: UsbCommand) -> (r: DisplayCommand)
    ensures
        match cmd {
            UsbCommand::Reset => r matches DisplayCommand::ClearAll,
            UsbCommand::SetBrightness(b) => r matches DisplayCommand::SetBrightness(v) && v == b,
            UsbCommand::ImageData { key_id, data } => r matches DisplayCommand::DisplayImage {
                key_id: k,
                data: d,
            } && k == key_id && d@ == data@,
        },
{
    match cmd {
        UsbCommand::Reset => DisplayCommand::ClearAll,
        UsbCommand::SetBrightness(b) => DisplayCommand::SetBrightness(b),
        UsbCommand::ImageData { key_id, data } => DisplayCommand::DisplayImage { key_id, data },
    }
}

} // verus!
