//! Protocol emulation core for macro-keypad ("deck") devices: the device
//! capability model, image transforms, button mapping and the per-family
//! wire-protocol handlers, each stated and proved with Verus.

pub mod buffer;
pub mod bytes;
pub mod command;
pub mod config;
pub mod debounce;
pub mod device;
pub mod display;
pub mod image;
pub mod laws;
pub mod report;
pub mod supervisor;
pub mod types;
pub mod v1;
pub mod v2;
pub mod module6;
pub mod module15_32;
pub mod handler;
pub mod hardware;
