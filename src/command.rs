//! Vendor commands decoded from feature reports.

use vstd::prelude::*;

verus! {

/// Firmware slot named by a version query.
#[derive(Debug, Clone, Copy, PartialEq, Eq, Structural)]
pub enum FirmwareType {
    LD,
    AP2,
    AP1,
}

/// A "set" command carried by a feature report.
#[derive(Debug, Clone, Copy, PartialEq, Eq, Structural)]
pub enum ModuleSetCommand {
    Reset,
    ShowLogo,
    UpdateBootLogo { slice: u8 },
    SetBrightness { value: u8 },
    SetIdleTime { seconds: i32 },
    SetKeyColor { key_index: u8, r: u8, g: u8, b: u8 },
    ShowBackgroundByIndex { index: u8 },
}

/// A "get" request named by a feature report id.
#[derive(Debug, Clone, Copy, PartialEq, Eq, Structural)]
pub enum ModuleGetCommand {
    GetFirmwareVersion(FirmwareType),
    GetUnitSerialNumber,
    GetIdleTime,
    GetUnitInformation,
}

/// The little-endian signed 32-bit integer in four bytes.
pub open spec fn le_i32(b0: u8, b1: u8, b2: u8, b3: u8) -> i32 {
    ((b0 as u32) | ((b1 as u32) << 8u32) | ((b2 as u32) << 16u32) | ((b3 as u32) << 24u32)) as i32
}

pub fn i32_from_le(b0: u8, b1: u8, b2: u8, b3: u8) -> (r: i32)
    ensures
        r == le_i32(b0, b1, b2, b3),
{
    ((b0 as u32) | ((b1 as u32) << 8u32) | ((b2 as u32) << 16u32) | ((b3 as u32) << 24u32)) as i32
}

/// The little-endian unsigned 16-bit integer in two bytes.
pub open spec fn le_u16(lo: u8, hi: u8) -> u16 {
    ((lo as u16) | ((hi as u16) << 8u16)) as u16
}

pub fn u16_from_le(lo: u8, hi: u8) -> (r: u16)
    ensures
        r == le_u16(lo, hi),
{
    (lo as u16) | ((hi as u16) << 8u16)
}

/// The four little-endian bytes of `v`.
pub open spec fn le_bytes_i32(v: i32) -> Seq<u8> {
    let u = v as u32;
    seq![
        (u & 0xffu32) as u8,
        ((u >> 8u32) & 0xffu32) as u8,
        ((u >> 16u32) & 0xffu32) as u8,
        ((u >> 24u32) & 0xffu32) as u8,
    ]
}

pub fn i32_to_le(v: i32) -> (r: Vec<u8>)
    ensures
        r@ == le_bytes_i32(v),
{
    let u = v as u32;
    assert((u & 0xffu32) < 256u32) by (bit_vector);
    assert(((u >> 8u32) & 0xffu32) < 256u32) by (bit_vector);
    assert(((u >> 16u32) & 0xffu32) < 256u32) by (bit_vector);
    assert(((u >> 24u32) & 0xffu32) < 256u32) by (bit_vector);
    let r = vec![
        (u & 0xffu32) as u8,
        ((u >> 8u32) & 0xffu32) as u8,
        ((u >> 16u32) & 0xffu32) as u8,
        ((u >> 24u32) & 0xffu32) as u8,
    ];
    assert(r@ =~= le_bytes_i32(v));
    r
}

} // verus!
