//! The controller families, and which one a cartridge-type byte names.
use vstd::prelude::*;

verus! {

/// The family of the memory bank controller on a cartridge.
#[allow(non_camel_case_types)]
#[derive(Clone, Copy, Debug, PartialEq, Eq, Structural)]
pub enum MapperKind {
    /// No controller: the ROM is mapped as it is.
    RomOnly,
    /// Five-bit ROM bank register, two-bit secondary register, two banking modes.
    MBC1,
    /// Four-bit ROM bank register and 512 built-in half-byte RAM cells.
    MBC2,
    /// Seven-bit ROM bank register and a real-time clock.
    MBC3,
    /// Nine-bit ROM bank register and a rumble motor output.
    MBC5,
    /// Two 8 KiB ROM windows and two 4 KiB RAM windows.
    MBC6,
    /// Seven-bit ROM bank register and a two-axis motion sensor.
    MBC7,
    /// A multi-game controller; it is recognised, and none can be built for it.
    MMM01,
    /// A type byte that names no known controller.
    Unsupported,
}

/// The controller family that the cartridge-type byte names.
pub open spec fn mapper_kind_spec(cartridge_type: u8) -> MapperKind {
    if cartridge_type == 0x00 || cartridge_type == 0x08 || cartridge_type == 0x09 {
        MapperKind::RomOnly
    } else if 0x01 <= cartridge_type <= 0x03 {
        MapperKind::MBC1
    } else if cartridge_type == 0x05 || cartridge_type == 0x06 {
        MapperKind::MBC2
    } else if 0x0B <= cartridge_type <= 0x0D {
        MapperKind::MMM01
    } else if 0x0F <= cartridge_type <= 0x13 {
        MapperKind::MBC3
    } else if 0x19 <= cartridge_type <= 0x1E {
        MapperKind::MBC5
    } else if cartridge_type == 0x20 {
        MapperKind::MBC6
    } else if cartridge_type == 0x22 {
        MapperKind::MBC7
    } else {
        MapperKind::Unsupported
    }
}

impl MapperKind {
    /// Whether a controller of this family can be built.
    pub open spec fn buildable(self) -> bool {
        self != MapperKind::MMM01 && self != MapperKind::Unsupported
    }

    /// The controller family that the cartridge-type byte names.
    pub fn from_cartridge_type(cartridge_type: u8) -> (kind: MapperKind)
        ensures
            kind == mapper_kind_spec(cartridge_type),
    {
        match cartridge_type {
            0x00 | 0x08 | 0x09 => MapperKind::RomOnly,
            0x01..=0x03 => MapperKind::MBC1,
            0x05 | 0x06 => MapperKind::MBC2,
            0x0B..=0x0D => MapperKind::MMM01,
            0x0F..=0x13 => MapperKind::MBC3,
            0x19..=0x1E => MapperKind::MBC5,
            0x20 => MapperKind::MBC6,
            0x22 => MapperKind::MBC7,
            _ => MapperKind::Unsupported,
        }
    }
}

/// The name listed for a cartridge-type byte, for the bytes up to `0x22`; a byte
/// in between that names no cartridge is listed under its number and question
/// marks.
pub open spec fn cartridge_type_name_spec(cartridge_type: u8) -> Option<Seq<char>> {
    match cartridge_type {
        0x00 => Some("ROM ONLY"@),
        0x01 => Some("MBC1"@),
        0x02 => Some("MBC1+RAM"@),
        0x03 => Some("MBC1+RAM+BATTERY"@),
        0x04 => Some("0x04 ???"@),
        0x05 => Some("MBC2"@),
        0x06 => Some("MBC2+BATTERY"@),
        0x07 => Some("0x07 ???"@),
        0x08 => Some("ROM+RAM 1"@),
        0x09 => Some("ROM+RAM+BATTERY 1"@),
        0x0A => Some("0x0A ???"@),
        0x0B => Some("MMM01"@),
        0x0C => Some("MMM01+RAM"@),
        0x0D => Some("MMM01+RAM+BATTERY"@),
        0x0E => Some("0x0E ???"@),
        0x0F => Some("MBC3+TIMER+BATTERY"@),
        0x10 => Some("MBC3+TIMER+RAM+BATTERY 2"@),
        0x11 => Some("MBC3"@),
        0x12 => Some("MBC3+RAM 2"@),
        0x13 => Some("MBC3+RAM+BATTERY 2"@),
        0x14 => Some("0x14 ???"@),
        0x15 => Some("0x15 ???"@),
        0x16 => Some("0x16 ???"@),
        0x17 => Some("0x17 ???"@),
        0x18 => Some("0x18 ???"@),
        0x19 => Some("MBC5"@),
        0x1A => Some("MBC5+RAM"@),
        0x1B => Some("MBC5+RAM+BATTERY"@),
        0x1C => Some("MBC5+RUMBLE"@),
        0x1D => Some("MBC5+RUMBLE+RAM"@),
        0x1E => Some("MBC5+RUMBLE+RAM+BATTERY"@),
        0x1F => Some("0x1F ???"@),
        0x20 => Some("MBC6"@),
        0x21 => Some("0x21 ???"@),
        0x22 => Some("MBC7+SENSOR+RUMBLE+RAM+BATTERY"@),
        _ => None,
    }
}

/// The name listed for a cartridge-type byte, if the list reaches that far.
pub fn cartridge_type_name(cartridge_type: u8) -> (name: Option<&'static str>)
    ensures
        name is Some <==> cartridge_type_name_spec(cartridge_type) is Some,
        name matches Some(text) ==> cartridge_type_name_spec(cartridge_type) == Some(text@),
{
    match cartridge_type {
        0x00 => Some("ROM ONLY"),
        0x01 => Some("MBC1"),
        0x02 => Some("MBC1+RAM"),
        0x03 => Some("MBC1+RAM+BATTERY"),
        0x04 => Some("0x04 ???"),
        0x05 => Some("MBC2"),
        0x06 => Some("MBC2+BATTERY"),
        0x07 => Some("0x07 ???"),
        0x08 => Some("ROM+RAM 1"),
        0x09 => Some("ROM+RAM+BATTERY 1"),
        0x0A => Some("0x0A ???"),
        0x0B => Some("MMM01"),
        0x0C => Some("MMM01+RAM"),
        0x0D => Some("MMM01+RAM+BATTERY"),
        0x0E => Some("0x0E ???"),
        0x0F => Some("MBC3+TIMER+BATTERY"),
        0x10 => Some("MBC3+TIMER+RAM+BATTERY 2"),
        0x11 => Some("MBC3"),
        0x12 => Some("MBC3+RAM 2"),
        0x13 => Some("MBC3+RAM+BATTERY 2"),
        0x14 => Some("0x14 ???"),
        0x15 => Some("0x15 ???"),
        0x16 => Some("0x16 ???"),
        0x17 => Some("0x17 ???"),
        0x18 => Some("0x18 ???"),
        0x19 => Some("MBC5"),
        0x1A => Some("MBC5+RAM"),
        0x1B => Some("MBC5+RAM+BATTERY"),
        0x1C => Some("MBC5+RUMBLE"),
        0x1D => Some("MBC5+RUMBLE+RAM"),
        0x1E => Some("MBC5+RUMBLE+RAM+BATTERY"),
        0x1F => Some("0x1F ???"),
        0x20 => Some("MBC6"),
        0x21 => Some("0x21 ???"),
        0x22 => Some("MBC7+SENSOR+RUMBLE+RAM+BATTERY"),
        _ => None,
    }
}

} // verus!
