//! Sizes declared by the header's ROM and RAM size codes.
use vstd::prelude::*;

verus! {

/// Bytes in one switchable ROM bank.
pub const ROM_BANK_SIZE: usize = 0x4000;

/// The largest ROM size code that has a size.
pub const MAX_ROM_SIZE_CODE: u8 = 8;

/// The largest RAM size code that has a size.
pub const MAX_RAM_SIZE_CODE: u8 = 5;

/// The ROM length in bytes that a size code declares: 32 KiB shifted left by the
/// code, for the codes up to `MAX_ROM_SIZE_CODE`; no other code has a length.
pub open spec fn declared_rom_length(code: u8) -> Option<nat> {
    if code <= MAX_ROM_SIZE_CODE {
        Some((0x8000u32 << code) as nat)
    } else {
        None
    }
}

/// The number of 16 KiB banks in a ROM of the declared length.
pub open spec fn declared_rom_banks(code: u8) -> Option<nat> {
    if code <= MAX_ROM_SIZE_CODE {
        Some((2u32 << code) as nat)
    } else {
        None
    }
}

/// The external RAM length in bytes that a size code declares: none for code 0,
/// 2 KiB for code 1, and 2 KiB shifted left by one less than the code for the
/// codes up to `MAX_RAM_SIZE_CODE`.
pub open spec fn declared_ram_length(code: u8) -> Option<nat> {
    if code == 0 {
        Some(0nat)
    } else if code == 1 {
        Some(0x800nat)
    } else if code <= MAX_RAM_SIZE_CODE {
        Some((0x800u32 << ((code - 1) as u8)) as nat)
    } else {
        None
    }
}

/// Whether a ROM can have `banks` banks of 16 KiB: the powers of two from 2 to
/// 512.
pub open spec fn is_bank_count(banks: nat) -> bool {
    banks == 2 || banks == 4 || banks == 8 || banks == 16 || banks == 32 || banks == 64 || banks
        == 128 || banks == 256 || banks == 512
}

/// What the shifts in the declared sizes amount to.
pub proof fn lemma_declared_sizes(code: u8)
    ensures
        code <= MAX_ROM_SIZE_CODE ==> {
            &&& declared_rom_length(code) is Some
            &&& declared_rom_banks(code) is Some
            &&& declared_rom_length(code)->0 == 0x4000 * declared_rom_banks(code)->0
            &&& 0x8000 <= declared_rom_length(code)->0 <= 0x80_0000
            &&& is_bank_count(declared_rom_banks(code)->0)
            &&& code > 0 ==> declared_rom_length(code)->0 == 2 * declared_rom_length(
                (code - 1) as u8,
            )->0
        },
        declared_rom_length(0) == Some(0x8000nat),
        0 < code <= MAX_RAM_SIZE_CODE ==> {
            &&& declared_ram_length(code) is Some
            &&& 0x800 <= declared_ram_length(code)->0 <= 0x8000
            &&& code > 1 ==> declared_ram_length(code)->0 == 2 * declared_ram_length(
                (code - 1) as u8,
            )->0
        },
{
    assert(code <= 8 ==> (0x8000u32 << code) == 0x4000 * (2u32 << code) && 0x8000 <= (0x8000u32
        << code) <= 0x80_0000 && (code > 0 ==> (0x8000u32 << code) == 2 * (0x8000u32 << ((code
        - 1) as u8)))) by (bit_vector);
    assert(code <= 8 ==> (2u32 << code) == 2 || (2u32 << code) == 4 || (2u32 << code) == 8 || (2u32
        << code) == 16 || (2u32 << code) == 32 || (2u32 << code) == 64 || (2u32 << code) == 128
        || (2u32 << code) == 256 || (2u32 << code) == 512) by (bit_vector);
    assert((0x8000u32 << 0u8) == 0x8000 && (0x800u32 << 0u8) == 0x800) by (bit_vector);
    assert(0 < code <= 5 ==> 0x800 <= (0x800u32 << ((code - 1) as u8)) <= 0x8000 && (code > 1
        ==> (0x800u32 << ((code - 1) as u8)) == 2 * (0x800u32 << ((code - 2) as u8))))
        by (bit_vector);
}

/// The ROM length that `code` declares, if it declares one.
pub fn rom_length(code: u8) -> (length: Option<usize>)
    ensures
        length is Some <==> code <= MAX_ROM_SIZE_CODE,
        length matches Some(n) ==> declared_rom_length(code) == Some(n as nat),
{
    if code <= MAX_ROM_SIZE_CODE {
        let length: u32 = 0x8000u32 << code;
        Some(length as usize)
    } else {
        None
    }
}

/// The number of 16 KiB ROM banks that `code` declares, if it declares any.
pub fn rom_banks(code: u8) -> (banks: Option<u16>)
    ensures
        banks is Some <==> code <= MAX_ROM_SIZE_CODE,
        banks matches Some(n) ==> declared_rom_banks(code) == Some(n as nat),
{
    if code <= MAX_ROM_SIZE_CODE {
        proof {
            lemma_declared_sizes(code);
        }
        let banks: u32 = 2u32 << code;
        Some(banks as u16)
    } else {
        None
    }
}

/// The external RAM length that `code` declares, if it declares one.
pub fn ram_length(code: u8) -> (length: Option<usize>)
    ensures
        length is Some <==> code <= MAX_RAM_SIZE_CODE,
        length matches Some(n) ==> declared_ram_length(code) == Some(n as nat),
{
    if code == 0 {
        Some(0)
    } else if code == 1 {
        Some(0x800)
    } else if code <= MAX_RAM_SIZE_CODE {
        let length: u32 = 0x800u32 << (code - 1);
        Some(length as usize)
    } else {
        None
    }
}

} // verus!
