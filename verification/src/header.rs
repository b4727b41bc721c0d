//! The cartridge header: the fixed-layout fields at `0x100` to `0x14F` of the ROM
//! image.
use vstd::prelude::*;
use vstd::slice::{slice_subrange, slice_to_vec};
use crate::error::HeaderChecksumMismatch;
use crate::licensee::{license_name, licensee_key, licensee_key_spec, LICENSE_CODE};
use crate::rom::{RomImage, HEADER_END};

verus! {

/// Offset of the entry point.
pub const ENTRY_POINT_OFFSET: usize = 0x100;

/// Length of the entry point.
pub const ENTRY_POINT_SIZE: usize = 4;

/// Offset of the logo bitmap.
pub const LOGO_OFFSET: usize = 0x104;

/// Length of the logo bitmap.
pub const LOGO_SIZE: usize = 48;

/// Offset of the title.
pub const TITLE_OFFSET: usize = 0x134;

/// Length of the title field.
pub const TITLE_SIZE: usize = 16;

/// Offset of the two characters of the new licensee code.
pub const NEW_LICENSEE_OFFSET: usize = 0x144;

/// Offset of the SGB flag.
pub const SGB_FLAG_OFFSET: usize = 0x146;

/// Offset of the cartridge type.
pub const TYPE_OFFSET: usize = 0x147;

/// Offset of the ROM size code.
pub const ROM_SIZE_OFFSET: usize = 0x148;

/// Offset of the RAM size code.
pub const RAM_SIZE_OFFSET: usize = 0x149;

/// Offset of the destination code.
pub const DESTINATION_OFFSET: usize = 0x14A;

/// Offset of the old licensee code.
pub const OLD_LICENSEE_OFFSET: usize = 0x14B;

/// Offset of the mask ROM version.
pub const VERSION_OFFSET: usize = 0x14C;

/// Offset of the header checksum; the checksum covers the bytes from the title up
/// to the byte before it.
pub const HEADER_CHECKSUM_OFFSET: usize = 0x14D;

/// Offset of the global checksum, high byte first.
pub const GLOBAL_CHECKSUM_OFFSET: usize = 0x14E;

/// Whether `byte` is a printable ASCII character.
pub open spec fn is_printable(byte: u8) -> bool {
    0x20 <= byte <= 0x7E
}

/// The number of printable characters that `field` starts with.
pub open spec fn printable_prefix_len(field: Seq<u8>) -> nat
    decreases field.len(),
{
    if field.len() == 0 || !is_printable(field[0]) {
        0
    } else {
        1 + printable_prefix_len(field.drop_first())
    }
}

/// The title in the image: the printable characters that the title field starts
/// with. The padding of zeros, and a flag byte at the field's end, are left out.
pub open spec fn title_spec(rom: Seq<u8>) -> Seq<u8> {
    let field = rom.subrange(TITLE_OFFSET as int, TITLE_OFFSET + TITLE_SIZE);
    field.take(printable_prefix_len(field) as int)
}

/// The sum of the bytes in `bytes`.
pub open spec fn byte_sum(bytes: Seq<u8>) -> int
    decreases bytes.len(),
{
    if bytes.len() == 0 {
        0
    } else {
        byte_sum(bytes.drop_last()) + bytes.last()
    }
}

/// The checksum of `bytes`: what an eight-bit accumulator holds that starts at
/// zero and, for every byte, loses the byte and one more. That is the sum of the
/// bytes plus their number, negated, in eight bits.
pub open spec fn checksum_spec(bytes: Seq<u8>) -> u8 {
    ((-(byte_sum(bytes) + bytes.len())) % 256) as u8
}

/// The checksum as a running difference: that of no bytes is zero, and that of
/// some bytes and one more is what the checksum of the former becomes when it
/// loses the new byte and one more, in eight bits.
pub proof fn lemma_checksum_runs(bytes: Seq<u8>, next: u8)
    ensures
        checksum_spec(Seq::<u8>::empty()) == 0,
        checksum_spec(bytes.push(next)) == checksum_spec(bytes).wrapping_sub(next).wrapping_sub(1),
        checksum_spec(bytes.push(next)) as int == (checksum_spec(bytes) - next - 1) % 256,
{
    assert(bytes.push(next).drop_last() =~= bytes);
}

/// The header checksum of an image: the checksum of the bytes from the title up
/// to the byte before the stored checksum.
pub open spec fn header_checksum_spec(rom: Seq<u8>) -> u8 {
    checksum_spec(rom.subrange(TITLE_OFFSET as int, HEADER_CHECKSUM_OFFSET as int))
}

/// The header as a mathematical value; the fields are those of [`Header`].
pub struct HeaderView {
    /// The four bytes of the entry point.
    pub entry_point: Seq<u8>,
    /// The 48 bytes of the logo bitmap.
    pub logo: Seq<u8>,
    /// The title.
    pub title: Seq<u8>,
    /// The two characters of the new licensee code, the first in the high byte.
    pub new_licensee_code: u16,
    /// The SGB flag.
    pub sgb_flag: u8,
    /// The cartridge type.
    pub cartridge_type: u8,
    /// The ROM size code.
    pub rom_size_code: u8,
    /// The RAM size code.
    pub ram_size_code: u8,
    /// The destination code.
    pub destination_code: u8,
    /// The old licensee code.
    pub old_licensee_code: u8,
    /// The mask ROM version.
    pub version: u8,
    /// The header checksum as stored.
    pub header_checksum: u8,
    /// The global checksum as stored.
    pub global_checksum: u16,
}

/// The header that an image of at least `HEADER_END` bytes holds: every field is
/// read at its offset; the two-byte fields hold their first byte in the high half.
pub open spec fn parse_spec(rom: Seq<u8>) -> HeaderView {
    HeaderView {
        entry_point: rom.subrange(ENTRY_POINT_OFFSET as int, ENTRY_POINT_OFFSET + ENTRY_POINT_SIZE),
        logo: rom.subrange(LOGO_OFFSET as int, LOGO_OFFSET + LOGO_SIZE),
        title: title_spec(rom),
        new_licensee_code: (rom[NEW_LICENSEE_OFFSET as int] * 256 + rom[NEW_LICENSEE_OFFSET
            + 1]) as u16,
        sgb_flag: rom[SGB_FLAG_OFFSET as int],
        cartridge_type: rom[TYPE_OFFSET as int],
        rom_size_code: rom[ROM_SIZE_OFFSET as int],
        ram_size_code: rom[RAM_SIZE_OFFSET as int],
        destination_code: rom[DESTINATION_OFFSET as int],
        old_licensee_code: rom[OLD_LICENSEE_OFFSET as int],
        version: rom[VERSION_OFFSET as int],
        header_checksum: rom[HEADER_CHECKSUM_OFFSET as int],
        global_checksum: (rom[GLOBAL_CHECKSUM_OFFSET as int] * 256 + rom[GLOBAL_CHECKSUM_OFFSET
            + 1]) as u16,
    }
}

impl HeaderView {
    /// The table key under which the header's publisher is listed.
    pub open spec fn licensee_key(self) -> u16 {
        licensee_key_spec(
            self.old_licensee_code,
            (self.new_licensee_code / 256) as u8,
            (self.new_licensee_code % 256) as u8,
        )
    }
}

/// The fields of a cartridge header.
#[derive(Debug)]
pub struct Header {
    /// The four bytes of code that the console runs first.
    pub entry_point: Vec<u8>,
    /// The 48 bytes of the logo bitmap.
    pub logo: Vec<u8>,
    /// The title: up to 16 printable characters.
    pub title: Vec<u8>,
    /// The two characters of the new licensee code, the first in the high byte.
    pub new_licensee_code: u16,
    /// The SGB flag.
    pub sgb_flag: u8,
    /// The cartridge type, which names the controller family.
    pub cartridge_type: u8,
    /// The ROM size code.
    pub rom_size_code: u8,
    /// The RAM size code.
    pub ram_size_code: u8,
    /// The destination code.
    pub destination_code: u8,
    /// The old licensee code; `0x33` refers to the new one.
    pub old_licensee_code: u8,
    /// The mask ROM version.
    pub version: u8,
    /// The header checksum as stored.
    pub header_checksum: u8,
    /// The global checksum as stored.
    pub global_checksum: u16,
}

impl View for Header {
    type V = HeaderView;

    open spec fn view(&self) -> HeaderView {
        HeaderView {
            entry_point: self.entry_point@,
            logo: self.logo@,
            title: self.title@,
            new_licensee_code: self.new_licensee_code,
            sgb_flag: self.sgb_flag,
            cartridge_type: self.cartridge_type,
            rom_size_code: self.rom_size_code,
            ram_size_code: self.ram_size_code,
            destination_code: self.destination_code,
            old_licensee_code: self.old_licensee_code,
            version: self.version,
            header_checksum: self.header_checksum,
            global_checksum: self.global_checksum,
        }
    }
}

/// A field whose first `n` bytes are printable, and which ends there or goes on
/// with a byte that is not, starts with exactly `n` printable characters.
proof fn lemma_printable_prefix(field: Seq<u8>, n: nat)
    requires
        n <= field.len(),
        forall|i: int| 0 <= i < n ==> is_printable(#[trigger] field[i]),
        n == field.len() || !is_printable(field[n as int]),
    ensures
        printable_prefix_len(field) == n,
    decreases n,
{
    if n > 0 {
        let rest = field.drop_first();
        assert forall|i: int| 0 <= i < n - 1 implies is_printable(#[trigger] rest[i]) by {
            assert(rest[i] == field[i + 1]);
        }
        lemma_printable_prefix(rest, (n - 1) as nat);
    }
}

/// The title in the image.
fn parse_title(rom: &RomImage) -> (title: Vec<u8>)
    requires
        rom.wf(),
    ensures
        title@ == title_spec(rom@),
        title@.len() <= TITLE_SIZE,
{
    let bytes = rom.as_slice();
    let ghost field = rom@.subrange(TITLE_OFFSET as int, TITLE_OFFSET + TITLE_SIZE);
    let mut title: Vec<u8> = Vec::new();
    let mut i: usize = 0;
    while i < TITLE_SIZE && 0x20 <= bytes[TITLE_OFFSET + i] && bytes[TITLE_OFFSET + i] <= 0x7E
        invariant
            i <= TITLE_SIZE,
            bytes@ == rom@,
            rom@.len() >= HEADER_END,
            field == rom@.subrange(TITLE_OFFSET as int, TITLE_OFFSET + TITLE_SIZE),
            title@ == field.take(i as int),
            forall|k: int| 0 <= k < i ==> is_printable(#[trigger] field[k]),
        decreases TITLE_SIZE - i,
    {
        title.push(bytes[TITLE_OFFSET + i]);
        i = i + 1;
    }
    proof {
        lemma_printable_prefix(field, i as nat);
    }
    title
}

/// The checksum of `bytes`.
pub fn checksum(bytes: &[u8]) -> (sum: u8)
    ensures
        sum == checksum_spec(bytes@),
{
    let mut accumulator: u8 = 0;
    let mut i: usize = 0;
    while i < bytes.len()
        invariant
            i <= bytes.len(),
            accumulator == checksum_spec(bytes@.take(i as int)),
        decreases bytes.len() - i,
    {
        proof {
            assert(bytes@.take(i + 1) =~= bytes@.take(i as int).push(bytes@[i as int]));
            lemma_checksum_runs(bytes@.take(i as int), bytes@[i as int]);
        }
        accumulator = accumulator.wrapping_sub(bytes[i]).wrapping_sub(1);
        i = i + 1;
    }
    assert(bytes@.take(i as int) =~= bytes@);
    accumulator
}

/// The header checksum computed over the image's header.
pub fn header_checksum(rom: &RomImage) -> (sum: u8)
    requires
        rom.wf(),
    ensures
        sum == header_checksum_spec(rom@),
{
    checksum(slice_subrange(rom.as_slice(), TITLE_OFFSET, HEADER_CHECKSUM_OFFSET))
}

impl Header {
    /// Reads the header of an image.
    pub fn parse(rom: &RomImage) -> (header: Header)
        requires
            rom.wf(),
        ensures
            header@ == parse_spec(rom@),
    {
        let bytes = rom.as_slice();
        Header {
            entry_point: slice_to_vec(
                slice_subrange(bytes, ENTRY_POINT_OFFSET, ENTRY_POINT_OFFSET + ENTRY_POINT_SIZE),
            ),
            logo: slice_to_vec(slice_subrange(bytes, LOGO_OFFSET, LOGO_OFFSET + LOGO_SIZE)),
            title: parse_title(rom),
            new_licensee_code: (bytes[NEW_LICENSEE_OFFSET] as u16) * 256 + (bytes[NEW_LICENSEE_OFFSET
                + 1] as u16),
            sgb_flag: bytes[SGB_FLAG_OFFSET],
            cartridge_type: bytes[TYPE_OFFSET],
            rom_size_code: bytes[ROM_SIZE_OFFSET],
            ram_size_code: bytes[RAM_SIZE_OFFSET],
            destination_code: bytes[DESTINATION_OFFSET],
            old_licensee_code: bytes[OLD_LICENSEE_OFFSET],
            version: bytes[VERSION_OFFSET],
            header_checksum: bytes[HEADER_CHECKSUM_OFFSET],
            global_checksum: (bytes[GLOBAL_CHECKSUM_OFFSET] as u16) * 256 + (bytes[GLOBAL_CHECKSUM_OFFSET
                + 1] as u16),
        }
    }

    /// The publisher: looked up under the new licensee code where the old code is
    /// `0x33`, and under the old code otherwise.
    pub fn licensee(&self) -> (name: &'static str)
        ensures
            name@ == license_name(self@.licensee_key()),
    {
        LICENSE_CODE(
            licensee_key(
                self.old_licensee_code,
                (self.new_licensee_code / 256) as u8,
                (self.new_licensee_code % 256) as u8,
            ),
        )
    }

    /// Holds the stored checksum against the one computed over `rom`: nothing where
    /// they agree, and both values where they do not.
    pub fn verify_checksum(&self, rom: &RomImage) -> (warning: Option<HeaderChecksumMismatch>)
        requires
            rom.wf(),
        ensures
            warning == checksum_warning_spec(self@.header_checksum, rom@),
    {
        let computed: u8 = header_checksum(rom);
        if computed == self.header_checksum {
            None
        } else {
            Some(HeaderChecksumMismatch { stored: self.header_checksum, computed })
        }
    }
}

/// The warning that a stored checksum of `stored` earns on the image `rom`.
pub open spec fn checksum_warning_spec(stored: u8, rom: Seq<u8>) -> Option<HeaderChecksumMismatch> {
    if header_checksum_spec(rom) == stored {
        None
    } else {
        Some(HeaderChecksumMismatch { stored, computed: header_checksum_spec(rom) })
    }
}

} // verus!
