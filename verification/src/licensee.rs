//! Publisher names, looked up by licensee code.
use vstd::prelude::*;

verus! {

/// The key under which no publisher is listed; an unreadable new-style code maps
/// to it.
pub const UNLISTED_LICENSEE: u16 = 0xFFFF;

/// The publisher listed under `code`, or `"Invalid code"` where none is.
pub open spec fn license_name(code: u16) -> Seq<char> {
    match code {
        0x00 => "None"@,
        0x01 => "Nintendo R&D1"@,
        0x08 => "Capcom"@,
        0x13 => "Electronic Arts"@,
        0x18 => "Hudson Soft"@,
        0x19 => "b-ai"@,
        0x20 => "kss"@,
        0x22 => "pow"@,
        0x24 => "PCM Complete"@,
        0x25 => "san-x"@,
        0x28 => "Kemco Japan"@,
        0x29 => "seta"@,
        0x30 => "Viacom"@,
        0x31 => "Nintendo"@,
        0x32 => "Bandai"@,
        0x33 => "Ocean/Acclaim"@,
        0x34 => "Konami"@,
        0x35 => "Hector"@,
        0x37 => "Taito"@,
        0x38 => "Hudson"@,
        0x39 => "Banpresto"@,
        0x41 => "Ubi Soft"@,
        0x42 => "Atlus"@,
        0x44 => "Malibu"@,
        0x46 => "angel"@,
        0x47 => "Bullet-Proof"@,
        0x49 => "irem"@,
        0x50 => "Absolute"@,
        0x51 => "Acclaim"@,
        0x52 => "Activision"@,
        0x53 => "American sammy"@,
        0x54 => "Konami"@,
        0x55 => "Hi tech entertainment"@,
        0x56 => "LJN"@,
        0x57 => "Matchbox"@,
        0x58 => "Mattel"@,
        0x59 => "Milton Bradley"@,
        0x60 => "Titus"@,
        0x61 => "Virgin"@,
        0x64 => "LucasArts"@,
        0x67 => "Ocean"@,
        0x69 => "Electronic Arts"@,
        0x70 => "Infogrames"@,
        0x71 => "Interplay"@,
        0x72 => "Broderbund"@,
        0x73 => "sculptured"@,
        0x75 => "sci"@,
        0x78 => "THQ"@,
        0x79 => "Accolade"@,
        0x80 => "misawa"@,
        0x83 => "lozc"@,
        0x86 => "Tokuma Shoten Intermedia"@,
        0x87 => "Tsukuda Original"@,
        0x91 => "Chunsoft"@,
        0x92 => "Video system"@,
        0x93 => "Ocean/Acclaim"@,
        0x95 => "Varie"@,
        0x96 => "Yonezawa/sâ€™pal"@,
        0x97 => "Kaneko"@,
        0x99 => "Pack in soft"@,
        0xA4 => "Konami (Yu-Gi-Oh!)"@,
        _ => "Invalid code"@,
    }
}

/// The publisher listed under `code`, or `"Invalid code"` where none is.
#[allow(non_snake_case)]
pub fn LICENSE_CODE(code: u16) -> (name: &'static str)
    ensures
        name@ == license_name(code),
{
    match code {
        0x00 => "None",
        0x01 => "Nintendo R&D1",
        0x08 => "Capcom",
        0x13 => "Electronic Arts",
        0x18 => "Hudson Soft",
        0x19 => "b-ai",
        0x20 => "kss",
        0x22 => "pow",
        0x24 => "PCM Complete",
        0x25 => "san-x",
        0x28 => "Kemco Japan",
        0x29 => "seta",
        0x30 => "Viacom",
        0x31 => "Nintendo",
        0x32 => "Bandai",
        0x33 => "Ocean/Acclaim",
        0x34 => "Konami",
        0x35 => "Hector",
        0x37 => "Taito",
        0x38 => "Hudson",
        0x39 => "Banpresto",
        0x41 => "Ubi Soft",
        0x42 => "Atlus",
        0x44 => "Malibu",
        0x46 => "angel",
        0x47 => "Bullet-Proof",
        0x49 => "irem",
        0x50 => "Absolute",
        0x51 => "Acclaim",
        0x52 => "Activision",
        0x53 => "American sammy",
        0x54 => "Konami",
        0x55 => "Hi tech entertainment",
        0x56 => "LJN",
        0x57 => "Matchbox",
        0x58 => "Mattel",
        0x59 => "Milton Bradley",
        0x60 => "Titus",
        0x61 => "Virgin",
        0x64 => "LucasArts",
        0x67 => "Ocean",
        0x69 => "Electronic Arts",
        0x70 => "Infogrames",
        0x71 => "Interplay",
        0x72 => "Broderbund",
        0x73 => "sculptured",
        0x75 => "sci",
        0x78 => "THQ",
        0x79 => "Accolade",
        0x80 => "misawa",
        0x83 => "lozc",
        0x86 => "Tokuma Shoten Intermedia",
        0x87 => "Tsukuda Original",
        0x91 => "Chunsoft",
        0x92 => "Video system",
        0x93 => "Ocean/Acclaim",
        0x95 => "Varie",
        0x96 => "Yonezawa/sâ€™pal",
        0x97 => "Kaneko",
        0x99 => "Pack in soft",
        0xA4 => "Konami (Yu-Gi-Oh!)",
        _ => "Invalid code",
    }
}

/// The value of an upper-case hexadecimal digit character, if `c` is one.
pub open spec fn hex_digit_value(c: u8) -> Option<nat> {
    if 0x30 <= c <= 0x39 {
        Some((c - 0x30) as nat)
    } else if 0x41 <= c <= 0x46 {
        Some((c - 0x41 + 10) as nat)
    } else {
        None
    }
}

/// The table key that a new-style licensee code stands for.
///
/// The two header bytes are characters, and the pair is the key written in
/// hexadecimal: the characters `A4` stand for key `0xA4`. A pair that is not two
/// such digits stands for `UNLISTED_LICENSEE`.
pub open spec fn new_licensee_key_spec(hi: u8, lo: u8) -> u16 {
    match (hex_digit_value(hi), hex_digit_value(lo)) {
        (Some(h), Some(l)) => (16 * h + l) as u16,
        _ => UNLISTED_LICENSEE,
    }
}

/// The table key under which a header's publisher is listed: the key of the
/// new-style code where the old code is `0x33`, and the old code itself
/// otherwise.
pub open spec fn licensee_key_spec(old_code: u8, new_hi: u8, new_lo: u8) -> u16 {
    if old_code == 0x33 {
        new_licensee_key_spec(new_hi, new_lo)
    } else {
        old_code as u16
    }
}

fn hex_digit(c: u8) -> (value: Option<u8>)
    ensures
        value is Some <==> hex_digit_value(c) is Some,
        value matches Some(v) ==> hex_digit_value(c) == Some(v as nat) && v < 16,
{
    if 0x30 <= c && c <= 0x39 {
        Some(c - 0x30)
    } else if 0x41 <= c && c <= 0x46 {
        Some(c - 0x41 + 10)
    } else {
        None
    }
}

/// The table key that the new-style licensee code `hi`, `lo` stands for.
pub fn new_licensee_key(hi: u8, lo: u8) -> (key: u16)
    ensures
        key == new_licensee_key_spec(hi, lo),
{
    match (hex_digit(hi), hex_digit(lo)) {
        (Some(h), Some(l)) => 16 * (h as u16) + (l as u16),
        _ => UNLISTED_LICENSEE,
    }
}

/// The table key under which a header's publisher is listed.
pub fn licensee_key(old_code: u8, new_hi: u8, new_lo: u8) -> (key: u16)
    ensures
        key == licensee_key_spec(old_code, new_hi, new_lo),
{
    if old_code == 0x33 {
        new_licensee_key(new_hi, new_lo)
    } else {
        old_code as u16
    }
}

} // verus!
