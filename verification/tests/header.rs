use gb_cartridge::error::HeaderChecksumMismatch;
use gb_cartridge::header::{checksum, header_checksum, Header};
use gb_cartridge::rom::RomImage;

/// The header bytes `0x134..=0x14F` of the first release of a well-known puzzle
/// game, in an image of `length` bytes.
fn puzzle_game_image(length: usize) -> Vec<u8> {
    let mut bytes = vec![0u8; length];
    bytes[0x134..0x13A].copy_from_slice(b"TETRIS");
    bytes[0x14B] = 0x01;
    bytes[0x14D] = 0x0B;
    bytes[0x14E] = 0x89;
    bytes[0x14F] = 0xB5;
    bytes
}

/// The header bytes `0x134..=0x14F` of a well-known role-playing game, in an
/// image of `length` bytes.
fn role_playing_game_image(length: usize) -> Vec<u8> {
    let mut bytes = vec![0u8; length];
    bytes[0x134..0x13F].copy_from_slice(b"POKEMON RED");
    bytes[0x144] = b'0';
    bytes[0x145] = b'1';
    bytes[0x146] = 0x03;
    bytes[0x147] = 0x13;
    bytes[0x148] = 0x05;
    bytes[0x149] = 0x03;
    bytes[0x14A] = 0x01;
    bytes[0x14B] = 0x33;
    bytes[0x14C] = 0x00;
    bytes[0x14D] = 0x20;
    bytes[0x14E] = 0x91;
    bytes[0x14F] = 0xE6;
    bytes
}

#[test]
fn checksum_of_an_authentic_header_is_the_stored_one() {
    let rom = RomImage::from_bytes(puzzle_game_image(0x8000)).unwrap();
    assert_eq!(header_checksum(&rom), 0x0B);
    let rom = RomImage::from_bytes(role_playing_game_image(0x150)).unwrap();
    assert_eq!(header_checksum(&rom), 0x20);
}

#[test]
fn checksum_does_not_cover_the_stored_checksum_or_what_follows() {
    let mut bytes = puzzle_game_image(0x150);
    bytes[0x14D] = 0x77;
    bytes[0x14E] = 0x12;
    bytes[0x14F] = 0x34;
    bytes[0x133] = 0xEE;
    let rom = RomImage::from_bytes(bytes).unwrap();
    assert_eq!(header_checksum(&rom), 0x0B);
}

#[test]
fn checksum_covers_every_byte_from_title_to_version() {
    for offset in 0x134usize..=0x14C {
        let mut bytes = puzzle_game_image(0x150);
        bytes[offset] = bytes[offset].wrapping_add(1);
        let rom = RomImage::from_bytes(bytes).unwrap();
        assert_eq!(header_checksum(&rom), 0x0A, "offset {:#x}", offset);
    }
}

#[test]
fn checksum_loses_each_byte_and_one_more() {
    assert_eq!(checksum(&[]), 0x00);
    assert_eq!(checksum(&[0x00]), 0xFF);
    assert_eq!(checksum(&[0x01]), 0xFE);
    assert_eq!(checksum(&[0xFF]), 0x00);
    assert_eq!(checksum(&[0x10, 0x20]), 0xCE);
    assert_eq!(checksum(&[0u8; 25]), 0xE7);
    assert_eq!(checksum(&[0xFFu8; 256]), 0x00);
}

#[test]
fn parse_reads_every_field_at_its_offset() {
    let rom = RomImage::from_bytes(role_playing_game_image(0x150)).unwrap();
    let header = Header::parse(&rom);
    assert_eq!(header.title, b"POKEMON RED".to_vec());
    assert_eq!(header.new_licensee_code, 0x3031);
    assert_eq!(header.sgb_flag, 0x03);
    assert_eq!(header.cartridge_type, 0x13);
    assert_eq!(header.rom_size_code, 0x05);
    assert_eq!(header.ram_size_code, 0x03);
    assert_eq!(header.destination_code, 0x01);
    assert_eq!(header.old_licensee_code, 0x33);
    assert_eq!(header.version, 0x00);
    assert_eq!(header.header_checksum, 0x20);
    assert_eq!(header.global_checksum, 0x91E6);
}

#[test]
fn parse_tells_the_fields_apart() {
    let mut bytes = vec![0u8; 0x150];
    for offset in 0x134usize..0x150 {
        bytes[offset] = (offset - 0x100) as u8;
    }
    bytes[0x100..0x104].copy_from_slice(&[0x00, 0xC3, 0x50, 0x01]);
    for offset in 0x104usize..0x134 {
        bytes[offset] = (offset - 0x104) as u8 | 0x80;
    }
    let rom = RomImage::from_bytes(bytes).unwrap();
    let header = Header::parse(&rom);
    assert_eq!(header.entry_point, vec![0x00, 0xC3, 0x50, 0x01]);
    assert_eq!(header.logo, (0x80u8..0xB0).collect::<Vec<u8>>());
    assert_eq!(header.title, (0x34u8..0x44).collect::<Vec<u8>>());
    assert_eq!(header.new_licensee_code, 0x4445);
    assert_eq!(header.sgb_flag, 0x46);
    assert_eq!(header.cartridge_type, 0x47);
    assert_eq!(header.rom_size_code, 0x48);
    assert_eq!(header.ram_size_code, 0x49);
    assert_eq!(header.destination_code, 0x4A);
    assert_eq!(header.old_licensee_code, 0x4B);
    assert_eq!(header.version, 0x4C);
    assert_eq!(header.header_checksum, 0x4D);
    assert_eq!(header.global_checksum, 0x4E4F);
}

#[test]
fn title_stops_at_the_padding() {
    let rom = RomImage::from_bytes(puzzle_game_image(0x150)).unwrap();
    assert_eq!(Header::parse(&rom).title, b"TETRIS".to_vec());
}

#[test]
fn title_may_fill_the_whole_field() {
    let mut bytes = vec![0u8; 0x150];
    bytes[0x134..0x144].copy_from_slice(b"SIXTEEN CHARS OK");
    bytes[0x144] = b'X';
    let rom = RomImage::from_bytes(bytes).unwrap();
    assert_eq!(Header::parse(&rom).title, b"SIXTEEN CHARS OK".to_vec());
}

#[test]
fn title_may_be_empty() {
    let rom = RomImage::from_bytes(vec![0u8; 0x150]).unwrap();
    assert_eq!(Header::parse(&rom).title, Vec::<u8>::new());
}

#[test]
fn title_leaves_out_a_flag_byte_at_the_end_of_the_field() {
    let mut bytes = vec![0u8; 0x150];
    bytes[0x134..0x143].copy_from_slice(b"FIFTEEN LETTERS");
    bytes[0x143] = 0x80;
    let rom = RomImage::from_bytes(bytes).unwrap();
    assert_eq!(Header::parse(&rom).title, b"FIFTEEN LETTERS".to_vec());
}

#[test]
fn title_stops_at_the_first_byte_that_is_not_printable() {
    let mut bytes = vec![0u8; 0x150];
    bytes[0x134..0x13C].copy_from_slice(b"AB\x1FCD~\x7FE");
    let rom = RomImage::from_bytes(bytes).unwrap();
    assert_eq!(Header::parse(&rom).title, b"AB".to_vec());
    let mut bytes = vec![0u8; 0x150];
    bytes[0x134..0x139].copy_from_slice(b" ~\x7FZZ");
    let rom = RomImage::from_bytes(bytes).unwrap();
    assert_eq!(Header::parse(&rom).title, b" ~".to_vec());
}

#[test]
fn licensee_comes_from_the_old_code_unless_it_is_0x33() {
    let rom = RomImage::from_bytes(puzzle_game_image(0x150)).unwrap();
    assert_eq!(Header::parse(&rom).licensee(), "Nintendo R&D1");
    let mut bytes = puzzle_game_image(0x150);
    bytes[0x14B] = 0x08;
    bytes[0x144] = b'A';
    bytes[0x145] = b'4';
    let rom = RomImage::from_bytes(bytes).unwrap();
    assert_eq!(Header::parse(&rom).licensee(), "Capcom");
}

#[test]
fn licensee_comes_from_the_new_code_where_the_old_one_is_0x33() {
    let rom = RomImage::from_bytes(role_playing_game_image(0x150)).unwrap();
    assert_eq!(Header::parse(&rom).licensee(), "Nintendo R&D1");
    let mut bytes = role_playing_game_image(0x150);
    bytes[0x144] = b'A';
    bytes[0x145] = b'4';
    let rom = RomImage::from_bytes(bytes).unwrap();
    assert_eq!(Header::parse(&rom).licensee(), "Konami (Yu-Gi-Oh!)");
    let mut bytes = role_playing_game_image(0x150);
    bytes[0x144] = 0x00;
    bytes[0x145] = 0x01;
    let rom = RomImage::from_bytes(bytes).unwrap();
    assert_eq!(Header::parse(&rom).licensee(), "Invalid code");
}

#[test]
fn verify_checksum_is_silent_where_the_checksums_agree() {
    let rom = RomImage::from_bytes(puzzle_game_image(0x150)).unwrap();
    assert_eq!(Header::parse(&rom).verify_checksum(&rom), None);
}

#[test]
fn verify_checksum_reports_both_values_where_they_differ() {
    let mut bytes = puzzle_game_image(0x150);
    bytes[0x14D] = 0x5A;
    let rom = RomImage::from_bytes(bytes).unwrap();
    assert_eq!(
        Header::parse(&rom).verify_checksum(&rom),
        Some(HeaderChecksumMismatch { stored: 0x5A, computed: 0x0B })
    );
}
