use gb_cartridge::cartridge::{cartridge_load, Cartridge};
use gb_cartridge::model::BankingMode;

/// An image whose every block of 8 KiB starts with its own number, low byte
/// first, and is otherwise filled with bytes that depend on their place.
fn image(cartridge_type: u8, rom_code: u8, ram_code: u8) -> Vec<u8> {
    let length = 0x8000usize << rom_code;
    let mut bytes: Vec<u8> = (0..length).map(|i| (i ^ (i >> 8) ^ (i >> 16)) as u8).collect();
    for block in 0..length / 0x2000 {
        bytes[block * 0x2000] = block as u8;
        bytes[block * 0x2000 + 1] = (block >> 8) as u8;
    }
    bytes[0x134..0x144].fill(0);
    bytes[0x134..0x138].copy_from_slice(b"BANK");
    bytes[0x147] = cartridge_type;
    bytes[0x148] = rom_code;
    bytes[0x149] = ram_code;
    let mut sum: u8 = 0;
    for offset in 0x134..=0x14C {
        sum = sum.wrapping_sub(bytes[offset]).wrapping_sub(1);
    }
    bytes[0x14D] = sum;
    bytes
}

fn load(cartridge_type: u8, rom_code: u8, ram_code: u8) -> Cartridge {
    cartridge_load(Some(image(cartridge_type, rom_code, ram_code))).unwrap()
}

/// The number of the 8 KiB block whose start is shown at `address`.
fn block_at(cartridge: &Cartridge, address: u16) -> usize {
    cartridge.read(address) as usize | (cartridge.read(address + 1) as usize) << 8
}

/// The number of the 16 KiB bank shown in the high ROM window.
fn high_bank(cartridge: &Cartridge) -> usize {
    let block = block_at(cartridge, 0x4000);
    assert_eq!(block % 2, 0);
    assert_eq!(block_at(cartridge, 0x6000), block + 1);
    block / 2
}

/// The number of the 16 KiB bank shown in the low ROM window.
fn low_bank(cartridge: &Cartridge) -> usize {
    let block = block_at(cartridge, 0x0000);
    assert_eq!(block % 2, 0);
    assert_eq!(block_at(cartridge, 0x2000), block + 1);
    block / 2
}

#[test]
fn addresses_outside_the_cartridge_read_open_bus_and_ignore_writes() {
    let mut cartridge = load(0x03, 1, 3);
    cartridge.write(0x0000, 0x0A);
    cartridge.write(0xA000, 0x42);
    let before = cartridge.persist();
    for address in [0x8000u16, 0x8001, 0x9FFF, 0xC000, 0xC001, 0xE000, 0xFFFE, 0xFFFF] {
        assert_eq!(cartridge.read(address), 0xFF);
        cartridge.write(address, 0x0A);
        cartridge.write(address, 0x00);
        assert_eq!(cartridge.read(address), 0xFF);
    }
    assert_eq!(cartridge.persist(), before);
    assert_eq!(cartridge.read(0xA000), 0x42);
    assert_eq!(high_bank(&cartridge), 1);
    assert!(cartridge.mapper().ram_enabled());
}

#[test]
fn rom_only_reads_the_image_as_it_is() {
    let bytes = image(0x00, 0, 0);
    let cartridge = cartridge_load(Some(bytes.clone())).unwrap();
    for address in 0u16..0x8000 {
        assert_eq!(cartridge.read(address), bytes[address as usize]);
    }
}

#[test]
fn rom_only_has_no_control_registers() {
    let bytes = image(0x00, 1, 0);
    let mut cartridge = cartridge_load(Some(bytes.clone())).unwrap();
    for address in [0x0000u16, 0x1FFF, 0x2000, 0x3000, 0x4000, 0x6000, 0x7FFF] {
        for value in [0x00u8, 0x01, 0x02, 0x03, 0x0A, 0xFF] {
            cartridge.write(address, value);
        }
    }
    assert_eq!(cartridge.mapper().rom_bank_number(), 1);
    assert_eq!(cartridge.mapper().ram_bank_number(), 0);
    for address in (0u16..0x8000).step_by(0x101) {
        assert_eq!(cartridge.read(address), bytes[address as usize]);
    }
}

#[test]
fn rom_only_without_ram_reads_open_bus_in_the_ram_window() {
    let mut cartridge = load(0x00, 0, 0);
    cartridge.write(0xA000, 0x12);
    assert_eq!(cartridge.read(0xA000), 0xFF);
    assert_eq!(cartridge.read(0xBFFF), 0xFF);
    assert_eq!(cartridge.persist(), Vec::<u8>::new());
}

#[test]
fn rom_only_ram_is_always_enabled_and_not_banked() {
    let mut cartridge = load(0x08, 0, 3);
    assert_eq!(cartridge.read(0xA000), 0x00);
    cartridge.write(0xA000, 0x11);
    cartridge.write(0xBFFF, 0x22);
    cartridge.write(0x0000, 0x00);
    cartridge.write(0x4000, 0x03);
    assert_eq!(cartridge.read(0xA000), 0x11);
    assert_eq!(cartridge.read(0xBFFF), 0x22);
    let stored = cartridge.persist();
    assert_eq!(stored.len(), 0x2000);
    assert_eq!(stored[0], 0x11);
    assert_eq!(stored[0x1FFF], 0x22);
}

#[test]
fn rom_only_shows_of_a_larger_ram_the_first_window_only() {
    let mut cartridge = load(0x09, 0, 5);
    cartridge.write(0xBFFF, 0x77);
    let stored = cartridge.persist();
    assert_eq!(stored.len(), 0x8000);
    assert_eq!(stored[0x1FFF], 0x77);
    assert!(stored[0x2000..].iter().all(|&byte| byte == 0));
}

#[test]
fn ram_smaller_than_the_window_reads_open_bus_past_its_end() {
    let mut cartridge = load(0x08, 0, 1);
    cartridge.write(0xA7FF, 0x55);
    cartridge.write(0xA800, 0x66);
    assert_eq!(cartridge.read(0xA7FF), 0x55);
    assert_eq!(cartridge.read(0xA800), 0xFF);
    assert_eq!(cartridge.read(0xBFFF), 0xFF);
    assert_eq!(cartridge.persist().len(), 0x800);
}

#[test]
fn mbc1_starts_with_bank_one_in_the_high_window() {
    let cartridge = load(0x01, 4, 0);
    assert_eq!(low_bank(&cartridge), 0);
    assert_eq!(high_bank(&cartridge), 1);
}

#[test]
fn mbc1_bank_zero_is_read_as_bank_one() {
    let mut cartridge = load(0x01, 4, 0);
    cartridge.write(0x2000, 0x05);
    assert_eq!(high_bank(&cartridge), 5);
    cartridge.write(0x2000, 0x00);
    assert_eq!(cartridge.mapper().rom_bank_number(), 1);
    assert_eq!(high_bank(&cartridge), 1);
    for value in [0x20u8, 0x40, 0x60, 0x80, 0xE0] {
        cartridge.write(0x3FFF, 0x07);
        assert_eq!(high_bank(&cartridge), 7);
        cartridge.write(0x3FFF, value);
        assert_eq!(high_bank(&cartridge), 1);
    }
}

#[test]
fn mbc1_selects_each_bank_with_the_low_five_bits() {
    let mut cartridge = load(0x01, 4, 0);
    for bank in 1u8..32 {
        cartridge.write(0x2000, bank);
        assert_eq!(cartridge.mapper().rom_bank_number(), bank as u16);
        assert_eq!(high_bank(&cartridge), bank as usize);
        cartridge.write(0x2ABC, bank | 0xE0);
        assert_eq!(high_bank(&cartridge), bank as usize);
        assert_eq!(low_bank(&cartridge), 0);
    }
}

#[test]
fn mbc1_reads_every_byte_of_the_selected_bank() {
    let bytes = image(0x01, 2, 0);
    let mut cartridge = cartridge_load(Some(bytes.clone())).unwrap();
    cartridge.write(0x2000, 0x06);
    for address in 0x4000u16..0x8000 {
        assert_eq!(cartridge.read(address), bytes[6 * 0x4000 + (address as usize - 0x4000)]);
    }
    for address in 0x0000u16..0x4000 {
        assert_eq!(cartridge.read(address), bytes[address as usize]);
    }
}

#[test]
fn mbc1_bank_number_is_taken_modulo_the_banks_present() {
    let mut cartridge = load(0x01, 1, 0);
    cartridge.write(0x2000, 5);
    assert_eq!(high_bank(&cartridge), 1);
    cartridge.write(0x2000, 7);
    assert_eq!(high_bank(&cartridge), 3);
    cartridge.write(0x2000, 4);
    assert_eq!(high_bank(&cartridge), 0);
    cartridge.write(0x2000, 0x1F);
    assert_eq!(high_bank(&cartridge), 3);
}

#[test]
fn mbc1_high_window_shows_the_bank_register_alone() {
    let mut cartridge = load(0x01, 6, 0);
    cartridge.write(0x2000, 0x02);
    for secondary in 0u8..4 {
        cartridge.write(0x4000, secondary);
        assert_eq!(high_bank(&cartridge), 2);
        cartridge.write(0x6000, 0x01);
        assert_eq!(high_bank(&cartridge), 2);
        cartridge.write(0x6000, 0x00);
    }
}

#[test]
fn mbc1_simple_mode_keeps_bank_zero_in_the_low_window() {
    let mut cartridge = load(0x01, 6, 0);
    assert_eq!(cartridge.mapper().banking_mode(), Some(BankingMode::Simple));
    for secondary in 0u8..4 {
        cartridge.write(0x4000, secondary);
        assert_eq!(cartridge.mapper().ram_bank_number(), secondary);
        assert_eq!(low_bank(&cartridge), 0);
    }
}

#[test]
fn mbc1_advanced_mode_banks_the_low_window_by_the_secondary_register() {
    let mut cartridge = load(0x01, 6, 0);
    cartridge.write(0x6000, 0x01);
    assert_eq!(cartridge.mapper().banking_mode(), Some(BankingMode::Advanced));
    assert_eq!(low_bank(&cartridge), 0);
    cartridge.write(0x4000, 1);
    assert_eq!(low_bank(&cartridge), 32);
    cartridge.write(0x5FFF, 2);
    assert_eq!(low_bank(&cartridge), 64);
    cartridge.write(0x4000, 3);
    assert_eq!(low_bank(&cartridge), 96);
    cartridge.write(0x4000, 0xFD);
    assert_eq!(low_bank(&cartridge), 32);
    cartridge.write(0x6000, 0x00);
    assert_eq!(cartridge.mapper().banking_mode(), Some(BankingMode::Simple));
    assert_eq!(low_bank(&cartridge), 0);
    cartridge.write(0x7FFF, 0xFF);
    assert_eq!(low_bank(&cartridge), 32);
    cartridge.write(0x7FFF, 0xFE);
    assert_eq!(low_bank(&cartridge), 0);
}

#[test]
fn mbc1_advanced_mode_reads_every_byte_of_the_low_window_bank() {
    let bytes = image(0x01, 5, 0);
    let mut cartridge = cartridge_load(Some(bytes.clone())).unwrap();
    cartridge.write(0x6000, 0x01);
    cartridge.write(0x4000, 0x01);
    for address in (0x0000u16..0x4000).step_by(7) {
        assert_eq!(cartridge.read(address), bytes[32 * 0x4000 + address as usize]);
    }
}

#[test]
fn mbc1_advanced_mode_takes_the_low_window_bank_modulo_the_banks_present() {
    let mut cartridge = load(0x01, 5, 0);
    cartridge.write(0x6000, 0x01);
    cartridge.write(0x4000, 1);
    assert_eq!(low_bank(&cartridge), 32);
    cartridge.write(0x4000, 2);
    assert_eq!(low_bank(&cartridge), 0);
    cartridge.write(0x4000, 3);
    assert_eq!(low_bank(&cartridge), 32);
    let mut small = load(0x01, 4, 0);
    small.write(0x6000, 0x01);
    for secondary in 1u8..4 {
        small.write(0x4000, secondary);
        assert_eq!(low_bank(&small), 0);
    }
}

#[test]
fn ram_is_enabled_by_the_low_nibble_0x0a_and_disabled_by_any_other() {
    let mut cartridge = load(0x03, 0, 3);
    assert!(!cartridge.mapper().ram_enabled());
    for value in [0x0Au8, 0x1A, 0xFA, 0x8A] {
        cartridge.write(0x0000, 0x00);
        assert!(!cartridge.mapper().ram_enabled());
        cartridge.write(0x1FFF, value);
        assert!(cartridge.mapper().ram_enabled());
    }
    for value in [0x00u8, 0x0B, 0xA0, 0xFF, 0x09, 0xAB] {
        cartridge.write(0x0000, 0x0A);
        cartridge.write(0x0123, value);
        assert!(!cartridge.mapper().ram_enabled());
    }
}

#[test]
fn disabled_ram_reads_open_bus_and_drops_writes() {
    let mut cartridge = load(0x03, 0, 3);
    cartridge.write(0xA000, 0x12);
    assert_eq!(cartridge.read(0xA000), 0xFF);
    assert_eq!(cartridge.read(0xBFFF), 0xFF);
    assert!(cartridge.persist().iter().all(|&byte| byte == 0));
    cartridge.write(0x0000, 0x0A);
    assert_eq!(cartridge.read(0xA000), 0x00);
}

#[test]
fn ram_pattern_across_all_banks_survives_disabling() {
    let mut cartridge = load(0x03, 0, 5);
    cartridge.write(0x6000, 0x01);
    cartridge.write(0x0000, 0x0A);
    for bank in 0u8..4 {
        cartridge.write(0x4000, bank);
        for address in 0xA000u16..0xC000 {
            cartridge.write(address, (address as u8) ^ (address >> 8) as u8 ^ (bank * 0x55));
        }
    }
    let stored = cartridge.persist();
    cartridge.write(0x0000, 0x00);
    for bank in 0u8..4 {
        cartridge.write(0x4000, bank);
        for address in (0xA000u16..0xC000).step_by(3) {
            assert_eq!(cartridge.read(address), 0xFF);
        }
    }
    assert_eq!(cartridge.persist(), stored);
    cartridge.write(0x0000, 0x0A);
    for bank in 0u8..4 {
        cartridge.write(0x4000, bank);
        for address in 0xA000u16..0xC000 {
            assert_eq!(
                cartridge.read(address),
                (address as u8) ^ (address >> 8) as u8 ^ (bank * 0x55)
            );
        }
    }
    assert_eq!(cartridge.persist(), stored);
}

#[test]
fn mbc1_simple_mode_maps_ram_bank_zero_only() {
    let mut cartridge = load(0x03, 0, 5);
    cartridge.write(0x0000, 0x0A);
    cartridge.write(0x4000, 0x02);
    cartridge.write(0xA010, 0x99);
    let stored = cartridge.persist();
    assert_eq!(stored[0x0010], 0x99);
    assert_eq!(stored[0x4010], 0x00);
    cartridge.write(0x6000, 0x01);
    assert_eq!(cartridge.read(0xA010), 0x00);
    cartridge.write(0xA010, 0x77);
    let stored = cartridge.persist();
    assert_eq!(stored[0x0010], 0x99);
    assert_eq!(stored[0x4010], 0x77);
}

#[test]
fn ram_bank_past_the_ram_reads_open_bus_and_drops_writes() {
    let mut cartridge = load(0x03, 0, 3);
    cartridge.write(0x0000, 0x0A);
    cartridge.write(0x6000, 0x01);
    cartridge.write(0xA000, 0x31);
    cartridge.write(0x4000, 0x01);
    assert_eq!(cartridge.read(0xA000), 0xFF);
    cartridge.write(0xA000, 0x32);
    cartridge.write(0x4000, 0x00);
    assert_eq!(cartridge.read(0xA000), 0x31);
    assert_eq!(cartridge.persist().len(), 0x2000);
}

#[test]
fn control_writes_never_touch_the_ram() {
    for cartridge_type in [0x03u8, 0x06, 0x10, 0x1B, 0x20] {
        let mut cartridge = load(cartridge_type, 1, 3);
        cartridge.write(0x0000, 0x0A);
        cartridge.write(0xA000, 0x5C);
        cartridge.write(0xA1FF, 0x3E);
        let stored = cartridge.persist();
        for address in (0x0000u16..0x8000).step_by(0x3FF) {
            for value in [0x00u8, 0x01, 0x0A, 0x55, 0xFF] {
                cartridge.write(address, value);
            }
        }
        let after = cartridge.persist();
        assert_eq!(after[..stored.len().min(0x2000)], stored[..stored.len().min(0x2000)]);
    }
}

#[test]
fn mbc2_selects_banks_with_four_bits_and_reads_zero_as_one() {
    let mut cartridge = load(0x05, 3, 0);
    assert_eq!(high_bank(&cartridge), 1);
    for bank in 1u8..16 {
        cartridge.write(0x2000, bank);
        assert_eq!(high_bank(&cartridge), bank as usize);
        cartridge.write(0x3FFF, bank | 0xF0);
        assert_eq!(high_bank(&cartridge), bank as usize);
    }
    cartridge.write(0x2000, 0x00);
    assert_eq!(high_bank(&cartridge), 1);
    cartridge.write(0x2000, 0x10);
    assert_eq!(high_bank(&cartridge), 1);
    assert_eq!(low_bank(&cartridge), 0);
    cartridge.write(0x4000, 0x03);
    cartridge.write(0x6000, 0x01);
    assert_eq!(low_bank(&cartridge), 0);
    assert_eq!(cartridge.mapper().ram_bank_number(), 0);
}

#[test]
fn mbc2_ram_holds_512_half_bytes() {
    let mut cartridge = load(0x06, 0, 0);
    assert_eq!(cartridge.read(0xA000), 0xFF);
    cartridge.write(0x0000, 0x0A);
    assert_eq!(cartridge.read(0xA000), 0xF0);
    cartridge.write(0xA000, 0xAB);
    cartridge.write(0xA1FF, 0x07);
    cartridge.write(0xA200, 0x05);
    assert_eq!(cartridge.read(0xA000), 0xFB);
    assert_eq!(cartridge.read(0xA1FF), 0xF7);
    assert_eq!(cartridge.read(0xA200), 0xFF);
    assert_eq!(cartridge.read(0xBFFF), 0xFF);
    let stored = cartridge.persist();
    assert_eq!(stored.len(), 512);
    assert_eq!(stored[0], 0x0B);
    assert_eq!(stored[511], 0x07);
    for value in 0u8..=255 {
        cartridge.write(0xA100, value);
        assert_eq!(cartridge.read(0xA100), 0xF0 | (value & 0x0F));
    }
}

#[test]
fn mbc5_selects_bank_zero_as_it_is() {
    let mut cartridge = load(0x19, 3, 0);
    assert_eq!(high_bank(&cartridge), 1);
    cartridge.write(0x2000, 0x00);
    assert_eq!(cartridge.mapper().rom_bank_number(), 0);
    assert_eq!(high_bank(&cartridge), 0);
    assert_eq!(low_bank(&cartridge), 0);
}

#[test]
fn mbc5_bank_register_has_nine_bits_in_two_registers() {
    let mut cartridge = load(0x19, 8, 0);
    cartridge.write(0x2000, 0x23);
    assert_eq!(high_bank(&cartridge), 0x023);
    cartridge.write(0x3000, 0x01);
    assert_eq!(cartridge.mapper().rom_bank_number(), 0x123);
    assert_eq!(high_bank(&cartridge), 0x123);
    cartridge.write(0x2FFF, 0xFF);
    assert_eq!(high_bank(&cartridge), 0x1FF);
    cartridge.write(0x3FFF, 0xFE);
    assert_eq!(high_bank(&cartridge), 0x0FF);
    cartridge.write(0x3000, 0xFF);
    assert_eq!(high_bank(&cartridge), 0x1FF);
    cartridge.write(0x2000, 0x00);
    assert_eq!(high_bank(&cartridge), 0x100);
    cartridge.write(0x3000, 0x00);
    assert_eq!(high_bank(&cartridge), 0x000);
    assert_eq!(low_bank(&cartridge), 0);
}

#[test]
fn mbc5_bank_number_is_taken_modulo_the_banks_present() {
    let mut cartridge = load(0x19, 2, 0);
    cartridge.write(0x2000, 0x0B);
    assert_eq!(high_bank(&cartridge), 3);
    cartridge.write(0x3000, 0x01);
    assert_eq!(high_bank(&cartridge), 3);
    cartridge.write(0x2000, 0x08);
    assert_eq!(high_bank(&cartridge), 0);
}

#[test]
fn mbc5_banks_its_ram_and_ignores_the_mode_region() {
    let mut cartridge = load(0x1B, 0, 5);
    cartridge.write(0x0000, 0x0A);
    for bank in 0u8..4 {
        cartridge.write(0x4000, bank);
        cartridge.write(0xA000, 0xC0 | bank);
    }
    cartridge.write(0x6000, 0x01);
    cartridge.write(0x7FFF, 0xFF);
    for bank in 0u8..4 {
        cartridge.write(0x5FFF, bank);
        assert_eq!(cartridge.mapper().ram_bank_number(), bank);
        assert_eq!(cartridge.read(0xA000), 0xC0 | bank);
    }
    let stored = cartridge.persist();
    assert_eq!(stored[0x0000], 0xC0);
    assert_eq!(stored[0x2000], 0xC1);
    assert_eq!(stored[0x4000], 0xC2);
    assert_eq!(stored[0x6000], 0xC3);
    cartridge.write(0x4000, 0x04);
    assert_eq!(cartridge.read(0xA000), 0xFF);
}

#[test]
fn mbc5_drives_the_rumble_motor_with_bit_three_of_the_ram_bank_register() {
    let mut cartridge = load(0x1E, 0, 5);
    cartridge.write(0x0000, 0x0A);
    cartridge.write(0x4000, 0x02);
    cartridge.write(0xA000, 0x66);
    assert!(!cartridge.rumble());
    cartridge.write(0x4000, 0x0A);
    assert!(cartridge.rumble());
    assert_eq!(cartridge.mapper().ram_bank_number(), 0x0A);
    assert_eq!(cartridge.read(0xA000), 0x66);
    cartridge.write(0x4000, 0x08);
    assert!(cartridge.rumble());
    assert_eq!(cartridge.read(0xA000), 0x00);
    cartridge.write(0x4000, 0xF7);
    assert!(!cartridge.rumble());
    assert_eq!(cartridge.mapper().ram_bank_number(), 0x07);
}

#[test]
fn only_an_mbc5_drives_a_rumble_motor() {
    for cartridge_type in [0x00u8, 0x03, 0x06, 0x10, 0x20, 0x22] {
        let mut cartridge = load(cartridge_type, 0, 0);
        cartridge.write(0x4000, 0x08);
        cartridge.write(0x0400, 0x08);
        assert!(!cartridge.rumble());
    }
}

#[test]
fn mbc6_shows_two_rom_windows_of_8_kib() {
    let mut cartridge = load(0x20, 2, 0);
    assert_eq!(block_at(&cartridge, 0x0000), 0);
    assert_eq!(block_at(&cartridge, 0x2000), 1);
    assert_eq!(block_at(&cartridge, 0x4000), 1);
    assert_eq!(block_at(&cartridge, 0x6000), 0);
    cartridge.write(0x2000, 5);
    assert_eq!(block_at(&cartridge, 0x4000), 5);
    assert_eq!(block_at(&cartridge, 0x6000), 0);
    cartridge.write(0x3000, 7);
    assert_eq!(block_at(&cartridge, 0x4000), 5);
    assert_eq!(block_at(&cartridge, 0x6000), 7);
    cartridge.write(0x27FF, 0x13);
    assert_eq!(block_at(&cartridge, 0x4000), 3);
    cartridge.write(0x37FF, 0x8F);
    assert_eq!(block_at(&cartridge, 0x6000), 15);
    cartridge.write(0x2000, 0);
    assert_eq!(block_at(&cartridge, 0x4000), 0);
    assert_eq!(block_at(&cartridge, 0x0000), 0);
    assert_eq!(block_at(&cartridge, 0x2000), 1);
}

#[test]
fn mbc6_reads_every_byte_of_both_windows() {
    let bytes = image(0x20, 1, 0);
    let mut cartridge = cartridge_load(Some(bytes.clone())).unwrap();
    cartridge.write(0x2000, 6);
    cartridge.write(0x3000, 3);
    for offset in 0usize..0x2000 {
        assert_eq!(cartridge.read(0x4000 + offset as u16), bytes[6 * 0x2000 + offset]);
        assert_eq!(cartridge.read(0x6000 + offset as u16), bytes[3 * 0x2000 + offset]);
    }
}

#[test]
fn mbc6_ignores_writes_that_reach_no_register() {
    let mut cartridge = load(0x20, 2, 5);
    cartridge.write(0x2000, 5);
    cartridge.write(0x3000, 7);
    cartridge.write(0x0400, 2);
    cartridge.write(0x0800, 3);
    for address in [0x0C00u16, 0x1000, 0x1FFF, 0x2800, 0x2FFF, 0x3800, 0x3FFF, 0x4000, 0x7FFF] {
        cartridge.write(address, 0x0A);
        cartridge.write(address, 0x01);
    }
    assert_eq!(block_at(&cartridge, 0x4000), 5);
    assert_eq!(block_at(&cartridge, 0x6000), 7);
    assert_eq!(cartridge.mapper().ram_bank_number(), 2);
    assert!(!cartridge.mapper().ram_enabled());
}

#[test]
fn mbc6_shows_two_ram_windows_of_4_kib() {
    let mut cartridge = load(0x20, 0, 5);
    cartridge.write(0x03FF, 0x0A);
    assert!(cartridge.mapper().ram_enabled());
    cartridge.write(0x0400, 2);
    cartridge.write(0x0800, 5);
    cartridge.write(0xA000, 0xA1);
    cartridge.write(0xAFFF, 0xA2);
    cartridge.write(0xB000, 0xB1);
    cartridge.write(0xBFFF, 0xB2);
    assert_eq!(cartridge.read(0xA000), 0xA1);
    assert_eq!(cartridge.read(0xBFFF), 0xB2);
    let stored = cartridge.persist();
    assert_eq!(stored[0x2000], 0xA1);
    assert_eq!(stored[0x2FFF], 0xA2);
    assert_eq!(stored[0x5000], 0xB1);
    assert_eq!(stored[0x5FFF], 0xB2);
    cartridge.write(0x07FF, 0xFD);
    cartridge.write(0x0BFF, 0xFA);
    assert_eq!(cartridge.read(0xA000), 0xB1);
    assert_eq!(cartridge.read(0xB000), 0xA1);
    cartridge.write(0x0000, 0x00);
    assert_eq!(cartridge.read(0xA000), 0xFF);
    assert_eq!(cartridge.read(0xB000), 0xFF);
}

#[test]
fn mbc7_selects_banks_with_seven_bits() {
    let mut cartridge = load(0x22, 6, 0);
    assert_eq!(high_bank(&cartridge), 1);
    cartridge.write(0x2000, 0x7F);
    assert_eq!(high_bank(&cartridge), 0x7F);
    cartridge.write(0x3FFF, 0x85);
    assert_eq!(high_bank(&cartridge), 0x05);
    cartridge.write(0x2000, 0x00);
    assert_eq!(high_bank(&cartridge), 0);
    assert_eq!(low_bank(&cartridge), 0);
}

#[test]
fn mbc7_sensor_needs_both_ram_enables() {
    let mut cartridge = load(0x22, 0, 0);
    assert_eq!(cartridge.read(0xA020), 0xFF);
    cartridge.write(0x0000, 0x0A);
    assert_eq!(cartridge.read(0xA020), 0xFF);
    cartridge.write(0x4000, 0x40);
    assert_eq!(cartridge.read(0xA020), 0x00);
    assert_eq!(cartridge.read(0xA030), 0x80);
    cartridge.write(0x0000, 0x00);
    assert_eq!(cartridge.read(0xA030), 0xFF);
    cartridge.write(0x0000, 0x0A);
    cartridge.write(0x4000, 0x41);
    assert_eq!(cartridge.read(0xA030), 0xFF);
}

#[test]
fn mbc7_latches_the_neutral_reading_without_an_input_device() {
    let mut cartridge = load(0x22, 0, 0);
    cartridge.write(0x0000, 0x0A);
    cartridge.write(0x4000, 0x40);
    assert_eq!(cartridge.read(0xA020), 0x00);
    assert_eq!(cartridge.read(0xA030), 0x80);
    assert_eq!(cartridge.read(0xA040), 0x00);
    assert_eq!(cartridge.read(0xA050), 0x80);
    cartridge.write(0xA000, 0x55);
    cartridge.write(0xA010, 0xAA);
    assert_eq!(cartridge.read(0xA020), 0xD0);
    assert_eq!(cartridge.read(0xA030), 0x81);
    assert_eq!(cartridge.read(0xA040), 0xD0);
    assert_eq!(cartridge.read(0xA050), 0x81);
    assert_eq!(cartridge.read(0xA060), 0x00);
    assert_eq!(cartridge.read(0xA070), 0xFF);
    assert_eq!(cartridge.read(0xA080), 0xFF);
    assert_eq!(cartridge.read(0xAF2F), 0xD0);
    assert_eq!(cartridge.read(0xB020), 0xFF);
}

#[test]
fn mbc7_latches_the_tilt_that_was_handed_in() {
    let mut cartridge = load(0x22, 0, 0);
    cartridge.write(0x0000, 0x0A);
    cartridge.write(0x4000, 0x40);
    cartridge.set_tilt(0x0010, -0x0010);
    assert_eq!(cartridge.read(0xA030), 0x80);
    cartridge.write(0xA000, 0x55);
    cartridge.write(0xA010, 0xAA);
    assert_eq!(cartridge.read(0xA020), 0xE0);
    assert_eq!(cartridge.read(0xA030), 0x81);
    assert_eq!(cartridge.read(0xA040), 0xC0);
    assert_eq!(cartridge.read(0xA050), 0x81);
    cartridge.set_tilt(i16::MAX, i16::MIN);
    assert_eq!(cartridge.read(0xA020), 0xE0);
    cartridge.write(0xA010, 0xAA);
    assert_eq!(cartridge.read(0xA020), 0xE0);
    cartridge.write(0xA000, 0x55);
    assert_eq!(cartridge.read(0xA020), 0x00);
    assert_eq!(cartridge.read(0xA030), 0x80);
    cartridge.write(0xA010, 0xAA);
    // 0x81D0 + 0x7FFF = 0x101CF, which is 0x01CF in sixteen bits.
    assert_eq!(cartridge.read(0xA020), 0xCF);
    assert_eq!(cartridge.read(0xA030), 0x01);
    // 0x81D0 - 0x8000 = 0x01D0.
    assert_eq!(cartridge.read(0xA040), 0xD0);
    assert_eq!(cartridge.read(0xA050), 0x01);
}

#[test]
fn mbc7_latch_needs_the_erase_first_and_the_right_values() {
    let mut cartridge = load(0x22, 0, 0);
    cartridge.write(0x0000, 0x0A);
    cartridge.write(0x4000, 0x40);
    cartridge.write(0xA010, 0xAA);
    assert_eq!(cartridge.read(0xA030), 0x80);
    cartridge.write(0xA000, 0x54);
    cartridge.write(0xA010, 0xAA);
    assert_eq!(cartridge.read(0xA030), 0x80);
    cartridge.write(0xA000, 0x55);
    cartridge.write(0xA010, 0xAB);
    assert_eq!(cartridge.read(0xA030), 0x80);
    cartridge.write(0xA020, 0xAA);
    assert_eq!(cartridge.read(0xA030), 0x80);
    cartridge.write(0xA010, 0xAA);
    assert_eq!(cartridge.read(0xA030), 0x81);
}

#[test]
fn tilt_means_nothing_to_a_cartridge_without_a_sensor() {
    let mut cartridge = load(0x1B, 0, 3);
    cartridge.write(0x0000, 0x0A);
    cartridge.write(0xA020, 0x12);
    cartridge.set_tilt(100, -100);
    assert_eq!(cartridge.read(0xA020), 0x12);
    assert_eq!(cartridge.read(0xA030), 0x00);
}
