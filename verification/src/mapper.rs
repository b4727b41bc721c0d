//! The memory bank controller that runs.
//!
//! Every operation of [`Mapper`] is proved to do what the function of the same
//! name on its view, a [`MapperView`], says.
use vstd::prelude::*;
use vstd::bytes::{u64_from_le_bytes, u64_to_le_bytes};
use vstd::slice::{slice_subrange, slice_to_vec};
use crate::error::CartridgeError;
use crate::kind::MapperKind;
use crate::model::{
    lemma_bank_masks, BankingMode, MapperView, Variant, MBC2_RAM_SIZE, OPEN_BUS, RAM_BASE,
    RAM_ENABLE, RAM_ENABLE_2, RAM_END, ROM_END,
};
use crate::rtc::{
    lemma_register_masks, Rtc, RtcRegisters, RTC_DAY_HIGH, RTC_SAVE_SIZE, RTC_SECONDS,
};
use crate::sensor::Sensor;
use crate::sizes::{lemma_declared_sizes, ram_length, rom_banks, ROM_BANK_SIZE};

verus! {

/// A memory bank controller: the banking registers, the family's own state, and
/// the external RAM.
#[derive(Debug)]
pub struct Mapper {
    variant: Variant,
    rom_banks: u16,
    rom_bank_number: u16,
    ram_bank_number: u8,
    ram_enabled: bool,
    ram: Vec<u8>,
}

impl View for Mapper {
    type V = MapperView;

    closed spec fn view(&self) -> MapperView {
        MapperView {
            variant: self.variant,
            rom_banks: self.rom_banks as nat,
            rom_bank_number: self.rom_bank_number,
            ram_bank_number: self.ram_bank_number,
            ram_enabled: self.ram_enabled,
            ram: self.ram@,
        }
    }
}

impl Mapper {
    /// The controller's invariant; see [`MapperView::wf`].
    pub open spec fn wf(&self) -> bool {
        self@.wf()
    }

    /// Builds the controller for a cartridge of family `kind` whose header holds
    /// the two size codes.
    pub fn new(kind: MapperKind, rom_size_code: u8, ram_size_code: u8) -> (result: Result<
        Mapper,
        CartridgeError,
    >)
        ensures
            result matches Ok(mapper) ==> MapperView::build_spec(kind, rom_size_code, ram_size_code)
                == Ok::<MapperView, CartridgeError>(mapper@) && mapper.wf(),
            result matches Err(error) ==> MapperView::build_spec(kind, rom_size_code, ram_size_code)
                == Err::<MapperView, CartridgeError>(error),
    {
        let variant = match kind {
            MapperKind::RomOnly => Variant::RomOnly,
            MapperKind::MBC1 => Variant::Mbc1 { mode: BankingMode::Simple },
            MapperKind::MBC2 => Variant::Mbc2,
            MapperKind::MBC3 => Variant::Mbc3 { rtc: Rtc::new() },
            MapperKind::MBC5 => Variant::Mbc5,
            MapperKind::MBC6 => Variant::Mbc6 { rom_bank_b: 0, ram_bank_b: 0 },
            MapperKind::MBC7 => Variant::Mbc7 { ram_enabled_2: false, sensor: Sensor::new() },
            MapperKind::MMM01 | MapperKind::Unsupported => {
                return Err(CartridgeError::UnsupportedCartridgeType);
            },
        };
        let banks: u16 = match rom_banks(rom_size_code) {
            Some(banks) => banks,
            None => {
                return Err(CartridgeError::InvalidSizeCode);
            },
        };
        let ram_len: usize = match kind {
            MapperKind::MBC2 => MBC2_RAM_SIZE,
            _ => match ram_length(ram_size_code) {
                Some(length) => length,
                None => {
                    return Err(CartridgeError::InvalidSizeCode);
                },
            },
        };
        proof {
            lemma_declared_sizes(rom_size_code);
            lemma_declared_sizes(ram_size_code);
        }
        let ram_enabled: bool = match kind {
            MapperKind::RomOnly => ram_len > 0,
            _ => false,
        };
        let ram: Vec<u8> = vec![0u8; ram_len];
        let mapper = Mapper {
            variant,
            rom_banks: banks,
            rom_bank_number: 1,
            ram_bank_number: 0,
            ram_enabled,
            ram,
        };
        assert(mapper@.ram =~= Seq::new(ram_len as nat, |i: int| 0u8));
        Ok(mapper)
    }

    /// The controller's family.
    pub fn kind(&self) -> (kind: MapperKind)
        ensures
            kind == self@.variant.kind_spec(),
    {
        match self.variant {
            Variant::RomOnly => MapperKind::RomOnly,
            Variant::Mbc1 { .. } => MapperKind::MBC1,
            Variant::Mbc2 => MapperKind::MBC2,
            Variant::Mbc3 { .. } => MapperKind::MBC3,
            Variant::Mbc5 => MapperKind::MBC5,
            Variant::Mbc6 { .. } => MapperKind::MBC6,
            Variant::Mbc7 { .. } => MapperKind::MBC7,
        }
    }

    /// The offset into the ROM image of the byte shown at `address`, where
    /// `address` lies in the ROM windows.
    pub fn translate_rom_address(&self, address: u16) -> (offset: Option<usize>)
        requires
            self.wf(),
        ensures
            offset is Some <==> address < ROM_END,
            offset matches Some(o) ==> o == self@.rom_offset(address) && o < ROM_BANK_SIZE
                * self@.rom_banks,
    {
        if address >= ROM_END {
            return None;
        }
        let banks: usize = self.rom_banks as usize;
        let low: usize = address as usize;
        if address < 0x4000 {
            match self.variant {
                Variant::Mbc1 { mode: BankingMode::Advanced } => {
                    let bank: usize = ((self.ram_bank_number as usize) * 32) % banks;
                    Some(bank * 0x4000 + low)
                },
                _ => Some(low),
            }
        } else {
            match self.variant {
                Variant::RomOnly => Some(low),
                Variant::Mbc6 { rom_bank_b, .. } => {
                    if address < 0x6000 {
                        let bank: usize = (self.rom_bank_number as usize) % (2 * banks);
                        Some(bank * 0x2000 + (low - 0x4000))
                    } else {
                        let bank: usize = (rom_bank_b as usize) % (2 * banks);
                        Some(bank * 0x2000 + (low - 0x6000))
                    }
                },
                _ => {
                    let bank: usize = (self.rom_bank_number as usize) % banks;
                    Some(bank * 0x4000 + (low - 0x4000))
                },
            }
        }
    }

    fn cell(&self, offset: usize) -> (cell: Option<usize>)
        ensures
            cell matches Some(o) ==> self@.cell(offset as int) == Some(o as int),
            cell is None ==> self@.cell(offset as int) is None,
    {
        if offset < self.ram.len() {
            Some(offset)
        } else {
            None
        }
    }

    /// The offset into the RAM of the cell shown at `address`, if one is shown
    /// there.
    pub fn translate_ram_address(&self, address: u16) -> (offset: Option<usize>)
        ensures
            offset matches Some(o) ==> self@.ram_offset(address) == Some(o as int) && o
                < self@.ram.len(),
            offset is None ==> self@.ram_offset(address) is None,
    {
        if address < RAM_BASE || address >= RAM_END {
            return None;
        }
        let offset: usize = (address - RAM_BASE) as usize;
        match self.variant {
            Variant::Mbc7 { .. } => None,
            _ => {
                if !self.ram_enabled {
                    return None;
                }
                let bank: usize = self.ram_bank_number as usize;
                match self.variant {
                    Variant::Mbc1 { mode: BankingMode::Advanced } => self.cell(
                        bank * 0x2000 + offset,
                    ),
                    Variant::Mbc3 { .. } => {
                        if self.ram_bank_number < 4 {
                            self.cell(bank * 0x2000 + offset)
                        } else {
                            None
                        }
                    },
                    Variant::Mbc5 => {
                        let low_bits: u8 = self.ram_bank_number & 0x07;
                        self.cell((low_bits as usize) * 0x2000 + offset)
                    },
                    Variant::Mbc6 { ram_bank_b, .. } => {
                        if offset < 0x1000 {
                            self.cell(bank * 0x1000 + offset)
                        } else {
                            self.cell((ram_bank_b as usize) * 0x1000 + (offset - 0x1000))
                        }
                    },
                    _ => self.cell(offset),
                }
            },
        }
    }

    /// The byte that a read of `address` in the RAM window returns.
    pub fn read_ram(&self, address: u16) -> (value: u8)
        ensures
            value == self@.read_ram(address),
    {
        match self.translate_ram_address(address) {
            Some(offset) => {
                let stored: u8 = self.ram[offset];
                match self.variant {
                    Variant::Mbc2 => 0xF0 | (stored & 0x0F),
                    _ => stored,
                }
            },
            None => {
                let in_window: bool = RAM_BASE <= address && address < RAM_END;
                match self.variant {
                    Variant::Mbc3 { rtc } => {
                        if self.ram_enabled && in_window && RTC_SECONDS <= self.ram_bank_number
                            && self.ram_bank_number <= RTC_DAY_HIGH {
                            rtc.latched.register(self.ram_bank_number)
                        } else {
                            OPEN_BUS
                        }
                    },
                    Variant::Mbc7 { ram_enabled_2, sensor } => {
                        if self.ram_enabled && ram_enabled_2 && RAM_BASE <= address && address
                            < 0xB000 {
                            sensor.register(((address / 16) % 16) as u8)
                        } else {
                            OPEN_BUS
                        }
                    },
                    _ => OPEN_BUS,
                }
            },
        }
    }

    /// Handles a write of `value` to `address` in the RAM window.
    pub fn write_ram(&mut self, address: u16, value: u8)
        ensures
            final(self)@ == old(self)@.write_ram(address, value),
            old(self).wf() ==> final(self).wf(),
    {
        match self.translate_ram_address(address) {
            Some(offset) => {
                let stored: u8 = match self.variant {
                    Variant::Mbc2 => value & 0x0F,
                    _ => value,
                };
                self.ram.set(offset, stored);
            },
            None => {
                let in_window: bool = RAM_BASE <= address && address < RAM_END;
                match self.variant {
                    Variant::Mbc3 { rtc } => {
                        if self.ram_enabled && in_window && RTC_SECONDS <= self.ram_bank_number
                            && self.ram_bank_number <= RTC_DAY_HIGH {
                            let mut clock = rtc;
                            clock.live.set_register(self.ram_bank_number, value);
                            self.variant = Variant::Mbc3 { rtc: clock };
                        }
                    },
                    Variant::Mbc7 { ram_enabled_2, sensor } => {
                        if self.ram_enabled && ram_enabled_2 && RAM_BASE <= address && address
                            < 0xB000 {
                            let mut next = sensor;
                            next.write_register(((address / 16) % 16) as u8, value);
                            self.variant = Variant::Mbc7 { ram_enabled_2, sensor: next };
                        }
                    },
                    _ => {},
                }
            },
        }
    }

    /// Handles a write of `value` to `address` in the ROM windows, where the
    /// control registers are.
    pub fn handle_control_write(&mut self, address: u16, value: u8)
        ensures
            final(self)@ == old(self)@.control_write(address, value),
            old(self).wf() ==> final(self).wf(),
    {
        proof {
            lemma_bank_masks(value);
        }
        let enable: bool = value & 0x0F == RAM_ENABLE;
        match self.variant {
            Variant::RomOnly => {},
            Variant::Mbc1 { .. } => {
                if address < 0x2000 {
                    self.ram_enabled = enable;
                } else if address < 0x4000 {
                    self.rom_bank_number = alias_zero(value & 0x1F) as u16;
                } else if address < 0x6000 {
                    self.ram_bank_number = value & 0x03;
                } else if address < 0x8000 {
                    let mode = if value & 0x01 == 1 {
                        BankingMode::Advanced
                    } else {
                        BankingMode::Simple
                    };
                    self.variant = Variant::Mbc1 { mode };
                }
            },
            Variant::Mbc2 => {
                if address < 0x2000 {
                    self.ram_enabled = enable;
                } else if address < 0x4000 {
                    self.rom_bank_number = alias_zero(value & 0x0F) as u16;
                }
            },
            Variant::Mbc3 { rtc } => {
                if address < 0x2000 {
                    self.ram_enabled = enable;
                } else if address < 0x4000 {
                    self.rom_bank_number = alias_zero(value & 0x7F) as u16;
                } else if address < 0x6000 {
                    if value < 4 || (RTC_SECONDS <= value && value <= RTC_DAY_HIGH) {
                        self.ram_bank_number = value;
                    }
                } else if address < 0x8000 {
                    let mut clock = rtc;
                    clock.latch_write(value);
                    self.variant = Variant::Mbc3 { rtc: clock };
                }
            },
            Variant::Mbc5 => {
                if address < 0x2000 {
                    self.ram_enabled = enable;
                } else if address < 0x3000 {
                    self.rom_bank_number = (self.rom_bank_number / 256) * 256 + (value as u16);
                } else if address < 0x4000 {
                    self.rom_bank_number = ((value & 0x01) as u16) * 256 + self.rom_bank_number
                        % 256;
                } else if address < 0x6000 {
                    self.ram_bank_number = value & 0x0F;
                }
            },
            Variant::Mbc6 { rom_bank_b, ram_bank_b } => {
                if address < 0x0400 {
                    self.ram_enabled = enable;
                } else if address < 0x0800 {
                    self.ram_bank_number = value & 0x07;
                } else if address < 0x0C00 {
                    self.variant = Variant::Mbc6 { rom_bank_b, ram_bank_b: value & 0x07 };
                } else if address < 0x2000 {
                    // No register of this controller is kept here.
                } else if address < 0x2800 {
                    self.rom_bank_number = (value & 0x7F) as u16;
                } else if address < 0x3000 {
                    // Nor here.
                } else if address < 0x3800 {
                    self.variant = Variant::Mbc6 { rom_bank_b: value & 0x7F, ram_bank_b };
                }
            },
            Variant::Mbc7 { sensor, .. } => {
                if address < 0x2000 {
                    self.ram_enabled = enable;
                } else if address < 0x4000 {
                    self.rom_bank_number = (value & 0x7F) as u16;
                } else if address < 0x6000 {
                    self.variant = Variant::Mbc7 { ram_enabled_2: value == RAM_ENABLE_2, sensor };
                }
            },
        }
    }

    /// Tells the controller that the wall-clock time is `now`, in seconds.
    pub fn sync_clock(&mut self, now: u64)
        ensures
            final(self)@ == old(self)@.sync_clock(now),
            old(self).wf() ==> final(self).wf(),
    {
        match self.variant {
            Variant::Mbc3 { rtc } => {
                let mut clock = rtc;
                clock.sync(now);
                self.variant = Variant::Mbc3 { rtc: clock };
            },
            _ => {},
        }
    }

    /// Tells the controller to count the time from `now`, in seconds, without
    /// moving a clock's registers.
    pub fn start_clock(&mut self, now: u64)
        ensures
            final(self)@ == old(self)@.start_clock(now),
            old(self).wf() ==> final(self).wf(),
    {
        match self.variant {
            Variant::Mbc3 { rtc } => {
                let mut clock = rtc;
                clock.start(now);
                self.variant = Variant::Mbc3 { rtc: clock };
            },
            _ => {},
        }
    }

    /// Hands the controller the tilt on both axes.
    pub fn set_tilt(&mut self, x: i16, y: i16)
        ensures
            final(self)@ == old(self)@.set_tilt(x, y),
            old(self).wf() ==> final(self).wf(),
    {
        match self.variant {
            Variant::Mbc7 { ram_enabled_2, sensor } => {
                let mut next = sensor;
                next.tilt_x = x;
                next.tilt_y = y;
                self.variant = Variant::Mbc7 { ram_enabled_2, sensor: next };
            },
            _ => {},
        }
    }

    /// Whether the rumble motor is driven.
    pub fn rumble(&self) -> (on: bool)
        ensures
            on == self@.rumble(),
    {
        match self.variant {
            Variant::Mbc5 => self.ram_bank_number & 0x08 != 0,
            _ => false,
        }
    }

    /// The stored form of the battery-backed state, taken in one piece.
    pub fn persist(&self) -> (buffer: Vec<u8>)
        ensures
            buffer@ == self@.persist(),
    {
        let mut buffer: Vec<u8> = slice_to_vec(self.ram.as_slice());
        match self.variant {
            Variant::Mbc3 { rtc } => {
                buffer.push(rtc.live.seconds);
                buffer.push(rtc.live.minutes);
                buffer.push(rtc.live.hours);
                buffer.push(rtc.live.day_low);
                buffer.push(rtc.live.day_high);
                buffer.push(0);
                buffer.push(0);
                buffer.push(0);
                let mut stamp: Vec<u8> = u64_to_le_bytes(rtc.timestamp);
                buffer.append(&mut stamp);
            },
            _ => {},
        }
        buffer
    }

    /// Reads the battery-backed state back from `buffer`, where the buffer has the
    /// length of a stored form, and says whether it had.
    pub fn restore(&mut self, buffer: &[u8]) -> (restored: bool)
        ensures
            restored <==> old(self)@.restore(buffer@) is Some,
            restored ==> final(self)@ == old(self)@.restore(buffer@)->0,
            !restored ==> final(self)@ == old(self)@,
            old(self).wf() ==> final(self).wf(),
    {
        let n: usize = self.ram.len();
        if buffer.len() < n {
            return false;
        }
        let extra: usize = buffer.len() - n;
        match self.variant {
            Variant::Mbc3 { rtc } => {
                if extra != RTC_SAVE_SIZE {
                    return false;
                }
                let live = RtcRegisters {
                    seconds: buffer[n] & 0x3F,
                    minutes: buffer[n + 1] & 0x3F,
                    hours: buffer[n + 2] & 0x1F,
                    day_low: buffer[n + 3],
                    day_high: buffer[n + 4] & 0xC1,
                };
                proof {
                    lemma_register_masks(buffer@[n as int]);
                    lemma_register_masks(buffer@[n + 1]);
                    lemma_register_masks(buffer@[n + 2]);
                    lemma_register_masks(buffer@[n + 4]);
                }
                let timestamp: u64 = u64_from_le_bytes(slice_subrange(buffer, n + 8, n + 16));
                self.variant = Variant::Mbc3 { rtc: Rtc { live, timestamp, ..rtc } };
                self.ram = slice_to_vec(slice_subrange(buffer, 0, n));
            },
            _ => {
                if extra != 0 {
                    return false;
                }
                self.ram = slice_to_vec(buffer);
            },
        }
        true
    }

    /// The ROM bank register.
    pub fn rom_bank_number(&self) -> (bank: u16)
        ensures
            bank == self@.rom_bank_number,
    {
        self.rom_bank_number
    }

    /// The RAM bank register.
    pub fn ram_bank_number(&self) -> (bank: u8)
        ensures
            bank == self@.ram_bank_number,
    {
        self.ram_bank_number
    }

    /// Whether external RAM has been enabled.
    pub fn ram_enabled(&self) -> (enabled: bool)
        ensures
            enabled == self@.ram_enabled,
    {
        self.ram_enabled
    }

    /// The banking mode of an MBC1; no other family has one.
    pub fn banking_mode(&self) -> (mode: Option<BankingMode>)
        ensures
            mode == (match self@.variant {
                Variant::Mbc1 { mode } => Some(mode),
                _ => None,
            }),
    {
        match self.variant {
            Variant::Mbc1 { mode } => Some(mode),
            _ => None,
        }
    }

    /// The clock, if the controller has one.
    pub fn rtc(&self) -> (rtc: Option<Rtc>)
        ensures
            rtc == self@.rtc(),
    {
        match self.variant {
            Variant::Mbc3 { rtc } => Some(rtc),
            _ => None,
        }
    }

    /// The number of 16 KiB banks in the ROM.
    pub fn rom_banks(&self) -> (banks: u16)
        ensures
            banks == self@.rom_banks,
    {
        self.rom_banks
    }

    /// The length of the external RAM in bytes.
    pub fn ram_len(&self) -> (length: usize)
        ensures
            length == self@.ram.len(),
    {
        self.ram.len()
    }
}

/// The bank that a write of `bank` selects where bank 0 cannot be selected.
fn alias_zero(bank: u8) -> (selected: u8)
    ensures
        selected == crate::model::alias_zero_bank(bank),
{
    if bank == 0 {
        1
    } else {
        bank
    }
}

} // verus!
