//! The memory bank controller as a mathematical value: its registers, its RAM,
//! and how it decodes the addresses of the ROM and RAM windows.
//!
//! The functions on [`MapperView`] say what every operation of a controller does.
//! The controller that runs is proved to do what they say.
use vstd::prelude::*;
use vstd::bytes::{spec_u64_from_le_bytes, spec_u64_to_le_bytes};
use crate::error::CartridgeError;
use crate::kind::MapperKind;
use crate::rtc::{is_rtc_select, Rtc, RtcRegisters, RTC_SAVE_SIZE};
use crate::sensor::Sensor;
use crate::sizes::{declared_ram_length, declared_rom_banks, is_bank_count};

verus! {

/// The first address past the ROM windows.
pub const ROM_END: u16 = 0x8000;

/// The first address of the external RAM window.
pub const RAM_BASE: u16 = 0xA000;

/// The first address past the external RAM window.
pub const RAM_END: u16 = 0xC000;

/// What a read returns where nothing answers.
pub const OPEN_BUS: u8 = 0xFF;

/// The low nibble that enables external RAM.
pub const RAM_ENABLE: u8 = 0x0A;

/// The value that sets the second RAM enable of the sensor controller.
pub const RAM_ENABLE_2: u8 = 0x40;

/// Half-byte cells built into an MBC2.
pub const MBC2_RAM_SIZE: usize = 512;

/// Whether `address` lies in the ROM windows.
pub open spec fn in_rom_window(address: u16) -> bool {
    address < ROM_END
}

/// Whether `address` lies in the external RAM window.
pub open spec fn in_ram_window(address: u16) -> bool {
    RAM_BASE <= address < RAM_END
}

/// The bank that a write of `bank` to a ROM bank register selects where bank 0
/// cannot be selected: bank 1 in place of bank 0.
pub open spec fn alias_zero_bank(bank: u8) -> u8 {
    if bank == 0 {
        1
    } else {
        bank
    }
}

/// What the bit masks of the bank registers amount to in arithmetic.
pub proof fn lemma_bank_masks(value: u8)
    ensures
        value & 0x1F < 32,
        value & 0x0F < 16,
        value & 0x7F < 128,
        value & 0x03 < 4,
        value & 0x07 < 8,
        value & 0x01 < 2,
{
    assert(value & 0x1F < 32 && value & 0x0F < 16 && value & 0x7F < 128 && value & 0x03 < 4
        && value & 0x07 < 8 && value & 0x01 < 2) by (bit_vector);
}

/// How an MBC1 uses its secondary register.
#[derive(Clone, Copy, Debug, PartialEq, Eq, Structural)]
pub enum BankingMode {
    /// The low ROM window shows bank 0 and RAM bank 0 is mapped.
    Simple,
    /// The secondary register picks the bank of the low ROM window and the RAM
    /// bank.
    Advanced,
}

/// The controller family together with the state that only that family has.
#[derive(Clone, Copy, Debug, PartialEq, Eq, Structural)]
pub enum Variant {
    /// No controller.
    RomOnly,
    /// MBC1, with its banking mode.
    Mbc1 { mode: BankingMode },
    /// MBC2.
    Mbc2,
    /// MBC3, with its clock.
    Mbc3 { rtc: Rtc },
    /// MBC5.
    Mbc5,
    /// MBC6, with the bank numbers of its second ROM window and second RAM window.
    Mbc6 { rom_bank_b: u8, ram_bank_b: u8 },
    /// MBC7, with its second RAM enable and its sensor.
    Mbc7 { ram_enabled_2: bool, sensor: Sensor },
}

impl Variant {
    /// The family's state when the console is switched on. A family that cannot
    /// be built has none, and is given that of a cartridge without controller.
    pub open spec fn initial_spec(kind: MapperKind) -> Variant {
        match kind {
            MapperKind::MBC1 => Variant::Mbc1 { mode: BankingMode::Simple },
            MapperKind::MBC2 => Variant::Mbc2,
            MapperKind::MBC3 => Variant::Mbc3 {
                rtc: Rtc {
                    live: RtcRegisters { seconds: 0, minutes: 0, hours: 0, day_low: 0, day_high: 0 },
                    latched: RtcRegisters {
                        seconds: 0,
                        minutes: 0,
                        hours: 0,
                        day_low: 0,
                        day_high: 0,
                    },
                    latch_armed: false,
                    timestamp: 0,
                },
            },
            MapperKind::MBC5 => Variant::Mbc5,
            MapperKind::MBC6 => Variant::Mbc6 { rom_bank_b: 0, ram_bank_b: 0 },
            MapperKind::MBC7 => Variant::Mbc7 {
                ram_enabled_2: false,
                sensor: Sensor {
                    tilt_x: 0,
                    tilt_y: 0,
                    latched_x: crate::sensor::SENSOR_ERASED,
                    latched_y: crate::sensor::SENSOR_ERASED,
                    latch_armed: false,
                },
            },
            _ => Variant::RomOnly,
        }
    }

    /// The family that the variant belongs to.
    pub open spec fn kind_spec(self) -> MapperKind {
        match self {
            Variant::RomOnly => MapperKind::RomOnly,
            Variant::Mbc1 { .. } => MapperKind::MBC1,
            Variant::Mbc2 => MapperKind::MBC2,
            Variant::Mbc3 { .. } => MapperKind::MBC3,
            Variant::Mbc5 => MapperKind::MBC5,
            Variant::Mbc6 { .. } => MapperKind::MBC6,
            Variant::Mbc7 { .. } => MapperKind::MBC7,
        }
    }
}

/// A controller as a mathematical value.
pub struct MapperView {
    /// The family, and the state that only it has.
    pub variant: Variant,
    /// The number of 16 KiB banks in the ROM.
    pub rom_banks: nat,
    /// The ROM bank register.
    pub rom_bank_number: u16,
    /// The RAM bank register; on an MBC1 this is the secondary register.
    pub ram_bank_number: u8,
    /// Whether external RAM has been enabled.
    pub ram_enabled: bool,
    /// The external RAM.
    pub ram: Seq<u8>,
}

impl MapperView {
    /// The invariant of a controller: a ROM of 2 to 512 banks, their number a
    /// power of two, at most 32 KiB of RAM, and in every register only the bits that
    /// the family's register has.
    pub open spec fn wf(self) -> bool {
        &&& is_bank_count(self.rom_banks)
        &&& self.ram.len() <= 0x8000
        &&& match self.variant {
            Variant::RomOnly => self.rom_bank_number == 1 && self.ram_bank_number == 0
                && self.ram_enabled == (self.ram.len() > 0),
            Variant::Mbc1 { .. } => 1 <= self.rom_bank_number < 32 && self.ram_bank_number < 4,
            Variant::Mbc2 => 1 <= self.rom_bank_number < 16 && self.ram_bank_number == 0
                && self.ram.len() == MBC2_RAM_SIZE,
            Variant::Mbc3 { rtc } => 1 <= self.rom_bank_number < 128 && (self.ram_bank_number < 4
                || is_rtc_select(self.ram_bank_number)) && rtc.wf(),
            Variant::Mbc5 => self.rom_bank_number < 512 && self.ram_bank_number < 16,
            Variant::Mbc6 { rom_bank_b, ram_bank_b } => self.rom_bank_number < 128 && rom_bank_b
                < 128 && self.ram_bank_number < 8 && ram_bank_b < 8,
            Variant::Mbc7 { .. } => self.rom_bank_number < 128 && self.ram_bank_number == 0,
        }
    }

    /// The controller that is built for a cartridge of family `kind` whose header
    /// holds the two size codes, or why none is built.
    ///
    /// No controller is built for a family that is not buildable, for a ROM size
    /// code without a size, or for a RAM size code without a size. An MBC2 has its
    /// own RAM and does not look at the RAM size code. A new controller has ROM bank
    /// 1 selected, RAM bank 0 selected, RAM disabled, and RAM filled with zeros.
    /// Without a controller nothing can enable the RAM, so RAM that exists is
    /// enabled from the start and stays so.
    pub open spec fn build_spec(kind: MapperKind, rom_size_code: u8, ram_size_code: u8) -> Result<
        MapperView,
        CartridgeError,
    > {
        if !kind.buildable() {
            Err(CartridgeError::UnsupportedCartridgeType)
        } else if declared_rom_banks(rom_size_code) is None {
            Err(CartridgeError::InvalidSizeCode)
        } else if kind != MapperKind::MBC2 && declared_ram_length(ram_size_code) is None {
            Err(CartridgeError::InvalidSizeCode)
        } else {
            let ram_len = if kind == MapperKind::MBC2 {
                MBC2_RAM_SIZE as nat
            } else {
                declared_ram_length(ram_size_code)->0
            };
            Ok(
                MapperView {
                    variant: Variant::initial_spec(kind),
                    rom_banks: declared_rom_banks(rom_size_code)->0,
                    rom_bank_number: 1,
                    ram_bank_number: 0,
                    ram_enabled: kind == MapperKind::RomOnly && ram_len > 0,
                    ram: Seq::new(ram_len, |i: int| 0u8),
                },
            )
        }
    }

    /// The offset into the ROM image of the byte that the ROM windows show at
    /// `address`.
    ///
    /// The low window shows bank 0, but for an MBC1 in advanced mode, where it shows
    /// the bank that is 32 times the secondary register. The high window shows the
    /// bank in the ROM bank register; on an MBC6 it is two windows of 8 KiB, each
    /// with a bank register of its own that counts banks of 8 KiB. A bank number is
    /// taken modulo the number of banks in the ROM.
    pub open spec fn rom_offset(self, address: u16) -> int
        recommends
            in_rom_window(address),
    {
        if address < 0x4000 {
            match self.variant {
                Variant::Mbc1 { mode: BankingMode::Advanced } => ((self.ram_bank_number * 32)
                    % (self.rom_banks as int)) * 0x4000 + address,
                _ => address as int,
            }
        } else {
            match self.variant {
                Variant::RomOnly => address as int,
                Variant::Mbc6 { rom_bank_b, .. } => if address < 0x6000 {
                    (self.rom_bank_number as int % (2 * self.rom_banks) as int) * 0x2000 + (address
                        - 0x4000)
                } else {
                    (rom_bank_b as int % (2 * self.rom_banks) as int) * 0x2000 + (address - 0x6000)
                },
                _ => (self.rom_bank_number as int % (self.rom_banks as int)) * 0x4000 + (address
                    - 0x4000),
            }
        }
    }

    /// `offset` where the RAM has a cell there, and nothing otherwise.
    pub open spec fn cell(self, offset: int) -> Option<int> {
        if 0 <= offset < self.ram.len() {
            Some(offset)
        } else {
            None
        }
    }

    /// The offset into the RAM of the cell that the RAM window shows at `address`,
    /// if it shows one.
    ///
    /// No cell is shown while RAM is disabled. Without a controller, and on an
    /// MBC2, the RAM is not banked. An MBC1 maps the bank in its secondary register
    /// in advanced mode and bank 0 in simple mode; an MBC3 maps a bank while a bank,
    /// and not a clock register, is selected; an MBC5 maps the bank in the low three
    /// bits of its RAM bank register; an MBC6 maps two windows of 4 KiB, each with
    /// its own bank register; an MBC7 maps no RAM. A cell that the RAM does not have
    /// is not shown.
    pub open spec fn ram_offset(self, address: u16) -> Option<int> {
        if !in_ram_window(address) {
            None
        } else {
            let offset = address - RAM_BASE;
            match self.variant {
                Variant::Mbc7 { .. } => None,
                _ => if !self.ram_enabled {
                    None
                } else {
                    match self.variant {
                        Variant::Mbc1 { mode: BankingMode::Advanced } => self.cell(
                            self.ram_bank_number * 0x2000 + offset,
                        ),
                        Variant::Mbc3 { .. } => if self.ram_bank_number < 4 {
                            self.cell(self.ram_bank_number * 0x2000 + offset)
                        } else {
                            None
                        },
                        Variant::Mbc5 => self.cell((self.ram_bank_number & 0x07) * 0x2000 + offset),
                        Variant::Mbc6 { ram_bank_b, .. } => if offset < 0x1000 {
                            self.cell(self.ram_bank_number * 0x1000 + offset)
                        } else {
                            self.cell(ram_bank_b * 0x1000 + (offset - 0x1000))
                        },
                        _ => self.cell(offset),
                    }
                },
            }
        }
    }

    /// What a cell that holds `stored` reads as: on an MBC2 the low nibble under a
    /// high nibble of ones, and otherwise the byte itself.
    pub open spec fn cell_read(self, stored: u8) -> u8 {
        if self.variant is Mbc2 {
            0xF0 | (stored & 0x0F)
        } else {
            stored
        }
    }

    /// What a cell holds after `value` is written to it: on an MBC2 the low nibble,
    /// and otherwise the byte itself.
    pub open spec fn cell_write(self, value: u8) -> u8 {
        if self.variant is Mbc2 {
            value & 0x0F
        } else {
            value
        }
    }

    /// The index of the sensor register that `address` names.
    pub open spec fn sensor_index(address: u16) -> u8 {
        ((address / 16) % 16) as u8
    }

    /// Whether the RAM window shows the sensor's register file at `address`: on an
    /// MBC7 with both RAM enables set, in the low half of the window.
    pub open spec fn shows_sensor(self, address: u16) -> bool {
        &&& self.variant matches Variant::Mbc7 { ram_enabled_2, .. }
        &&& self.ram_enabled
        &&& ram_enabled_2
        &&& RAM_BASE <= address < 0xB000
    }

    /// Whether the RAM window shows a clock register: on an MBC3 with RAM enabled
    /// and a clock register selected.
    pub open spec fn shows_clock(self, address: u16) -> bool {
        &&& self.variant is Mbc3
        &&& self.ram_enabled
        &&& is_rtc_select(self.ram_bank_number)
        &&& in_ram_window(address)
    }

    /// The byte that a read of `address` in the RAM window returns: the cell shown
    /// there, the latched clock register or the sensor register shown there, and
    /// `OPEN_BUS` where nothing is shown.
    pub open spec fn read_ram(self, address: u16) -> u8 {
        match self.ram_offset(address) {
            Some(offset) => self.cell_read(self.ram[offset]),
            None => match self.variant {
                Variant::Mbc3 { rtc } => if self.shows_clock(address) {
                    rtc.latched.register_spec(self.ram_bank_number)
                } else {
                    OPEN_BUS
                },
                Variant::Mbc7 { sensor, .. } => if self.shows_sensor(address) {
                    sensor.register_spec(Self::sensor_index(address))
                } else {
                    OPEN_BUS
                },
                _ => OPEN_BUS,
            },
        }
    }

    /// The controller after a write of `value` to `address` in the RAM window: the
    /// cell shown there takes the value, the live clock register or the sensor
    /// register shown there takes it, and where nothing is shown nothing changes.
    pub open spec fn write_ram(self, address: u16, value: u8) -> MapperView {
        match self.ram_offset(address) {
            Some(offset) => MapperView {
                ram: self.ram.update(offset, self.cell_write(value)),
                ..self
            },
            None => match self.variant {
                Variant::Mbc3 { rtc } => if self.shows_clock(address) {
                    MapperView {
                        variant: Variant::Mbc3 {
                            rtc: Rtc {
                                live: rtc.live.with_register_spec(self.ram_bank_number, value),
                                ..rtc
                            },
                        },
                        ..self
                    }
                } else {
                    self
                },
                Variant::Mbc7 { ram_enabled_2, sensor } => if self.shows_sensor(address) {
                    MapperView {
                        variant: Variant::Mbc7 {
                            ram_enabled_2,
                            sensor: sensor.write_register_spec(Self::sensor_index(address), value),
                        },
                        ..self
                    }
                } else {
                    self
                },
                _ => self,
            },
        }
    }

    /// Whether a write to `address` reaches the RAM enable register: with every
    /// controller it lies at `0x0000-0x1FFF`, but on an MBC6, where it lies at
    /// `0x0000-0x03FF`. Without a controller there is none.
    pub open spec fn is_ram_enable_address(self, address: u16) -> bool {
        match self.variant {
            Variant::RomOnly => false,
            Variant::Mbc6 { .. } => address < 0x0400,
            _ => address < 0x2000,
        }
    }

    /// The controller with RAM enabled where the low nibble of `value` is
    /// `RAM_ENABLE`, and disabled otherwise.
    pub open spec fn with_ram_enable(self, value: u8) -> MapperView {
        MapperView { ram_enabled: value & 0x0F == RAM_ENABLE, ..self }
    }

    /// The controller after a write of `value` to `address` in the ROM windows,
    /// where the control registers are. A write that reaches no register changes
    /// nothing.
    ///
    /// - Without a controller there is no register.
    /// - MBC1: `0x0000-0x1FFF` RAM enable; `0x2000-0x3FFF` ROM bank, five bits, 0
    ///   read as 1; `0x4000-0x5FFF` secondary register, two bits; `0x6000-0x7FFF`
    ///   banking mode, bit 0.
    /// - MBC2: `0x0000-0x1FFF` RAM enable; `0x2000-0x3FFF` ROM bank, four bits, 0
    ///   read as 1.
    /// - MBC3: `0x0000-0x1FFF` RAM and clock enable; `0x2000-0x3FFF` ROM bank, seven
    ///   bits, 0 read as 1; `0x4000-0x5FFF` selects RAM bank 0 to 3 or a clock
    ///   register; `0x6000-0x7FFF` clock latch.
    /// - MBC5: `0x0000-0x1FFF` RAM enable; `0x2000-0x2FFF` low eight bits of the ROM
    ///   bank; `0x3000-0x3FFF` its ninth bit; `0x4000-0x5FFF` RAM bank, four bits.
    /// - MBC6: `0x0000-0x03FF` RAM enable; `0x0400-0x07FF` and `0x0800-0x0BFF` bank
    ///   of the first and second RAM window, three bits; `0x2000-0x27FF` and
    ///   `0x3000-0x37FF` bank of the first and second ROM window, seven bits.
    /// - MBC7: `0x0000-0x1FFF` RAM enable; `0x2000-0x3FFF` ROM bank, seven bits;
    ///   `0x4000-0x5FFF` second RAM enable.
    pub open spec fn control_write(self, address: u16, value: u8) -> MapperView {
        match self.variant {
            Variant::RomOnly => self,
            Variant::Mbc1 { mode } => if address < 0x2000 {
                self.with_ram_enable(value)
            } else if address < 0x4000 {
                MapperView { rom_bank_number: alias_zero_bank(value & 0x1F) as u16, ..self }
            } else if address < 0x6000 {
                MapperView { ram_bank_number: value & 0x03, ..self }
            } else if address < 0x8000 {
                MapperView {
                    variant: Variant::Mbc1 {
                        mode: if value & 0x01 == 1 {
                            BankingMode::Advanced
                        } else {
                            BankingMode::Simple
                        },
                    },
                    ..self
                }
            } else {
                self
            },
            Variant::Mbc2 => if address < 0x2000 {
                self.with_ram_enable(value)
            } else if address < 0x4000 {
                MapperView { rom_bank_number: alias_zero_bank(value & 0x0F) as u16, ..self }
            } else {
                self
            },
            Variant::Mbc3 { rtc } => if address < 0x2000 {
                self.with_ram_enable(value)
            } else if address < 0x4000 {
                MapperView { rom_bank_number: alias_zero_bank(value & 0x7F) as u16, ..self }
            } else if address < 0x6000 {
                if value < 4 || is_rtc_select(value) {
                    MapperView { ram_bank_number: value, ..self }
                } else {
                    self
                }
            } else if address < 0x8000 {
                MapperView { variant: Variant::Mbc3 { rtc: rtc.latch_write_spec(value) }, ..self }
            } else {
                self
            },
            Variant::Mbc5 => if address < 0x2000 {
                self.with_ram_enable(value)
            } else if address < 0x3000 {
                MapperView {
                    rom_bank_number: ((self.rom_bank_number / 256) * 256 + value) as u16,
                    ..self
                }
            } else if address < 0x4000 {
                MapperView {
                    rom_bank_number: ((value & 0x01) * 256 + self.rom_bank_number % 256) as u16,
                    ..self
                }
            } else if address < 0x6000 {
                MapperView { ram_bank_number: value & 0x0F, ..self }
            } else {
                self
            },
            Variant::Mbc6 { rom_bank_b, ram_bank_b } => if address < 0x0400 {
                self.with_ram_enable(value)
            } else if address < 0x0800 {
                MapperView { ram_bank_number: value & 0x07, ..self }
            } else if address < 0x0C00 {
                MapperView {
                    variant: Variant::Mbc6 { rom_bank_b, ram_bank_b: value & 0x07 },
                    ..self
                }
            } else if address < 0x2000 {
                self
            } else if address < 0x2800 {
                MapperView { rom_bank_number: (value & 0x7F) as u16, ..self }
            } else if address < 0x3000 {
                self
            } else if address < 0x3800 {
                MapperView {
                    variant: Variant::Mbc6 { rom_bank_b: value & 0x7F, ram_bank_b },
                    ..self
                }
            } else {
                self
            },
            Variant::Mbc7 { ram_enabled_2, sensor } => if address < 0x2000 {
                self.with_ram_enable(value)
            } else if address < 0x4000 {
                MapperView { rom_bank_number: (value & 0x7F) as u16, ..self }
            } else if address < 0x6000 {
                MapperView {
                    variant: Variant::Mbc7 { ram_enabled_2: value == RAM_ENABLE_2, sensor },
                    ..self
                }
            } else {
                self
            },
        }
    }

    /// The controller after it is told that the wall-clock time is `now`, in
    /// seconds: a clock is brought up to date, and nothing else changes.
    pub open spec fn sync_clock(self, now: u64) -> MapperView {
        match self.variant {
            Variant::Mbc3 { rtc } => MapperView {
                variant: Variant::Mbc3 { rtc: rtc.sync_spec(now) },
                ..self
            },
            _ => self,
        }
    }

    /// The controller after it is told to count the time from `now`: a clock keeps
    /// its registers and takes `now` as the time they were brought up to date, and
    /// nothing else changes.
    pub open spec fn start_clock(self, now: u64) -> MapperView {
        match self.variant {
            Variant::Mbc3 { rtc } => MapperView {
                variant: Variant::Mbc3 { rtc: rtc.start_spec(now) },
                ..self
            },
            _ => self,
        }
    }

    /// The controller after it is handed the tilt on both axes: a sensor keeps it
    /// for the next latch, and nothing else changes.
    pub open spec fn set_tilt(self, x: i16, y: i16) -> MapperView {
        match self.variant {
            Variant::Mbc7 { ram_enabled_2, sensor } => MapperView {
                variant: Variant::Mbc7 {
                    ram_enabled_2,
                    sensor: Sensor { tilt_x: x, tilt_y: y, ..sensor },
                },
                ..self
            },
            _ => self,
        }
    }

    /// Whether the rumble motor is driven: on an MBC5, while bit 3 of the RAM bank
    /// register is set.
    pub open spec fn rumble(self) -> bool {
        self.variant is Mbc5 && self.ram_bank_number & 0x08 != 0
    }

    /// The clock of the controller, if it has one.
    pub open spec fn rtc(self) -> Option<Rtc> {
        match self.variant {
            Variant::Mbc3 { rtc } => Some(rtc),
            _ => None,
        }
    }

    /// The length of the stored form of the battery-backed state.
    pub open spec fn save_len(self) -> nat {
        if self.variant is Mbc3 {
            self.ram.len() + RTC_SAVE_SIZE as nat
        } else {
            self.ram.len()
        }
    }

    /// The stored form of the battery-backed state: the RAM, and after it, where
    /// there is a clock, the eight bytes of the live registers and the eight bytes
    /// of the timestamp, low byte first.
    pub open spec fn persist(self) -> Seq<u8> {
        match self.variant {
            Variant::Mbc3 { rtc } => self.ram + rtc.live.to_bytes_spec() + spec_u64_to_le_bytes(
                rtc.timestamp,
            ),
            _ => self.ram,
        }
    }

    /// The controller with its battery-backed state read back from `buffer`, where
    /// the buffer has the length of a stored form; nothing otherwise.
    ///
    /// The RAM, the live clock registers and the timestamp come from the buffer.
    /// Everything else stays: the bank registers, the latched clock registers, the
    /// state of the latch.
    pub open spec fn restore(self, buffer: Seq<u8>) -> Option<MapperView> {
        if buffer.len() != self.save_len() {
            None
        } else {
            let n = self.ram.len() as int;
            Some(
                match self.variant {
                    Variant::Mbc3 { rtc } => MapperView {
                        variant: Variant::Mbc3 {
                            rtc: Rtc {
                                live: RtcRegisters::from_bytes_spec(buffer.subrange(n, n + 8)),
                                timestamp: spec_u64_from_le_bytes(buffer.subrange(n + 8, n + 16)),
                                ..rtc
                            },
                        },
                        ram: buffer.subrange(0, n),
                        ..self
                    },
                    _ => MapperView { ram: buffer, ..self },
                },
            )
        }
    }
}

} // verus!
