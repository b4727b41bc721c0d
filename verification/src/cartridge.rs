//! The cartridge as the bus sees it: one ROM image, its header, and one
//! controller, behind `read` and `write`.
//!
//! The cartridge is handed to whoever drives it as a value; nothing here is
//! global. The wall-clock time and the tilt of the motion sensor come from
//! outside, through `sync_clock` and `set_tilt`.
use vstd::prelude::*;
use crate::error::{CartridgeError, HeaderChecksumMismatch, RomLoadError};
use crate::header::{checksum_warning_spec, parse_spec, Header};
use crate::kind::{mapper_kind_spec, MapperKind};
use crate::mapper::Mapper;
use crate::model::{in_ram_window, in_rom_window, MapperView, OPEN_BUS, RAM_BASE, RAM_END, ROM_END};
use crate::rom::{file_view, RomImage, HEADER_END};
use crate::sizes::{
    declared_rom_banks, declared_rom_length, lemma_declared_sizes, rom_length, ROM_BANK_SIZE,
};

verus! {

/// A cartridge as a mathematical value: the ROM image and the controller. The
/// header is not part of it, since the image determines it.
pub struct CartridgeView {
    /// The bytes of the ROM image.
    pub rom: Seq<u8>,
    /// The controller.
    pub mapper: MapperView,
}

impl CartridgeView {
    /// The invariant of a cartridge: the image holds a whole header and has the
    /// length that its ROM size code declares, the controller is of the family that
    /// the type byte names and counts the banks of the image, and the controller's
    /// own invariant holds.
    pub open spec fn wf(self) -> bool {
        let header = parse_spec(self.rom);
        &&& self.rom.len() >= HEADER_END
        &&& declared_rom_length(header.rom_size_code) == Some(self.rom.len())
        &&& declared_rom_banks(header.rom_size_code) == Some(self.mapper.rom_banks)
        &&& self.rom.len() == ROM_BANK_SIZE * self.mapper.rom_banks
        &&& self.mapper.variant.kind_spec() == mapper_kind_spec(header.cartridge_type)
        &&& self.mapper.wf()
    }

    /// The cartridge that is built from the bytes of an image, or why none is.
    ///
    /// An image without a whole header is `TooShort`. A type byte for which no
    /// controller can be built is an `UnsupportedCartridgeType`. A ROM size code
    /// without a size is an `InvalidSizeCode`. An image whose length is not the
    /// length that its ROM size code declares is a `SizeMismatch`. A RAM size code
    /// without a size is an `InvalidSizeCode`, unless the controller does not look
    /// at it. The first of these that applies is the error. A wrong header checksum
    /// is not among them.
    pub open spec fn load_spec(bytes: Seq<u8>) -> Result<CartridgeView, CartridgeError> {
        if bytes.len() < HEADER_END {
            Err(CartridgeError::RomLoad(RomLoadError::TooShort))
        } else {
            let header = parse_spec(bytes);
            let kind = mapper_kind_spec(header.cartridge_type);
            if !kind.buildable() {
                Err(CartridgeError::UnsupportedCartridgeType)
            } else {
                match declared_rom_length(header.rom_size_code) {
                    None => Err(CartridgeError::InvalidSizeCode),
                    Some(length) => if bytes.len() != length {
                        Err(CartridgeError::RomLoad(RomLoadError::SizeMismatch))
                    } else {
                        match MapperView::build_spec(
                            kind,
                            header.rom_size_code,
                            header.ram_size_code,
                        ) {
                            Ok(mapper) => Ok(CartridgeView { rom: bytes, mapper }),
                            Err(error) => Err(error),
                        }
                    },
                }
            }
        }
    }

    /// What came of reading the image file, made into a cartridge: `NotFound` where
    /// the file could not be opened, and otherwise what `load_spec` makes of its
    /// bytes.
    pub open spec fn load_file_spec(contents: Option<Seq<u8>>) -> Result<
        CartridgeView,
        CartridgeError,
    > {
        match contents {
            None => Err(CartridgeError::RomLoad(RomLoadError::NotFound)),
            Some(bytes) => Self::load_spec(bytes),
        }
    }

    /// The byte that a read of `address` returns: in the ROM windows the byte of the
    /// image that the controller shows there, in the RAM window what the controller
    /// answers, and `OPEN_BUS` at every other address.
    pub open spec fn read(self, address: u16) -> u8 {
        if in_rom_window(address) {
            self.rom[self.mapper.rom_offset(address)]
        } else if in_ram_window(address) {
            self.mapper.read_ram(address)
        } else {
            OPEN_BUS
        }
    }

    /// The cartridge after a write of `value` to `address`: a write to the ROM
    /// windows goes to the control registers, a write to the RAM window goes to what
    /// the controller shows there, and a write to any other address changes nothing.
    /// The image never changes.
    pub open spec fn write(self, address: u16, value: u8) -> CartridgeView {
        if in_rom_window(address) {
            CartridgeView { mapper: self.mapper.control_write(address, value), ..self }
        } else if in_ram_window(address) {
            CartridgeView { mapper: self.mapper.write_ram(address, value), ..self }
        } else {
            self
        }
    }

    /// The cartridge after it is told that the wall-clock time is `now`.
    pub open spec fn sync_clock(self, now: u64) -> CartridgeView {
        CartridgeView { mapper: self.mapper.sync_clock(now), ..self }
    }

    /// The cartridge after it is told to count the time from `now`.
    pub open spec fn start_clock(self, now: u64) -> CartridgeView {
        CartridgeView { mapper: self.mapper.start_clock(now), ..self }
    }

    /// The cartridge after it is handed the tilt on both axes.
    pub open spec fn set_tilt(self, x: i16, y: i16) -> CartridgeView {
        CartridgeView { mapper: self.mapper.set_tilt(x, y), ..self }
    }

    /// The stored form of the battery-backed state.
    pub open spec fn persist(self) -> Seq<u8> {
        self.mapper.persist()
    }

    /// The cartridge with its battery-backed state read back from `buffer`, where
    /// the buffer has the length of a stored form; nothing otherwise.
    pub open spec fn restore(self, buffer: Seq<u8>) -> Option<CartridgeView> {
        match self.mapper.restore(buffer) {
            Some(mapper) => Some(CartridgeView { mapper, ..self }),
            None => None,
        }
    }
}

/// A loaded cartridge.
#[derive(Debug)]
pub struct Cartridge {
    rom: RomImage,
    header: Header,
    mapper: Mapper,
    warning: Option<HeaderChecksumMismatch>,
}

impl View for Cartridge {
    type V = CartridgeView;

    closed spec fn view(&self) -> CartridgeView {
        CartridgeView { rom: self.rom@, mapper: self.mapper@ }
    }
}

impl Cartridge {
    /// The cartridge's invariant: that of its view, a header that is the one in the
    /// image, and a warning that is the one the image earns.
    pub closed spec fn wf(&self) -> bool {
        &&& self@.wf()
        &&& self.header@ == parse_spec(self.rom@)
        &&& self.warning == checksum_warning_spec(self.header.header_checksum, self.rom@)
    }

    /// What the invariant says of the view.
    pub proof fn lemma_wf_view(&self)
        requires
            self.wf(),
        ensures
            self@.wf(),
    {
    }

    /// Builds the cartridge around a framed image.
    pub fn new(rom: RomImage) -> (result: Result<Cartridge, CartridgeError>)
        requires
            rom.wf(),
        ensures
            result matches Ok(cartridge) ==> CartridgeView::load_spec(rom@) == Ok::<
                CartridgeView,
                CartridgeError,
            >(cartridge@) && cartridge.wf(),
            result matches Err(error) ==> CartridgeView::load_spec(rom@) == Err::<
                CartridgeView,
                CartridgeError,
            >(error),
    {
        let header = Header::parse(&rom);
        let warning = header.verify_checksum(&rom);
        let kind = MapperKind::from_cartridge_type(header.cartridge_type);
        match kind {
            MapperKind::MMM01 | MapperKind::Unsupported => {
                return Err(CartridgeError::UnsupportedCartridgeType);
            },
            _ => {},
        }
        let declared: usize = match rom_length(header.rom_size_code) {
            Some(length) => length,
            None => {
                return Err(CartridgeError::InvalidSizeCode);
            },
        };
        if rom.len() != declared {
            return Err(CartridgeError::RomLoad(RomLoadError::SizeMismatch));
        }
        match Mapper::new(kind, header.rom_size_code, header.ram_size_code) {
            Ok(mapper) => {
                proof {
                    lemma_declared_sizes(header.rom_size_code);
                }
                Ok(Cartridge { rom, header, mapper, warning })
            },
            Err(error) => Err(error),
        }
    }

    /// The byte that a read of `address` returns.
    pub fn read(&self, address: u16) -> (value: u8)
        requires
            self.wf(),
        ensures
            value == self@.read(address),
    {
        if address < ROM_END {
            match self.mapper.translate_rom_address(address) {
                Some(offset) => match self.rom.byte(offset) {
                    Some(value) => value,
                    None => OPEN_BUS,
                },
                None => OPEN_BUS,
            }
        } else if RAM_BASE <= address && address < RAM_END {
            self.mapper.read_ram(address)
        } else {
            OPEN_BUS
        }
    }

    /// Handles a write of `value` to `address`.
    pub fn write(&mut self, address: u16, value: u8)
        requires
            old(self).wf(),
        ensures
            final(self)@ == old(self)@.write(address, value),
            final(self).wf(),
    {
        if address < ROM_END {
            self.mapper.handle_control_write(address, value);
        } else if RAM_BASE <= address && address < RAM_END {
            self.mapper.write_ram(address, value);
        }
    }

    /// Tells the cartridge that the wall-clock time is `now`, in seconds. A clock on
    /// the cartridge moves on by the seconds since it was last told.
    pub fn sync_clock(&mut self, now: u64)
        requires
            old(self).wf(),
        ensures
            final(self)@ == old(self)@.sync_clock(now),
            final(self).wf(),
    {
        self.mapper.sync_clock(now);
    }

    /// Tells the cartridge to count the time from `now`, in seconds: a clock on the
    /// cartridge keeps what it shows, and the time before `now` is never counted.
    /// This is for a cartridge that has no stored state to go on from.
    pub fn start_clock(&mut self, now: u64)
        requires
            old(self).wf(),
        ensures
            final(self)@ == old(self)@.start_clock(now),
            final(self).wf(),
    {
        self.mapper.start_clock(now);
    }

    /// Hands the cartridge the tilt on both axes, for the next latch of a motion
    /// sensor on it.
    pub fn set_tilt(&mut self, x: i16, y: i16)
        requires
            old(self).wf(),
        ensures
            final(self)@ == old(self)@.set_tilt(x, y),
            final(self).wf(),
    {
        self.mapper.set_tilt(x, y);
    }

    /// Whether the rumble motor is driven.
    pub fn rumble(&self) -> (on: bool)
        ensures
            on == self@.mapper.rumble(),
    {
        self.mapper.rumble()
    }

    /// The stored form of the battery-backed state, taken in one piece.
    pub fn persist(&self) -> (buffer: Vec<u8>)
        ensures
            buffer@ == self@.persist(),
    {
        self.mapper.persist()
    }

    /// Reads the battery-backed state back from `buffer`, where the buffer has the
    /// length of a stored form, and says whether it had. Otherwise nothing changes.
    pub fn restore(&mut self, buffer: &[u8]) -> (restored: bool)
        requires
            old(self).wf(),
        ensures
            restored <==> old(self)@.restore(buffer@) is Some,
            restored ==> final(self)@ == old(self)@.restore(buffer@)->0,
            !restored ==> final(self)@ == old(self)@,
            final(self).wf(),
    {
        self.mapper.restore(buffer)
    }

    /// The header.
    pub fn header(&self) -> (header: &Header)
        requires
            self.wf(),
        ensures
            header@ == parse_spec(self@.rom),
    {
        &self.header
    }

    /// The ROM image.
    pub fn rom(&self) -> (rom: &RomImage)
        ensures
            rom@ == self@.rom,
    {
        &self.rom
    }

    /// The controller.
    pub fn mapper(&self) -> (mapper: &Mapper)
        ensures
            mapper@ == self@.mapper,
    {
        &self.mapper
    }

    /// The length of the ROM image in bytes.
    pub fn rom_size(&self) -> (length: usize)
        ensures
            length == self@.rom.len(),
    {
        self.rom.len()
    }

    /// The length of the external RAM in bytes.
    pub fn ram_size(&self) -> (length: usize)
        ensures
            length == self@.mapper.ram.len(),
    {
        self.mapper.ram_len()
    }

    /// The warning that the header checksum earned when the cartridge was built:
    /// nothing where the stored checksum is the computed one.
    pub fn checksum_warning(&self) -> (warning: Option<HeaderChecksumMismatch>)
        requires
            self.wf(),
        ensures
            warning == checksum_warning_spec(parse_spec(self@.rom).header_checksum, self@.rom),
    {
        self.warning
    }
}

/// Makes a cartridge of what came of reading the image file: `contents` holds the
/// file's bytes, or nothing where the file could not be opened.
pub fn cartridge_load(contents: Option<Vec<u8>>) -> (result: Result<Cartridge, CartridgeError>)
    ensures
        result matches Ok(cartridge) ==> CartridgeView::load_file_spec(file_view(contents)) == Ok::<
            CartridgeView,
            CartridgeError,
        >(cartridge@) && cartridge.wf(),
        result matches Err(error) ==> CartridgeView::load_file_spec(file_view(contents)) == Err::<
            CartridgeView,
            CartridgeError,
        >(error),
{
    match RomImage::load(contents) {
        Ok(rom) => Cartridge::new(rom),
        Err(error) => Err(CartridgeError::RomLoad(error)),
    }
}

} // verus!
