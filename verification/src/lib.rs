//! Cartridge and memory bank controller subsystem of an 8-bit handheld console.
//!
//! A raw ROM image is framed into a [`rom::RomImage`], its header is parsed into a
//! [`header::Header`], a [`mapper::Mapper`] is built from the header's type and size
//! codes, and the three are combined into a [`cartridge::Cartridge`] that answers
//! the bus's `read` and `write` requests.
pub mod cartridge;
pub mod error;
pub mod header;
pub mod kind;
pub mod laws;
pub mod licensee;
pub mod mapper;
pub mod model;
pub mod rom;
pub mod rtc;
pub mod sensor;
pub mod sizes;

pub use crate::cartridge::{cartridge_load, Cartridge, CartridgeView};
pub use crate::error::{CartridgeError, HeaderChecksumMismatch, RomLoadError};
pub use crate::header::Header;
pub use crate::kind::MapperKind;
pub use crate::licensee::LICENSE_CODE;
pub use crate::mapper::Mapper;
pub use crate::model::MapperView;
pub use crate::rom::RomImage;
