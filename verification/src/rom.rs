//! The raw ROM image of a cartridge.
use vstd::prelude::*;
use crate::error::RomLoadError;

verus! {

/// The length of the shortest image that holds a whole header.
pub const HEADER_END: usize = 0x150;

/// What came of reading an image file, as a mathematical value: the file's
/// bytes, or nothing where the file could not be opened.
pub open spec fn file_view(contents: Option<Vec<u8>>) -> Option<Seq<u8>> {
    match contents {
        Some(bytes) => Some(bytes@),
        None => None,
    }
}

/// The bytes of a cartridge's ROM, unchanged after loading.
#[derive(Debug)]
pub struct RomImage {
    bytes: Vec<u8>,
}

impl View for RomImage {
    type V = Seq<u8>;

    closed spec fn view(&self) -> Seq<u8> {
        self.bytes@
    }
}

impl RomImage {
    /// The image's invariant: it holds a whole header.
    pub open spec fn wf(&self) -> bool {
        self@.len() >= HEADER_END
    }

    /// What loading makes of the outcome of reading the image file: `NotFound`
    /// where the file could not be opened, `TooShort` where it holds no whole
    /// header, and its bytes otherwise.
    pub open spec fn load_spec(contents: Option<Seq<u8>>) -> Result<Seq<u8>, RomLoadError> {
        match contents {
            None => Err(RomLoadError::NotFound),
            Some(bytes) => if bytes.len() < HEADER_END {
                Err(RomLoadError::TooShort)
            } else {
                Ok(bytes)
            },
        }
    }

    /// Frames the bytes of an image file. Nothing but the length is looked at.
    pub fn from_bytes(bytes: Vec<u8>) -> (result: Result<RomImage, RomLoadError>)
        ensures
            result matches Ok(rom) ==> rom@ == bytes@ && rom.wf(),
            result is Err <==> bytes@.len() < HEADER_END,
            result matches Err(error) ==> error == RomLoadError::TooShort,
    {
        if bytes.len() < HEADER_END {
            Err(RomLoadError::TooShort)
        } else {
            Ok(RomImage { bytes })
        }
    }

    /// Frames what came of reading the image file: `contents` holds the file's
    /// bytes, or nothing where the file could not be opened.
    pub fn load(contents: Option<Vec<u8>>) -> (result: Result<RomImage, RomLoadError>)
        ensures
            result matches Ok(rom) ==> Self::load_spec(file_view(contents)) == Ok::<
                Seq<u8>,
                RomLoadError,
            >(rom@) && rom.wf(),
            result matches Err(error) ==> Self::load_spec(file_view(contents)) == Err::<
                Seq<u8>,
                RomLoadError,
            >(error),
    {
        match contents {
            None => Err(RomLoadError::NotFound),
            Some(bytes) => Self::from_bytes(bytes),
        }
    }

    /// The number of bytes in the image.
    pub fn len(&self) -> (length: usize)
        ensures
            length == self@.len(),
    {
        self.bytes.len()
    }

    /// The byte at `offset`, if the image has one there.
    pub fn byte(&self, offset: usize) -> (value: Option<u8>)
        ensures
            value == (if offset < self@.len() {
                Some(self@[offset as int])
            } else {
                None
            }),
    {
        if offset < self.bytes.len() {
            Some(self.bytes[offset])
        } else {
            None
        }
    }

    /// All bytes of the image.
    pub fn as_slice(&self) -> (bytes: &[u8])
        ensures
            bytes@ == self@,
    {
        self.bytes.as_slice()
    }
}

} // verus!
