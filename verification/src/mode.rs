//! Open-mode and attribute bit-sets of the firmware file interface.

use vstd::prelude::*;

verus! {

/// Open the file for reading.
pub const FILE_MODE_READ: u64 = 0x0000000000000001;

/// Open the file for writing.
pub const FILE_MODE_WRITE: u64 = 0x0000000000000002;

/// Create the file if it does not exist.
pub const FILE_MODE_CREATE: u64 = 0x8000000000000000;

/// The mode to open a file with: a bit-set over read, write and create.
///
/// Firmware accepts exactly three combinations: read alone, read with
/// write, and read with write and create.
#[derive(Clone, Copy, PartialEq, Eq, Structural, Debug)]
pub struct FileMode {
    pub bits: u64,
}

impl FileMode {
    /// The three open-mode combinations the firmware interface accepts.
    pub open spec fn spec_valid(self) -> bool {
        ||| self.bits == FILE_MODE_READ
        ||| self.bits == FILE_MODE_READ | FILE_MODE_WRITE
        ||| self.bits == FILE_MODE_READ | FILE_MODE_WRITE | FILE_MODE_CREATE
    }

    /// Whether this is one of the accepted open-mode combinations.
    pub fn is_valid(&self) -> (r: bool)
        ensures
            r == self.spec_valid(),
    {
        self.bits == FILE_MODE_READ
            || self.bits == FILE_MODE_READ | FILE_MODE_WRITE
            || self.bits == FILE_MODE_READ | FILE_MODE_WRITE | FILE_MODE_CREATE
    }

    /// Whether the write bit is set.
    pub fn is_writable(&self) -> (r: bool)
        ensures
            r == self.spec_writable(),
    {
        self.bits & FILE_MODE_WRITE == FILE_MODE_WRITE
    }

    /// Whether the create bit is set.
    pub fn has_create(&self) -> (r: bool)
        ensures
            r == self.spec_create(),
    {
        self.bits & FILE_MODE_CREATE == FILE_MODE_CREATE
    }

    /// The write bit, as a spec-level predicate.
    pub open spec fn spec_writable(self) -> bool {
        self.bits & FILE_MODE_WRITE == FILE_MODE_WRITE
    }

    /// The create bit, as a spec-level predicate.
    pub open spec fn spec_create(self) -> bool {
        self.bits & FILE_MODE_CREATE == FILE_MODE_CREATE
    }
}

/// No attribute bit set.
pub const FILE_ATTR_NONE: u64 = 0x0000000000000000;

/// The file may not be written.
pub const FILE_ATTR_READ_ONLY: u64 = 0x0000000000000001;

/// The file is hidden from normal directory listings.
pub const FILE_ATTR_HIDDEN: u64 = 0x0000000000000002;

/// The file belongs to the system.
pub const FILE_ATTR_SYSTEM: u64 = 0x0000000000000004;

/// Reserved attribute bit.
pub const FILE_ATTR_RESERVED: u64 = 0x0000000000000008;

/// The file is a directory.
pub const FILE_ATTR_DIRECTORY: u64 = 0x0000000000000010;

/// The file awaits archiving.
pub const FILE_ATTR_ARCHIVE: u64 = 0x0000000000000020;

/// The mask of attribute bits firmware honors.
pub const FILE_ATTR_VALID: u64 = 0x0000000000000037;

/// Attributes given to a file when it is created: a bit-set over the
/// `FILE_ATTR_` constants.  Meaningful only when the open mode carries the
/// create bit; firmware honors only the bits under [`FILE_ATTR_VALID`].
#[derive(Clone, Copy, PartialEq, Eq, Structural, Debug)]
pub struct FileAttribute {
    pub bits: u64,
}

impl FileAttribute {
    /// Whether every set bit is one firmware honors.
    pub fn is_valid(&self) -> (r: bool)
        ensures
            r == self.spec_is_valid(),
    {
        self.bits & !FILE_ATTR_VALID == 0
    }

    /// Whether every set bit is under the honored mask.
    pub open spec fn spec_is_valid(self) -> bool {
        self.bits & !FILE_ATTR_VALID == 0
    }
}

} // verus!
