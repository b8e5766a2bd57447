//! Status codes returned by the firmware file interface.

use vstd::prelude::*;

verus! {

/// Outcome of a firmware file operation.
///
/// Every entry point of the firmware file interface reports one of these
/// codes.  `Success` is the only code that stands for a completed operation;
/// `WarnDeleteFailure` is a warning (the handle was closed, but the file
/// could not be deleted); the rest are errors.
#[derive(Clone, Copy, PartialEq, Eq, Structural, Debug)]
pub enum Status {
    /// The operation completed.
    Success,
    /// The handle was closed, but deleting the file failed.
    WarnDeleteFailure,
    /// A parameter was malformed, e.g. an over-long filename.
    InvalidParameter,
    /// The request is not supported on this handle or volume.
    Unsupported,
    /// No file of the given name exists.
    NotFound,
    /// The device has no media.
    NoMedia,
    /// The device holds a different medium than before.
    MediaChanged,
    /// The device reported an error, e.g. the handle's file is gone.
    DeviceError,
    /// The filesystem structures are corrupted.
    VolumeCorrupted,
    /// A write or create touched a write-protected file or medium.
    WriteProtected,
    /// The service denied access to the file.
    AccessDenied,
    /// Not enough resources to complete the request.
    OutOfResources,
    /// The volume is full.
    VolumeFull,
    /// A fixed-size buffer was too small for the request.
    BufferTooSmall,
}

impl Status {
    /// Whether this code stands for a completed operation.
    pub fn is_success(&self) -> (r: bool)
        ensures
            r == (*self == Status::Success),
    {
        matches!(*self, Status::Success)
    }
}

} // verus!
