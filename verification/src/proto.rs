//! The typed bindings over the firmware file interface.
//!
//! [`FileImpl`] stands for the firmware side: one method per entry-point
//! slot of the two firmware tables (the volume table's single open-volume
//! slot and the per-file table's slots), each keyed by the raw handle the
//! slot's first argument points at.  [`SimpleFileSystem`] owns a device
//! implementing that interface, and [`File`] is an open handle on it.  The
//! consuming signatures of [`File::close`] and [`File::delete`] make reuse
//! of a spent handle impossible.

use vstd::prelude::*;

use crate::encode::{all_fit_ucs2, encode_filename, FILENAME_DATA_UNITS};
use crate::mode::{FileAttribute, FileMode};
use crate::status::Status;

verus! {

/// First field of the 128-bit identifier under which firmware publishes the
/// simple-file-system interface.
pub const SFS_GUID_DATA1: u32 = 0x964E5B22;

/// Second field of the interface identifier.
pub const SFS_GUID_DATA2: u16 = 0x6459;

/// Third field of the interface identifier.
pub const SFS_GUID_DATA3: u16 = 0x11D2;

/// Trailing eight bytes of the interface identifier.
pub fn sfs_guid_data4() -> (d: [u8; 8])
    ensures
        d@ =~= seq![0x8Eu8, 0x39u8, 0x00u8, 0xA0u8, 0xC9u8, 0x69u8, 0x72u8, 0x3Bu8],
{
    [0x8E, 0x39, 0x00, 0xA0, 0xC9, 0x69, 0x72, 0x3B]
}

/// The firmware file interface: one method per firmware entry-point slot.
///
/// An implementer is the firmware side of the binding; `this` is the raw
/// handle a slot's self pointer would carry, and filenames arrive as the
/// null-terminated wide buffer the calling convention prescribes.  Little is
/// promised of an implementation: a status code is just reported back.  The
/// clauses below state only what the firmware interface's documentation
/// guarantees of every implementation: an open mode outside the three legal
/// combinations is rejected, a read never claims more bytes than the buffer
/// holds and never shrinks or grows it, and a write never claims to have
/// written more bytes than it was handed.
pub trait FileImpl: Sized {
    /// Open the volume's root directory, yielding a fresh handle on success.
    fn open_volume(&mut self) -> (r: (Status, usize));

    /// Open `filename` relative to the file or directory behind `this`.
    fn open(
        &mut self,
        this: usize,
        filename: &[u16],
        open_mode: FileMode,
        attributes: FileAttribute,
    ) -> (r: (Status, usize))
        ensures
            !open_mode.spec_valid() ==> r.0 != Status::Success,
    ;

    /// Close the handle `this`; it stands for nothing afterward.
    fn close(&mut self, this: usize) -> (r: Status);

    /// Close the handle `this` and delete the file behind it.
    fn delete(&mut self, this: usize) -> (r: Status);

    /// Read from the current position into `buffer`; the byte count returned
    /// says how much of the buffer's prefix was filled.
    fn read(&mut self, this: usize, buffer: &mut Vec<u8>) -> (r: (Status, usize))
        ensures
            final(buffer)@.len() == old(buffer)@.len(),
            r.1 <= final(buffer)@.len(),
            forall|i: int|
                r.1 <= i < final(buffer)@.len() ==> final(buffer)@[i] == old(buffer)@[i],
    ;

    /// Write `buffer` at the current position; the byte count returned says
    /// how much of it was written.
    fn write(&mut self, this: usize, buffer: &[u8]) -> (r: (Status, usize))
        ensures
            r.1 <= buffer@.len(),
    ;

    /// Report the current absolute byte offset of `this`.
    fn get_position(&mut self, this: usize) -> (r: (Status, u64));

    /// Move `this` to the absolute byte offset `position`; the all-bits-set
    /// sentinel means the end of the file.
    fn set_position(&mut self, this: usize, position: u64) -> (r: Status);

    /// Persist buffered modifications of `this` to the device.
    fn flush(&mut self, this: usize) -> (r: Status);
}

/// A volume exposed by firmware: the owner of a device implementing
/// [`FileImpl`], and the only way at its root directory.
pub struct SimpleFileSystem<D: FileImpl> {
    dev: D,
}

/// An open file or directory handle on a volume.
///
/// Every operation goes back through the volume the handle was produced
/// from.  [`File::close`] and [`File::delete`] consume the handle; nothing
/// can be done with it afterward.
pub struct File {
    handle: usize,
}

impl<D: FileImpl> SimpleFileSystem<D> {
    /// The device this volume wraps.
    pub closed spec fn device(self) -> D {
        self.dev
    }

    /// Wrap a device as a volume.
    pub fn new(dev: D) -> (fs: SimpleFileSystem<D>)
        ensures
            fs.device() == dev,
    {
        SimpleFileSystem { dev }
    }

    /// Take the device back out of the volume.
    pub fn into_device(self) -> (d: D)
        ensures
            d == self.device(),
    {
        self.dev
    }

    /// Open the root directory of this volume.
    ///
    /// A status other than success is reported as the error it is; a handle
    /// is produced exactly on success.
    pub fn open_volume(&mut self) -> (r: Result<File, Status>)
        ensures
            r matches Err(s) ==> s != Status::Success,
    {
        let (status, handle) = self.dev.open_volume();
        if status.is_success() {
            Ok(File { handle })
        } else {
            Err(status)
        }
    }
}

impl File {
    /// Open `filename` relative to this file or directory.
    ///
    /// The name is transcoded into the fixed wide-character buffer before
    /// anything reaches firmware: a name of more than
    /// [`FILENAME_DATA_UNITS`] characters fails with `InvalidParameter`, and
    /// one with a character outside the wide encoding fails with
    /// `Unsupported`, both without a firmware call and so without any
    /// firmware-side effect.  An open mode outside the three legal
    /// combinations is rejected by the firmware layer.
    pub fn open<D: FileImpl>(
        &mut self,
        fs: &mut SimpleFileSystem<D>,
        filename: &str,
        open_mode: FileMode,
        attributes: FileAttribute,
    ) -> (r: Result<File, Status>)
        ensures
            *final(self) == *old(self),
            filename@.len() > FILENAME_DATA_UNITS ==> r == Err::<File, Status>(
                Status::InvalidParameter,
            ) && *final(fs) == *old(fs),
            filename@.len() <= FILENAME_DATA_UNITS && !all_fit_ucs2(filename@) ==> r
                == Err::<File, Status>(Status::Unsupported) && *final(fs) == *old(fs),
            r is Ok ==> filename@.len() <= FILENAME_DATA_UNITS && all_fit_ucs2(filename@),
            !open_mode.spec_valid() ==> r is Err,
            r matches Err(s) ==> s != Status::Success,
    {
        let buf = match encode_filename(filename) {
            Ok(b) => b,
            Err(e) => {
                return Err(e);
            },
        };
        let (status, handle) = fs.dev.open(self.handle, buf.as_slice(), open_mode, attributes);
        if status.is_success() {
            Ok(File { handle })
        } else {
            Err(status)
        }
    }

    /// Close this handle.  It is consumed: no operation can follow.
    pub fn close<D: FileImpl>(self, fs: &mut SimpleFileSystem<D>) -> (r: Result<(), Status>)
        ensures
            r matches Err(s) ==> s != Status::Success,
    {
        let status = fs.dev.close(self.handle);
        if status.is_success() {
            Ok(())
        } else {
            Err(status)
        }
    }

    /// Close this handle and delete the file behind it.
    ///
    /// The handle is consumed whatever the outcome: even when deletion
    /// fails, which the device reports as the warning `WarnDeleteFailure`,
    /// the handle is spent and no operation can follow.
    pub fn delete<D: FileImpl>(self, fs: &mut SimpleFileSystem<D>) -> (r: Result<(), Status>)
        ensures
            r matches Err(s) ==> s != Status::Success,
    {
        let status = fs.dev.delete(self.handle);
        if status.is_success() {
            Ok(())
        } else {
            Err(status)
        }
    }

    /// Read from the current position into `buffer`, as much as fits, and
    /// report how many bytes arrived; fewer than the buffer holds, and zero
    /// at the end of the file, are success, not errors.  Bytes of the buffer
    /// past the count keep their old value, and the buffer never changes
    /// length.
    pub fn read<D: FileImpl>(
        &mut self,
        fs: &mut SimpleFileSystem<D>,
        buffer: &mut Vec<u8>,
    ) -> (r: Result<usize, Status>)
        ensures
            *final(self) == *old(self),
            final(buffer)@.len() == old(buffer)@.len(),
            r matches Ok(n) ==> n <= final(buffer)@.len() && (forall|i: int|
                n <= i < final(buffer)@.len() ==> final(buffer)@[i] == old(buffer)@[i]),
            r matches Err(s) ==> s != Status::Success,
    {
        let (status, count) = fs.dev.read(self.handle, buffer);
        if status.is_success() {
            Ok(count)
        } else {
            Err(status)
        }
    }

    /// Write `buffer` at the current position and report how many bytes the
    /// device took; never more than the buffer holds.
    pub fn write<D: FileImpl>(
        &mut self,
        fs: &mut SimpleFileSystem<D>,
        buffer: &[u8],
    ) -> (r: Result<usize, Status>)
        ensures
            *final(self) == *old(self),
            r matches Ok(n) ==> n <= buffer@.len(),
            r matches Err(s) ==> s != Status::Success,
    {
        let (status, count) = fs.dev.write(self.handle, buffer);
        if status.is_success() {
            Ok(count)
        } else {
            Err(status)
        }
    }

    /// Report the current absolute byte offset of this handle.
    pub fn get_position<D: FileImpl>(
        &mut self,
        fs: &mut SimpleFileSystem<D>,
    ) -> (r: Result<u64, Status>)
        ensures
            *final(self) == *old(self),
            r matches Err(s) ==> s != Status::Success,
    {
        let (status, position) = fs.dev.get_position(self.handle);
        if status.is_success() {
            Ok(position)
        } else {
            Err(status)
        }
    }

    /// Move this handle to the absolute byte offset `position`.  The
    /// all-bits-set sentinel [`crate::fileops::POSITION_END`] means the end
    /// of the file; any other offset past the end is rejected.
    pub fn set_position<D: FileImpl>(
        &mut self,
        fs: &mut SimpleFileSystem<D>,
        position: u64,
    ) -> (r: Result<(), Status>)
        ensures
            *final(self) == *old(self),
            r matches Err(s) ==> s != Status::Success,
    {
        let status = fs.dev.set_position(self.handle, position);
        if status.is_success() {
            Ok(())
        } else {
            Err(status)
        }
    }

    /// Persist buffered modifications of this handle to the device.
    pub fn flush<D: FileImpl>(&mut self, fs: &mut SimpleFileSystem<D>) -> (r: Result<(), Status>)
        ensures
            *final(self) == *old(self),
            r matches Err(s) ==> s != Status::Success,
    {
        let status = fs.dev.flush(self.handle);
        if status.is_success() {
            Ok(())
        } else {
            Err(status)
        }
    }
}

} // verus!
