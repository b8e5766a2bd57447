//! Typed bindings for a firmware simple-file-system interface.
//!
//! Boot-time firmware exposes files through two tables of entry points: one
//! on the volume (open the root directory) and one per open file (open,
//! close, delete, read, write, seek, flush).  This crate wraps those entry
//! points in safe, typed methods: [`proto::SimpleFileSystem`] holds the
//! device, [`proto::File`] is an open handle, and the [`proto::FileImpl`]
//! trait stands for the firmware side, one method per entry-point slot.
//! [`ram::RamVolume`] is a verified in-memory device implementing that trait,
//! used to exercise the bindings without firmware.

pub mod encode;
pub mod fileops;
pub mod laws;
pub mod mode;
pub mod proto;
pub mod ram;
pub mod status;
