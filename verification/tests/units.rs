//! The small value types on their own.

use sfs::mode::{
    FileAttribute, FileMode, FILE_ATTR_ARCHIVE, FILE_ATTR_DIRECTORY, FILE_ATTR_READ_ONLY,
    FILE_ATTR_VALID, FILE_MODE_CREATE, FILE_MODE_READ, FILE_MODE_WRITE,
};
use sfs::proto::{sfs_guid_data4, SFS_GUID_DATA1, SFS_GUID_DATA2, SFS_GUID_DATA3};
use sfs::status::Status;

#[test]
fn file_mode_validity() {
    assert!(FileMode { bits: FILE_MODE_READ }.is_valid());
    assert!(FileMode { bits: FILE_MODE_READ | FILE_MODE_WRITE }.is_valid());
    assert!(FileMode { bits: FILE_MODE_READ | FILE_MODE_WRITE | FILE_MODE_CREATE }.is_valid());
    assert!(!FileMode { bits: 0 }.is_valid());
    assert!(!FileMode { bits: FILE_MODE_WRITE }.is_valid());
    assert!(!FileMode { bits: FILE_MODE_READ | FILE_MODE_CREATE }.is_valid());
}

#[test]
fn file_mode_bits() {
    let m = FileMode { bits: FILE_MODE_READ | FILE_MODE_WRITE };
    assert!(m.is_writable());
    assert!(!m.has_create());
    let c = FileMode { bits: FILE_MODE_READ | FILE_MODE_WRITE | FILE_MODE_CREATE };
    assert!(c.is_writable());
    assert!(c.has_create());
    let r = FileMode { bits: FILE_MODE_READ };
    assert!(!r.is_writable());
}

#[test]
fn file_attribute_validity() {
    assert!(FileAttribute { bits: 0 }.is_valid());
    assert!(FileAttribute { bits: FILE_ATTR_READ_ONLY | FILE_ATTR_ARCHIVE }.is_valid());
    assert!(FileAttribute { bits: FILE_ATTR_VALID }.is_valid());
    assert!(!FileAttribute { bits: 0x40 }.is_valid());
    assert_eq!(FILE_ATTR_DIRECTORY, 0x10);
}

#[test]
fn status_success_check() {
    assert!(Status::Success.is_success());
    assert!(!Status::NotFound.is_success());
    assert!(!Status::WarnDeleteFailure.is_success());
}

#[test]
fn interface_identifier() {
    assert_eq!(SFS_GUID_DATA1, 0x964E5B22);
    assert_eq!(SFS_GUID_DATA2, 0x6459);
    assert_eq!(SFS_GUID_DATA3, 0x11D2);
    assert_eq!(sfs_guid_data4(), [0x8E, 0x39, 0x00, 0xA0, 0xC9, 0x69, 0x72, 0x3B]);
}
