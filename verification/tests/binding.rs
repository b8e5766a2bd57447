//! The bindings exercised over the in-memory device.

use sfs::encode::{encode_filename, FILENAME_BUFFER_UNITS};
use sfs::fileops::POSITION_END;
use sfs::mode::{FileAttribute, FileMode, FILE_MODE_CREATE, FILE_MODE_READ, FILE_MODE_WRITE};
use sfs::proto::SimpleFileSystem;
use sfs::ram::RamVolume;
use sfs::status::Status;

fn read_mode() -> FileMode {
    FileMode { bits: FILE_MODE_READ }
}

fn write_mode() -> FileMode {
    FileMode { bits: FILE_MODE_READ | FILE_MODE_WRITE }
}

fn create_mode() -> FileMode {
    FileMode { bits: FILE_MODE_READ | FILE_MODE_WRITE | FILE_MODE_CREATE }
}

fn no_attr() -> FileAttribute {
    FileAttribute { bits: 0 }
}

/// A volume holding one file of the given name and contents, built through
/// the public interface alone.
fn volume_with_file(name: &str, contents: &[u8]) -> SimpleFileSystem<RamVolume> {
    let mut fs = SimpleFileSystem::new(RamVolume::new());
    let mut root = fs.open_volume().unwrap();
    let mut file = root.open(&mut fs, name, create_mode(), no_attr()).unwrap();
    let written = file.write(&mut fs, contents).unwrap();
    assert_eq!(written, contents.len());
    file.close(&mut fs).unwrap();
    root.close(&mut fs).unwrap();
    fs
}

#[test]
fn open_rejects_long_name() {
    let mut fs = SimpleFileSystem::new(RamVolume::new());
    let mut root = fs.open_volume().unwrap();
    let long_name: String = core::iter::repeat('A').take(256).collect();
    let r = root.open(&mut fs, &long_name, read_mode(), no_attr());
    assert_eq!(r.err(), Some(Status::InvalidParameter));
}

#[test]
fn open_accepts_255_char_name_with_create() {
    let mut fs = SimpleFileSystem::new(RamVolume::new());
    let mut root = fs.open_volume().unwrap();
    let name: String = core::iter::repeat('B').take(255).collect();
    let r = root.open(&mut fs, &name, create_mode(), no_attr());
    assert!(r.is_ok());
}

#[test]
fn open_rejects_non_bmp_name() {
    let mut fs = SimpleFileSystem::new(RamVolume::new());
    let mut root = fs.open_volume().unwrap();
    let r = root.open(&mut fs, "CAFE\u{1F600}", read_mode(), no_attr());
    assert_eq!(r.err(), Some(Status::Unsupported));
}

#[test]
fn open_missing_file_not_found() {
    let mut fs = SimpleFileSystem::new(RamVolume::new());
    let mut root = fs.open_volume().unwrap();
    let r = root.open(&mut fs, "NOPE.TXT", read_mode(), no_attr());
    assert_eq!(r.err(), Some(Status::NotFound));
}

#[test]
fn invalid_mode_rejected_by_device() {
    let mut fs = volume_with_file("A.TXT", &[1, 2, 3]);
    let mut root = fs.open_volume().unwrap();
    let write_only = FileMode { bits: FILE_MODE_WRITE };
    let r = root.open(&mut fs, "A.TXT", write_only, no_attr());
    assert_eq!(r.err(), Some(Status::InvalidParameter));
    let create_only = FileMode { bits: FILE_MODE_CREATE };
    let r2 = root.open(&mut fs, "A.TXT", create_only, no_attr());
    assert_eq!(r2.err(), Some(Status::InvalidParameter));
}

#[test]
fn round_trip() {
    let n: usize = 100;
    let bytes: Vec<u8> = (0..n).map(|i| (i % 251) as u8).collect();
    let mut fs = SimpleFileSystem::new(RamVolume::new());
    let mut root = fs.open_volume().unwrap();
    let mut file = root.open(&mut fs, "DATA.BIN", create_mode(), no_attr()).unwrap();
    let written = file.write(&mut fs, &bytes).unwrap();
    assert_eq!(written, n);
    file.set_position(&mut fs, 0).unwrap();
    let mut buf = vec![0u8; n];
    let got = file.read(&mut fs, &mut buf).unwrap();
    assert_eq!(got, n);
    assert_eq!(buf, bytes);
}

#[test]
fn seek_sentinel_reports_end() {
    let mut fs = volume_with_file("S.BIN", &[9u8; 10]);
    let mut root = fs.open_volume().unwrap();
    let mut file = root.open(&mut fs, "S.BIN", read_mode(), no_attr()).unwrap();
    file.set_position(&mut fs, 3).unwrap();
    file.set_position(&mut fs, POSITION_END).unwrap();
    let pos = file.get_position(&mut fs).unwrap();
    assert_eq!(pos, 10);
}

#[test]
fn set_position_beyond_end_rejected() {
    let mut fs = volume_with_file("S.BIN", &[9u8; 10]);
    let mut root = fs.open_volume().unwrap();
    let mut file = root.open(&mut fs, "S.BIN", read_mode(), no_attr()).unwrap();
    let r = file.set_position(&mut fs, 11);
    assert_eq!(r.err(), Some(Status::InvalidParameter));
    assert_eq!(file.get_position(&mut fs).unwrap(), 0);
}

#[test]
fn read_at_end_returns_zero_and_success() {
    let mut fs = volume_with_file("E.BIN", &[5u8; 4]);
    let mut root = fs.open_volume().unwrap();
    let mut file = root.open(&mut fs, "E.BIN", read_mode(), no_attr()).unwrap();
    file.set_position(&mut fs, POSITION_END).unwrap();
    let mut buf = vec![0u8; 16];
    let got = file.read(&mut fs, &mut buf);
    assert_eq!(got, Ok(0));
    assert_eq!(buf, vec![0u8; 16]);
}

#[test]
fn read_empty_file_returns_zero() {
    let mut fs = volume_with_file("EMPTY", &[]);
    let mut root = fs.open_volume().unwrap();
    let mut file = root.open(&mut fs, "EMPTY", read_mode(), no_attr()).unwrap();
    let mut buf = vec![0u8; 8];
    assert_eq!(file.read(&mut fs, &mut buf), Ok(0));
}

#[test]
fn delete_always_consumes_handle() {
    let mut fs = volume_with_file("D.BIN", &[1, 2, 3]);
    let mut root = fs.open_volume().unwrap();
    let h1 = root.open(&mut fs, "D.BIN", write_mode(), no_attr()).unwrap();
    let mut h2 = root.open(&mut fs, "D.BIN", read_mode(), no_attr()).unwrap();
    let h3 = root.open(&mut fs, "D.BIN", read_mode(), no_attr()).unwrap();
    // Plain success: the file goes away with the handle.
    assert_eq!(h1.delete(&mut fs), Ok(()));
    // The file is gone for the surviving handle.
    let mut buf = vec![0u8; 4];
    assert_eq!(h2.read(&mut fs, &mut buf).err(), Some(Status::DeviceError));
    // Deleting through a handle whose file is already gone still consumes
    // the handle, with the warning rather than plain success.
    assert_eq!(h3.delete(&mut fs).err(), Some(Status::WarnDeleteFailure));
    // The name can no longer be opened without create.
    let r = root.open(&mut fs, "D.BIN", read_mode(), no_attr());
    assert_eq!(r.err(), Some(Status::NotFound));
}

#[test]
fn open_kernel_and_read() {
    let contents: Vec<u8> = (0..600).map(|i| (i % 256) as u8).collect();
    let mut fs = volume_with_file("BOOT\\KERNEL.BIN", &contents);
    let mut root = fs.open_volume().unwrap();
    let mut file = root.open(&mut fs, "BOOT\\KERNEL.BIN", read_mode(), no_attr()).unwrap();
    let mut buf = vec![0u8; 512];
    let got = file.read(&mut fs, &mut buf).unwrap();
    assert!(got <= 512);
    assert_eq!(got, 512);
    assert_eq!(&buf[..], &contents[..512]);
}

#[test]
fn write_on_read_only_handle_denied() {
    let mut fs = volume_with_file("RO.TXT", &[1, 2]);
    let mut root = fs.open_volume().unwrap();
    let mut file = root.open(&mut fs, "RO.TXT", read_mode(), no_attr()).unwrap();
    let r = file.write(&mut fs, &[9u8]);
    assert_eq!(r.err(), Some(Status::AccessDenied));
}

#[test]
fn write_extends_and_overwrites() {
    let mut fs = volume_with_file("W.BIN", &[1, 2, 3, 4]);
    let mut root = fs.open_volume().unwrap();
    let mut file = root.open(&mut fs, "W.BIN", write_mode(), no_attr()).unwrap();
    file.set_position(&mut fs, 2).unwrap();
    assert_eq!(file.write(&mut fs, &[7, 8, 9]), Ok(3));
    assert_eq!(file.get_position(&mut fs).unwrap(), 5);
    file.set_position(&mut fs, 0).unwrap();
    let mut buf = vec![0u8; 8];
    assert_eq!(file.read(&mut fs, &mut buf), Ok(5));
    assert_eq!(&buf[..5], &[1, 2, 7, 8, 9]);
}

#[test]
fn get_position_on_root_unsupported() {
    let mut fs = SimpleFileSystem::new(RamVolume::new());
    let mut root = fs.open_volume().unwrap();
    let r = root.get_position(&mut fs);
    assert_eq!(r.err(), Some(Status::Unsupported));
}

#[test]
fn flush_succeeds_on_live_handle() {
    let mut fs = volume_with_file("F.BIN", &[1]);
    let mut root = fs.open_volume().unwrap();
    let mut file = root.open(&mut fs, "F.BIN", write_mode(), no_attr()).unwrap();
    assert_eq!(file.flush(&mut fs), Ok(()));
    assert_eq!(file.close(&mut fs), Ok(()));
}

#[test]
fn encode_filename_encodes_units() {
    let buf = encode_filename("HI").unwrap();
    assert_eq!(buf.len(), FILENAME_BUFFER_UNITS);
    assert_eq!(buf[0], 'H' as u16);
    assert_eq!(buf[1], 'I' as u16);
    assert_eq!(buf[2], 0);
    let accented = encode_filename("\u{00E9}").unwrap();
    assert_eq!(accented[0], 0x00E9);
    assert_eq!(accented[1], 0);
}

#[test]
fn encode_filename_rejects_bad_names() {
    let long_name: String = core::iter::repeat('X').take(256).collect();
    assert_eq!(encode_filename(&long_name).err(), Some(Status::InvalidParameter));
    assert_eq!(encode_filename("\u{1F600}").err(), Some(Status::Unsupported));
}
