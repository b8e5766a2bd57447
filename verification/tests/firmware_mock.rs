//! A recording firmware table: checks what the bindings hand to firmware.

use sfs::mode::{FileAttribute, FileMode, FILE_MODE_CREATE, FILE_MODE_READ, FILE_MODE_WRITE};
use sfs::proto::{FileImpl, SimpleFileSystem};
use sfs::status::Status;

/// A firmware table that records what it receives and always succeeds.
struct Recorder {
    opens: usize,
    last_mode: u64,
    last_attr: u64,
    last_name: Vec<u16>,
}

impl Recorder {
    fn new() -> Recorder {
        Recorder { opens: 0, last_mode: 0, last_attr: 0, last_name: Vec::new() }
    }
}

impl FileImpl for Recorder {
    fn open_volume(&mut self) -> (Status, usize) {
        (Status::Success, 0)
    }

    fn open(
        &mut self,
        _this: usize,
        filename: &[u16],
        open_mode: FileMode,
        attributes: FileAttribute,
    ) -> (Status, usize) {
        self.opens += 1;
        self.last_mode = open_mode.bits;
        self.last_attr = attributes.bits;
        self.last_name = filename.to_vec();
        if open_mode.is_valid() {
            (Status::Success, 1)
        } else {
            (Status::InvalidParameter, 0)
        }
    }

    fn close(&mut self, _this: usize) -> Status {
        Status::Success
    }

    fn delete(&mut self, _this: usize) -> Status {
        Status::Success
    }

    fn read(&mut self, _this: usize, _buffer: &mut Vec<u8>) -> (Status, usize) {
        (Status::Success, 0)
    }

    fn write(&mut self, _this: usize, buffer: &[u8]) -> (Status, usize) {
        (Status::Success, buffer.len())
    }

    fn get_position(&mut self, _this: usize) -> (Status, u64) {
        (Status::Success, 0)
    }

    fn set_position(&mut self, _this: usize, _position: u64) -> Status {
        Status::Success
    }

    fn flush(&mut self, _this: usize) -> Status {
        Status::Success
    }
}

#[test]
fn valid_modes_are_accepted_and_passed_through() {
    let valid = [
        FILE_MODE_READ,
        FILE_MODE_READ | FILE_MODE_WRITE,
        FILE_MODE_READ | FILE_MODE_WRITE | FILE_MODE_CREATE,
    ];
    for bits in valid {
        let mut fs = SimpleFileSystem::new(Recorder::new());
        let mut root = fs.open_volume().unwrap();
        let r = root.open(&mut fs, "A", FileMode { bits }, FileAttribute { bits: 0 });
        assert!(r.is_ok());
        let rec = fs.into_device();
        assert_eq!(rec.opens, 1);
        assert_eq!(rec.last_mode, bits);
    }
}

#[test]
fn invalid_mode_bits_reach_firmware_and_are_rejected() {
    let invalid = [
        FILE_MODE_WRITE,
        FILE_MODE_CREATE,
        FILE_MODE_READ | FILE_MODE_CREATE,
        FILE_MODE_WRITE | FILE_MODE_CREATE,
        0,
    ];
    for bits in invalid {
        let mut fs = SimpleFileSystem::new(Recorder::new());
        let mut root = fs.open_volume().unwrap();
        let r = root.open(&mut fs, "A", FileMode { bits }, FileAttribute { bits: 0 });
        assert_eq!(r.err(), Some(Status::InvalidParameter));
        let rec = fs.into_device();
        assert_eq!(rec.last_mode, bits);
    }
}

#[test]
fn rejected_name_causes_no_firmware_call() {
    let mut fs = SimpleFileSystem::new(Recorder::new());
    let mut root = fs.open_volume().unwrap();
    let long_name: String = core::iter::repeat('A').take(256).collect();
    let r = root.open(&mut fs, &long_name, FileMode { bits: FILE_MODE_READ }, FileAttribute {
        bits: 0,
    });
    assert_eq!(r.err(), Some(Status::InvalidParameter));
    let r2 = root.open(&mut fs, "BAD\u{1F600}", FileMode { bits: FILE_MODE_READ }, FileAttribute {
        bits: 0,
    });
    assert_eq!(r2.err(), Some(Status::Unsupported));
    let rec = fs.into_device();
    assert_eq!(rec.opens, 0);
}

#[test]
fn name_arrives_null_terminated() {
    let mut fs = SimpleFileSystem::new(Recorder::new());
    let mut root = fs.open_volume().unwrap();
    root.open(&mut fs, "AB", FileMode { bits: FILE_MODE_READ }, FileAttribute { bits: 0 })
        .unwrap();
    let rec = fs.into_device();
    assert_eq!(rec.last_name.len(), 256);
    assert_eq!(rec.last_name[0], 'A' as u16);
    assert_eq!(rec.last_name[1], 'B' as u16);
    assert_eq!(rec.last_name[2], 0);
}

#[test]
fn attributes_are_passed_through() {
    let mut fs = SimpleFileSystem::new(Recorder::new());
    let mut root = fs.open_volume().unwrap();
    let attrs = FileAttribute { bits: sfs::mode::FILE_ATTR_ARCHIVE | sfs::mode::FILE_ATTR_HIDDEN };
    root.open(
        &mut fs,
        "A",
        FileMode { bits: FILE_MODE_READ | FILE_MODE_WRITE | FILE_MODE_CREATE },
        attrs,
    )
    .unwrap();
    let rec = fs.into_device();
    assert_eq!(rec.last_attr, attrs.bits);
}
