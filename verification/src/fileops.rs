//! Byte-level semantics of the file operations.
//!
//! A file is a sequence of bytes together with a current position.  These
//! spec functions say what reading, writing and seeking do to that pair;
//! the contracts of the in-memory device in [`crate::ram`] are stated over
//! them.

use vstd::prelude::*;

verus! {

/// Set-position argument that means "seek to the end of the file".
pub const POSITION_END: u64 = 0xFFFF_FFFF_FFFF_FFFF;

/// How many bytes a read at `pos` delivers into a buffer of capacity `cap`:
/// the remaining bytes of the file, but at most `cap`, and zero at or past
/// the end of the file.
pub open spec fn read_count(data: Seq<u8>, pos: int, cap: int) -> int {
    if pos >= data.len() {
        0
    } else if data.len() - pos < cap {
        data.len() - pos
    } else {
        cap
    }
}

/// The bytes a read at `pos` with buffer capacity `cap` delivers.
pub open spec fn read_bytes(data: Seq<u8>, pos: int, cap: int) -> Seq<u8>
    recommends
        0 <= pos,
        0 <= cap,
{
    if 0 <= pos <= data.len() {
        data.subrange(pos, pos + read_count(data, pos, cap))
    } else {
        Seq::empty()
    }
}

/// The file contents after writing `bytes` at `pos`: bytes before `pos`
/// keep their value, the written range holds `bytes`, bytes after it keep
/// their value, and the file grows when the written range ends past the
/// old end.
pub open spec fn write_bytes(data: Seq<u8>, pos: int, bytes: Seq<u8>) -> Seq<u8>
    recommends
        0 <= pos <= data.len(),
{
    Seq::new(
        if pos + bytes.len() > data.len() {
            (pos + bytes.len()) as nat
        } else {
            data.len()
        },
        |i: int|
            if pos <= i < pos + bytes.len() {
                bytes[i - pos]
            } else {
                data[i]
            },
    )
}

/// The position a set-position request lands on: the request itself, except
/// that [`POSITION_END`] means the end of the file.
pub open spec fn seek_pos(len: nat, requested: u64) -> nat {
    if requested == POSITION_END {
        len
    } else {
        requested as nat
    }
}

} // verus!
