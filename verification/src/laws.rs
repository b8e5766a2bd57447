//! General laws of the file-operation semantics.
//!
//! Each law is stated over the spec functions of [`crate::fileops`], which
//! the contracts of the in-memory device in [`crate::ram`] are written in.

use vstd::prelude::*;

use crate::fileops::{read_bytes, read_count, seek_pos, write_bytes, POSITION_END};

verus! {

/// Round trip: writing bytes at a position and then reading the same number
/// of bytes back from that position yields exactly the bytes written,
/// whatever the file held before.  In particular, writing a file from
/// offset zero, seeking back to zero and reading returns the original
/// bytes.  The device contract says a write turns the file into
/// `write_bytes` of it and a read returns `read_bytes` of it; this law
/// composes the two.
pub proof fn lemma_write_then_read_round_trip(data: Seq<u8>, pos: int, bytes: Seq<u8>)
    requires
        0 <= pos <= data.len(),
    ensures
        read_count(write_bytes(data, pos, bytes), pos, bytes.len() as int) == bytes.len(),
        read_bytes(write_bytes(data, pos, bytes), pos, bytes.len() as int) == bytes,
{
    let written = write_bytes(data, pos, bytes);
    assert(written.len() >= pos + bytes.len());
    assert(read_bytes(written, pos, bytes.len() as int) =~= bytes);
}

/// Writing never shrinks a file: the new length is the old one, or the end
/// of the written range when that lies past the old end.
pub proof fn lemma_write_keeps_or_grows_length(data: Seq<u8>, pos: int, bytes: Seq<u8>)
    requires
        0 <= pos <= data.len(),
    ensures
        write_bytes(data, pos, bytes).len() >= data.len(),
        write_bytes(data, pos, bytes).len() == if pos + bytes.len() > data.len() {
            pos + bytes.len()
        } else {
            data.len() as int
        },
{
}

/// Seeking with the all-bits-set sentinel lands on the file's end offset:
/// the device contract moves the position to `seek_pos` of the request, and
/// reports the position back as it stands, so what get-position returns
/// after a seek to [`POSITION_END`] is the file's current size.
pub proof fn lemma_seek_sentinel_is_end(len: nat)
    ensures
        seek_pos(len, POSITION_END) == len,
{
}

/// A read with the position at or past the end of the file delivers zero
/// bytes; together with the device contract, which reports success there,
/// an exhausted file is not an error.
pub proof fn lemma_read_at_end_is_empty(data: Seq<u8>, pos: int, cap: int)
    requires
        0 <= cap,
        pos >= data.len(),
    ensures
        read_count(data, pos, cap) == 0,
        read_bytes(data, pos, cap) == Seq::<u8>::empty(),
{
    assert(read_bytes(data, pos, cap) =~= Seq::<u8>::empty());
}

/// A read never claims more bytes than the buffer holds, never more than
/// the file holds past the position, and what it delivers is exactly the
/// file's bytes from the position on.
pub proof fn lemma_read_is_bounded(data: Seq<u8>, pos: int, cap: int)
    requires
        0 <= pos,
        0 <= cap,
    ensures
        0 <= read_count(data, pos, cap) <= cap,
        pos + read_count(data, pos, cap) <= data.len() || read_count(data, pos, cap) == 0,
        forall|i: int|
            0 <= i < read_count(data, pos, cap) ==> read_bytes(data, pos, cap)[i] == data[pos + i],
{
}

} // verus!
