//! Filename transcoding into the firmware's wide-character convention.
//!
//! Firmware takes filenames as null-terminated buffers of 16-bit units, one
//! unit per character.  The buffer handed over is of fixed size: 255 data
//! units and one terminator.  A filename of more than 255 characters is
//! rejected locally, before anything reaches firmware.

use vstd::prelude::*;

use crate::status::Status;

verus! {

/// Number of data units in the filename buffer, the terminator excluded.
pub const FILENAME_DATA_UNITS: usize = 255;

/// Total size of the filename buffer, terminator included.
pub const FILENAME_BUFFER_UNITS: usize = 256;

/// Whether a character has a single 16-bit unit in the wide encoding, i.e.
/// whether its code point is below 2^16.
pub open spec fn fits_ucs2(c: char) -> bool {
    (c as u32) < 0x10000
}

/// Whether every character of `s` fits the wide encoding.
pub open spec fn all_fit_ucs2(s: Seq<char>) -> bool {
    forall|i: int| 0 <= i < s.len() ==> fits_ucs2(#[trigger] s[i])
}

/// Whether `units` is the wide encoding of `s`: one unit per character,
/// holding the character's code point.
pub open spec fn is_ucs2_encoding(s: Seq<char>, units: Seq<u16>) -> bool {
    forall|i: int| 0 <= i < s.len() ==> units[i] == #[trigger] s[i] as u16
}

/// Relies on `ucs2::encode` of the ucs2 crate: it walks the characters of
/// `s` in order and writes one unit per character into `buf`, the unit
/// holding the character's code point.  A character at or above 2^16 cannot
/// be represented and fails the call (`MultiByte`, here `Unsupported`);
/// running out of buffer fails it too (`BufferOverflow`, here
/// `BufferTooSmall`).  Units past the written prefix keep their old value,
/// and the buffer's length never changes.
#[verifier::external_body]
fn ucs2_encode_into(s: &str, buf: &mut Vec<u16>) -> (r: Result<usize, Status>)
    ensures
        final(buf)@.len() == old(buf)@.len(),
        match r {
            Ok(n) => {
                &&& n == s@.len()
                &&& s@.len() <= final(buf)@.len()
                &&& all_fit_ucs2(s@)
                &&& is_ucs2_encoding(s@, final(buf)@)
                &&& (forall|i: int|
                    s@.len() <= i < final(buf)@.len() ==> final(buf)@[i] == old(buf)@[i])
            },
            Err(e) => {
                &&& (e == Status::BufferTooSmall || e == Status::Unsupported)
                &&& (e == Status::BufferTooSmall ==> s@.len() > old(buf)@.len())
                &&& (e == Status::Unsupported ==> !all_fit_ucs2(s@))
            },
        },
        all_fit_ucs2(s@) && s@.len() <= old(buf)@.len() ==> r is Ok,
{
    match ucs2::encode(s, buf.as_mut_slice()) {
        Ok(n) => Ok(n),
        Err(ucs2::Error::BufferOverflow) => Err(Status::BufferTooSmall),
        Err(ucs2::Error::MultiByte) => Err(Status::Unsupported),
    }
}

/// A vector of `n` zero units.
fn zero_buffer(n: usize) -> (v: Vec<u16>)
    ensures
        v@.len() == n,
        forall|i: int| 0 <= i < n ==> v@[i] == 0u16,
{
    let mut v: Vec<u16> = Vec::new();
    let mut k: usize = 0;
    while k < n
        invariant
            k <= n,
            v@.len() == k,
            forall|i: int| 0 <= i < k ==> v@[i] == 0u16,
        decreases n - k,
    {
        v.push(0u16);
        k = k + 1;
    }
    v
}

/// Index of the terminator in a wide buffer: the position of its first zero
/// unit, or the buffer's end when no unit is zero.
pub open spec fn name_end(units: Seq<u16>) -> int
    decreases units.len(),
{
    if units.len() == 0 {
        0
    } else if units[0] == 0 {
        0
    } else {
        1 + name_end(units.drop_first())
    }
}

/// The name a null-terminated wide buffer carries: its units before the
/// first zero.
pub open spec fn wide_name(units: Seq<u16>) -> Seq<u16> {
    units.take(name_end(units))
}

/// The terminator index lies in the buffer, no unit before it is zero, and
/// the unit there, when it exists, is zero.
pub proof fn lemma_name_end_bounds(units: Seq<u16>)
    ensures
        0 <= name_end(units) <= units.len(),
        forall|j: int| 0 <= j < name_end(units) ==> units[j] != 0,
        name_end(units) < units.len() ==> units[name_end(units)] == 0,
    decreases units.len(),
{
    if units.len() > 0 && units[0] != 0 {
        lemma_name_end_bounds(units.drop_first());
        assert forall|j: int| 0 <= j < name_end(units) implies units[j] != 0 by {
            if j > 0 {
                assert(units.drop_first()[j - 1] == units[j]);
            }
        }
        if name_end(units) < units.len() {
            assert(units.drop_first()[name_end(units) - 1] == units[name_end(units)]);
        }
    }
}

/// The units a null-terminated wide buffer carries before its terminator,
/// as a vector.
pub fn wide_name_units(units: &[u16]) -> (r: Vec<u16>)
    ensures
        r@ == wide_name(units@),
{
    proof {
        lemma_name_end_bounds(units@);
    }
    let len = units.len();
    let mut end: usize = 0;
    while end < len && *vstd::slice::slice_index_get(units, end) != 0
        invariant
            end <= len,
            len == units@.len(),
            forall|j: int| 0 <= j < end ==> units@[j] != 0,
        decreases len - end,
    {
        end = end + 1;
    }
    proof {
        if end < name_end(units@) {
            assert(units@[end as int] != 0);
        }
        assert(end == name_end(units@));
    }
    let mut r: Vec<u16> = Vec::new();
    let mut j: usize = 0;
    while j < end
        invariant
            j <= end,
            end <= len,
            len == units@.len(),
            r@.len() == j,
            forall|k: int| 0 <= k < j ==> r@[k] == units@[k],
        decreases end - j,
    {
        r.push(*vstd::slice::slice_index_get(units, j));
        j = j + 1;
    }
    proof {
        assert(r@ =~= wide_name(units@));
    }
    r
}

/// Transcode a filename into the fixed null-terminated wide buffer handed
/// to firmware.
///
/// A name of more than [`FILENAME_DATA_UNITS`] characters is rejected with
/// `InvalidParameter` before anything is encoded; a name with a character
/// the wide encoding cannot hold is rejected with `Unsupported`.  On
/// success the buffer holds one unit per character followed by a zero
/// terminator, with every remaining unit zero as well.
pub fn encode_filename(filename: &str) -> (r: Result<Vec<u16>, Status>)
    ensures
        match r {
            Ok(buf) => {
                &&& filename@.len() <= FILENAME_DATA_UNITS
                &&& all_fit_ucs2(filename@)
                &&& buf@.len() == FILENAME_BUFFER_UNITS
                &&& is_ucs2_encoding(filename@, buf@)
                &&& buf@[filename@.len() as int] == 0u16
            },
            Err(e) => {
                &&& (e == Status::InvalidParameter <==> filename@.len() > FILENAME_DATA_UNITS)
                &&& (e == Status::Unsupported <==> filename@.len() <= FILENAME_DATA_UNITS
                    && !all_fit_ucs2(filename@))
            },
        },
        r is Err <==> (filename@.len() > FILENAME_DATA_UNITS || !all_fit_ucs2(filename@)),
{
    let len = filename.unicode_len();
    if len > FILENAME_DATA_UNITS {
        return Err(Status::InvalidParameter);
    }
    let mut buf = zero_buffer(FILENAME_BUFFER_UNITS);
    match ucs2_encode_into(filename, &mut buf) {
        Ok(_) => Ok(buf),
        Err(e) => Err(e),
    }
}

} // verus!
