use vstd::prelude::*;

verus! {

/// The high half of a packed version word.
pub open spec fn high_half(w: u32) -> u32 {
    w >> 16u32
}

/// The low half of a packed version word.
pub open spec fn low_half(w: u32) -> u32 {
    w & 0xFFFFu32
}

/// Splits the two packed file-version words into (major, minor, build, revision).
pub fn decode_version(ms: u32, ls: u32) -> (r: (u32, u32, u32, u32))
    ensures
        r == (high_half(ms), low_half(ms), high_half(ls), low_half(ls)),
        r.0 == ms / 65536 && r.1 == ms % 65536,
        r.2 == ls / 65536 && r.3 == ls % 65536,
        r.0 <= 0xFFFF && r.1 <= 0xFFFF && r.2 <= 0xFFFF && r.3 <= 0xFFFF,
{
    proof {
        lemma_halves(ms);
        lemma_halves(ls);
    }
    (ms >> 16u32, ms & 0xFFFFu32, ls >> 16u32, ls & 0xFFFFu32)
}

/// Each half of a packed word is a 16-bit quantity: the high half is the
/// word divided by 65536 and the low half is the remainder.
pub proof fn lemma_halves(w: u32)
    ensures
        high_half(w) == w / 65536,
        low_half(w) == w % 65536,
        high_half(w) <= 0xFFFF,
        low_half(w) <= 0xFFFF,
        high_half(w) * 65536 + low_half(w) == w,
{
    assert(w >> 16u32 == w / 65536) by (bit_vector);
    assert(w & 0xFFFFu32 == w % 65536) by (bit_vector);
    assert(w >> 16u32 <= 0xFFFF) by (bit_vector);
    assert(w & 0xFFFFu32 <= 0xFFFF) by (bit_vector);
}

/// The size in bytes of the fixed version record: thirteen 32-bit fields.
pub const FIXED_RECORD_LEN: usize = 52;

/// Byte offset, inside the fixed record, of the most significant file-version word.
pub const FILE_VERSION_MS_AT: usize = 8;

/// Byte offset, inside the fixed record, of the least significant file-version word.
pub const FILE_VERSION_LS_AT: usize = 12;

/// The little-endian 32-bit value of the four bytes of `b` from `at` on.
pub open spec fn le_word(b: Seq<u8>, at: int) -> int {
    b[at] + 256 * b[at + 1] + 65536 * b[at + 2] + 16777216 * b[at + 3]
}

/// The four version components held by two packed words.
pub open spec fn quad_of(ms: u32, ls: u32) -> (u32, u32, u32, u32) {
    (high_half(ms), low_half(ms), high_half(ls), low_half(ls))
}

/// Whether a record reported at `offset` with `length` bytes lies whole inside
/// a buffer of `buf_len` bytes and is long enough to be a fixed record.
pub open spec fn record_fits(buf_len: int, offset: int, length: int) -> bool {
    length >= FIXED_RECORD_LEN && offset + FIXED_RECORD_LEN <= buf_len
}

/// The file version held by the fixed record at `offset` in `b`, when the
/// reported record fits.
pub open spec fn version_in(b: Seq<u8>, offset: int, length: int) -> Option<(u32, u32, u32, u32)> {
    if record_fits(b.len() as int, offset, length) {
        Some(
            quad_of(
                le_word(b, offset + FILE_VERSION_MS_AT) as u32,
                le_word(b, offset + FILE_VERSION_LS_AT) as u32,
            ),
        )
    } else {
        None
    }
}

/// Reads the little-endian 32-bit word at `at`.
pub fn read_le_word(b: &[u8], at: usize) -> (r: u32)
    requires
        at + 4 <= b@.len(),
    ensures
        r == le_word(b@, at as int),
{
    let b0: u32 = b[at] as u32;
    let b1: u32 = b[at + 1] as u32;
    let b2: u32 = b[at + 2] as u32;
    let b3: u32 = b[at + 3] as u32;
    b0 + 256 * b1 + 65536 * b2 + 16777216 * b3
}

/// Reads the file version out of the fixed record that the host reported at
/// `offset` with `length` bytes. The record is read only when it fits whole
/// inside `buf`; otherwise there is no version.
pub fn read_file_version(buf: &[u8], offset: usize, length: usize) -> (r: Option<(u32, u32, u32, u32)>)
    ensures
        r == version_in(buf@, offset as int, length as int),
{
    if length < FIXED_RECORD_LEN || buf.len() < FIXED_RECORD_LEN || offset > buf.len() - FIXED_RECORD_LEN {
        return None;
    }
    let ms = read_le_word(buf, offset + FILE_VERSION_MS_AT);
    let ls = read_le_word(buf, offset + FILE_VERSION_LS_AT);
    Some(decode_version(ms, ls))
}

} // verus!
