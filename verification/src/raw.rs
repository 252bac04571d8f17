//! Little-endian field decoding and the byte scans the readers share.
//!
//! Every multi-byte field of a PE image is little-endian; `le16`/`le32`/`le64`
//! say what such a field holds and the `read_*` functions decode it. The name
//! scans mirror how import and export names are read: a bounded window, a NUL
//! terminator, and a heuristic capacity taken from the zero padding that
//! follows the name.

use vstd::prelude::*;

verus! {

/// The value of the 16-bit little-endian field at `i`.
pub open spec fn le16(b: Seq<u8>, i: int) -> u16 {
    ((b[i] as int) + (b[i + 1] as int) * 0x100) as u16
}

/// The value of the 32-bit little-endian field at `i`.
pub open spec fn le32(b: Seq<u8>, i: int) -> u32 {
    ((b[i] as int) + (b[i + 1] as int) * 0x100 + (b[i + 2] as int) * 0x10000 + (b[i + 3] as int)
        * 0x1000000) as u32
}

/// The value of the 64-bit little-endian field at `i`.
pub open spec fn le64(b: Seq<u8>, i: int) -> u64 {
    ((le32(b, i) as int) + (le32(b, i + 4) as int) * 0x100000000) as u64
}

/// Decodes the 16-bit little-endian field at `off`.
pub fn read_u16(d: &Vec<u8>, off: usize) -> (r: u16)
    requires
        off + 2 <= d@.len(),
    ensures
        r == le16(d@, off as int),
{
    let n = d.len();
    (d[off] as u16) + (d[off + 1] as u16) * 0x100
}

/// Decodes the 32-bit little-endian field at `off`.
pub fn read_u32(d: &Vec<u8>, off: usize) -> (r: u32)
    requires
        off + 4 <= d@.len(),
    ensures
        r == le32(d@, off as int),
{
    let n = d.len();
    (d[off] as u32) + (d[off + 1] as u32) * 0x100 + (d[off + 2] as u32) * 0x10000 + (d[off
        + 3] as u32) * 0x1000000
}

/// Decodes the 64-bit little-endian field at `off`.
pub fn read_u64(d: &Vec<u8>, off: usize) -> (r: u64)
    requires
        off + 8 <= d@.len(),
    ensures
        r == le64(d@, off as int),
{
    let n = d.len();
    let lo = read_u32(d, off);
    let hi = read_u32(d, off + 4);
    (lo as u64) + (hi as u64) * 0x100000000
}

/// The copy of `b` with the `n` bytes at `off` replaced by `src`'s first `n`.
pub open spec fn spec_splice(b: Seq<u8>, off: int, src: Seq<u8>) -> Seq<u8> {
    Seq::new(b.len(), |i: int| if off <= i < off + src.len() { src[i - off] } else { b[i] })
}

/// The window of at most `max` bytes starting at `off`; empty when `off` is
/// past the end.
pub open spec fn spec_window(b: Seq<u8>, off: int, max: int) -> Seq<u8> {
    if off > b.len() {
        Seq::empty()
    } else if off + max > b.len() {
        b.subrange(off, b.len() as int)
    } else {
        b.subrange(off, off + max)
    }
}

/// Copies the window of at most `max` bytes starting at `off`.
pub fn take_window(d: &Vec<u8>, off: usize, max: usize) -> (r: Vec<u8>)
    ensures
        r@ == spec_window(d@, off as int, max as int),
{
    let mut r: Vec<u8> = Vec::new();
    if off > d.len() {
        assert(r@ =~= spec_window(d@, off as int, max as int));
        return r;
    }
    let end: usize = if max > d.len() - off {
        d.len()
    } else {
        off + max
    };
    let mut i: usize = off;
    while i < end
        invariant
            off <= i <= end <= d@.len(),
            r@ =~= d@.subrange(off as int, i as int),
        decreases end - i,
    {
        r.push(d[i]);
        assert(r@ =~= d@.subrange(off as int, i + 1));
        i = i + 1;
    }
    assert(r@ =~= spec_window(d@, off as int, max as int));
    r
}

/// The index of the first zero byte at or after `i`, or -1 when none follows.
pub open spec fn first_zero_from(w: Seq<u8>, i: int) -> int
    decreases w.len() - i,
{
    if i < 0 || i >= w.len() {
        -1
    } else if w[i] == 0 {
        i
    } else {
        first_zero_from(w, i + 1)
    }
}

/// The length of the NUL-terminated name at the start of `w`: the index of
/// the first zero byte, or 0 when the window holds no zero at all.
pub open spec fn spec_name_len(w: Seq<u8>) -> int {
    if first_zero_from(w, 0) == -1 {
        0
    } else {
        first_zero_from(w, 0)
    }
}

/// The length of the NUL-terminated text at the start of `w`, taking the
/// whole window when it holds no zero byte (the rule module names are read
/// by).
pub open spec fn spec_cstr_len(w: Seq<u8>) -> int {
    if first_zero_from(w, 0) == -1 {
        w.len() as int
    } else {
        first_zero_from(w, 0)
    }
}

/// Scans for the first zero byte, as `spec_cstr_len` describes.
pub fn scan_cstr_len(w: &Vec<u8>) -> (r: usize)
    ensures
        r as int == spec_cstr_len(w@),
        r <= w@.len(),
{
    let mut i: usize = 0;
    while i < w.len()
        invariant
            0 <= i <= w@.len(),
            first_zero_from(w@, 0) == first_zero_from(w@, i as int),
            forall|j: int| 0 <= j < i ==> w@[j] != 0,
        decreases w@.len() - i,
    {
        if w[i] == 0 {
            return i;
        }
        i = i + 1;
    }
    w.len()
}

/// The index of the first nonzero byte that follows a zero byte, scanning
/// from `i` with `prev_zero` saying whether byte `i - 1` was zero; -1 when
/// none follows.
pub open spec fn cap_scan(w: Seq<u8>, i: int, prev_zero: bool) -> int
    decreases w.len() - i,
{
    if i < 0 || i >= w.len() {
        -1
    } else if w[i] != 0 && prev_zero {
        i
    } else {
        cap_scan(w, i + 1, w[i] == 0)
    }
}

/// The recorded rewrite capacity of the name at the start of `w`: the index
/// where the next run of nonzero bytes begins, or 0 when the window holds no
/// such index. Best effort: unusual padding can misjudge the true slot size.
pub open spec fn spec_name_cap(w: Seq<u8>) -> int {
    if cap_scan(w, 0, false) == -1 {
        0
    } else {
        cap_scan(w, 0, false)
    }
}

/// Scans for the first zero byte, as `spec_name_len` describes.
pub fn scan_name_len(w: &Vec<u8>) -> (r: usize)
    ensures
        r as int == spec_name_len(w@),
        r <= w@.len(),
{
    let mut i: usize = 0;
    while i < w.len()
        invariant
            0 <= i <= w@.len(),
            first_zero_from(w@, 0) == first_zero_from(w@, i as int),
            forall|j: int| 0 <= j < i ==> w@[j] != 0,
        decreases w@.len() - i,
    {
        if w[i] == 0 {
            return i;
        }
        i = i + 1;
    }
    0
}

/// Scans for the start of the next name, as `spec_name_cap` describes.
pub fn scan_name_cap(w: &Vec<u8>) -> (r: usize)
    ensures
        r as int == spec_name_cap(w@),
        r <= w@.len(),
{
    let mut i: usize = 0;
    let mut prev_zero: bool = false;
    while i < w.len()
        invariant
            0 <= i <= w@.len(),
            cap_scan(w@, 0, false) == cap_scan(w@, i as int, prev_zero),
            i > 0 ==> prev_zero == (w@[i - 1] == 0),
        decreases w@.len() - i,
    {
        if w[i] != 0 && prev_zero {
            return i;
        }
        prev_zero = w[i] == 0;
        i = i + 1;
    }
    0
}

/// The characters a byte sequence is read as when every byte is ASCII.
pub open spec fn ascii_chars(b: Seq<u8>) -> Seq<char> {
    b.map_values(|x: u8| x as char)
}

/// Whether every byte of the sequence is ASCII.
pub open spec fn all_ascii(b: Seq<u8>) -> bool {
    forall|i: int| 0 <= i < b.len() ==> b[i] < 0x80
}

/// Reads bytes as text, replacing what is not valid UTF-8.
///
/// Relies on `String::from_utf8_lossy`: valid UTF-8 is decoded as it stands,
/// and ASCII bytes are their own characters, so on all-ASCII input the result
/// is exactly the bytes read as characters; invalid sequences become
/// replacement characters.
#[verifier::external_body]
pub fn bytes_to_string_lossy(v: &Vec<u8>) -> (r: String)
    ensures
        all_ascii(v@) ==> r@ == ascii_chars(v@),
        v@.len() == 0 ==> r@.len() == 0,
{
    String::from_utf8_lossy(v.as_slice()).into_owned()
}

/// The characters a sequence of UTF-16 units is read as when no unit is a
/// surrogate (every unit then names its own code point).
pub open spec fn utf16_chars(u: Seq<u16>) -> Seq<char> {
    u.map_values(|x: u16| (x as u32) as char)
}

/// Whether no unit of the sequence is a UTF-16 surrogate.
pub open spec fn no_surrogates(u: Seq<u16>) -> bool {
    forall|i: int| 0 <= i < u.len() ==> (u[i] < 0xD800 || u[i] >= 0xE000)
}

/// Reads UTF-16 units as text, replacing what is not valid UTF-16.
///
/// Relies on `String::from_utf16_lossy`: units outside the surrogate range
/// decode to their own code points, so when no unit is a surrogate the result
/// is exactly the units read as characters; unpaired surrogates become
/// replacement characters.
#[verifier::external_body]
pub fn utf16_to_string_lossy(v: &Vec<u16>) -> (r: String)
    ensures
        no_surrogates(v@) ==> r@ == utf16_chars(v@),
        v@.len() == 0 ==> r@.len() == 0,
{
    String::from_utf16_lossy(v.as_slice())
}

} // verus!
