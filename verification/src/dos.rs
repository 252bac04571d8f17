//! The DOS header at the start of every PE image, and the stub that follows
//! it up to the NT header.

use vstd::prelude::*;
use crate::PeError;
use crate::raw::{le16, spec_window, read_u16, take_window};

verus! {

/// The fixed record at offset 0. Its only live fields are the magic and the
/// NT header offset; the rest is kept for display.
#[derive(Debug, Clone, Eq, PartialEq)]
pub struct ImageDosHeader {
    pub e_magic: u16,
    pub e_cblp: u16,
    pub e_cp: u16,
    pub e_crlc: u16,
    pub e_cparhdr: u16,
    pub e_minalloc: u16,
    pub e_maxalloc: u16,
    pub e_ss: u16,
    pub e_sp: u16,
    pub e_csum: u16,
    pub e_ip: u16,
    pub e_cs: u16,
    pub e_lfarlc: u16,
    pub e_ovno: u16,
    pub e_res: [u16; 4],
    pub e_oemid: u16,
    pub e_oeminfo: u16,
    pub e_res2: [u16; 10],
    pub e_lfanew: u16,
}

/// The bytes between the DOS header and the NT header.
#[derive(Debug, Eq, PartialEq)]
pub struct ImageDosStub {
    pub buffer: Vec<u8>,
}

/// Whether `h` holds exactly the fields of the DOS header record at the
/// start of `b`.
pub open spec fn dos_header_matches(b: Seq<u8>, h: ImageDosHeader) -> bool {
    &&& h.e_magic == le16(b, 0)
    &&& h.e_cblp == le16(b, 2)
    &&& h.e_cp == le16(b, 4)
    &&& h.e_crlc == le16(b, 6)
    &&& h.e_cparhdr == le16(b, 8)
    &&& h.e_minalloc == le16(b, 10)
    &&& h.e_maxalloc == le16(b, 12)
    &&& h.e_ss == le16(b, 14)
    &&& h.e_sp == le16(b, 16)
    &&& h.e_csum == le16(b, 18)
    &&& h.e_ip == le16(b, 20)
    &&& h.e_cs == le16(b, 22)
    &&& h.e_lfarlc == le16(b, 24)
    &&& h.e_ovno == le16(b, 26)
    &&& forall|i: int| 0 <= i < 4 ==> h.e_res@[i] == le16(b, 28 + 2 * i)
    &&& h.e_oemid == le16(b, 36)
    &&& h.e_oeminfo == le16(b, 38)
    &&& forall|i: int| 0 <= i < 10 ==> h.e_res2@[i] == le16(b, 40 + 2 * i)
    &&& h.e_lfanew == le16(b, 60)
}

/// Whether the image is long enough to hold a DOS header whose magic field
/// is the expected `MZ` mark.
pub open spec fn spec_dos_ok(b: Seq<u8>) -> bool {
    b.len() >= 64 && le16(b, 0) == 0x5A4D
}

impl ImageDosHeader {
    /// The file offset of the NT header.
    pub fn get_nt_addr(&self) -> (r: u16)
        ensures
            r == self.e_lfanew,
    {
        self.e_lfanew
    }

    /// Decodes the 64-byte DOS header at the start of the image. Fails with
    /// `Truncated` when fewer than 64 bytes are there, and with
    /// `BadDosMagic` when the magic field is not `MZ`.
    pub fn new(d: &Vec<u8>) -> (r: Result<ImageDosHeader, PeError>)
        ensures
            r is Ok <==> spec_dos_ok(d@),
            d@.len() < 64 ==> r == Err::<ImageDosHeader, PeError>(PeError::Truncated),
            d@.len() >= 64 && le16(d@, 0) != 0x5A4D ==> r == Err::<ImageDosHeader, PeError>(
                PeError::BadDosMagic,
            ),
            r is Ok ==> dos_header_matches(d@, r->Ok_0),
    {
        if d.len() < 64 {
            return Err(PeError::Truncated);
        }
        if read_u16(d, 0) != 0x5A4D {
            return Err(PeError::BadDosMagic);
        }
        let h = ImageDosHeader {
            e_magic: read_u16(d, 0),
            e_cblp: read_u16(d, 2),
            e_cp: read_u16(d, 4),
            e_crlc: read_u16(d, 6),
            e_cparhdr: read_u16(d, 8),
            e_minalloc: read_u16(d, 10),
            e_maxalloc: read_u16(d, 12),
            e_ss: read_u16(d, 14),
            e_sp: read_u16(d, 16),
            e_csum: read_u16(d, 18),
            e_ip: read_u16(d, 20),
            e_cs: read_u16(d, 22),
            e_lfarlc: read_u16(d, 24),
            e_ovno: read_u16(d, 26),
            e_res: [read_u16(d, 28), read_u16(d, 30), read_u16(d, 32), read_u16(d, 34)],
            e_oemid: read_u16(d, 36),
            e_oeminfo: read_u16(d, 38),
            e_res2: [
                read_u16(d, 40),
                read_u16(d, 42),
                read_u16(d, 44),
                read_u16(d, 46),
                read_u16(d, 48),
                read_u16(d, 50),
                read_u16(d, 52),
                read_u16(d, 54),
                read_u16(d, 56),
                read_u16(d, 58),
            ],
            e_lfanew: read_u16(d, 60),
        };
        Ok(h)
    }
}

/// What the stub holds: the bytes from offset 64 up to the NT header, both
/// bounds clipped to the image.
pub open spec fn spec_dos_stub(b: Seq<u8>, end: int) -> Seq<u8> {
    if end <= 64 {
        Seq::empty()
    } else {
        spec_window(b, 64, end - 64)
    }
}

impl ImageDosStub {
    /// Copies the stub bytes, from offset 64 up to `dos_stub_end`.
    pub fn new(d: &Vec<u8>, dos_stub_end: u16) -> (r: ImageDosStub)
        ensures
            r.buffer@ == spec_dos_stub(d@, dos_stub_end as int),
    {
        if dos_stub_end <= 64 {
            let r = ImageDosStub { buffer: Vec::new() };
            assert(r.buffer@ =~= spec_dos_stub(d@, dos_stub_end as int));
            r
        } else {
            ImageDosStub { buffer: take_window(d, 64, dos_stub_end as usize - 64) }
        }
    }
}

} // verus!
