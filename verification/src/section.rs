//! The section table, and the mapping from relative virtual addresses to
//! file offsets that every later reader depends on.

use vstd::prelude::*;
use crate::PeError;
use crate::nt::NtHeaders;
use crate::raw::{le16, le32, read_u16, read_u32, spec_window, take_window, ascii_chars, all_ascii};

verus! {

/// The union field of a section header: the unaligned in-memory size.
#[derive(Clone, Copy, Debug, Eq, PartialEq, Structural)]
pub struct SectionHeaderMisc {
    pub virtual_size: u32,
}

/// One section header record: where the section lives in memory and in the
/// file, and its characteristics bits.
#[derive(Clone, Copy, Debug, Eq, PartialEq)]
pub struct ImageSectionHeader {
    pub name: [u8; 8],
    pub misc: SectionHeaderMisc,
    pub virtual_address: u32,
    pub size_of_raw_data: u32,
    pub pointer_to_raw_data: u32,
    pub pointer_to_relocations: u32,
    pub pointer_to_linenumbers: u32,
    pub number_of_relocations: u16,
    pub number_of_linenumbers: u16,
    pub characteristics: u32,
}

/// The file offset a characteristics field was recorded at.
pub type SectionCharAddr = u64;

/// The decoded section table, with the recorded characteristics offsets
/// beside it.
#[derive(Debug, Eq, PartialEq)]
pub struct ImageSectionHeaders(pub Vec<ImageSectionHeader>, pub Vec<SectionCharAddr>);

/// The named section characteristics bits.
#[derive(Clone, Copy, Debug, Eq, PartialEq, Structural)]
pub enum SectionCharacteristics {
    TypeNoPad,
    CntCode,
    CntInitializedData,
    CntUninitializedData,
    LnkOther,
    LnkInfo,
    LnkRemove,
    LnkComdat,
    NoDeferSpecExc,
    Gprel,
    Align1Bytes,
    Align2Bytes,
    Align4Bytes,
    Align8Bytes,
    Align16Bytes,
    Align32Bytes,
    Align64Bytes,
    Align128Bytes,
    Align256Bytes,
    Align512Bytes,
    Align1024Bytes,
    Align2048Bytes,
    Align4096Bytes,
    Align8192Bytes,
    LnkNrelocOvfl,
    MemDiscardable,
    MemNotCached,
    MemNotPaged,
    MemShared,
    MemExecute,
    MemRead,
    MemWrite,
}

impl SectionCharacteristics {
    /// The bit pattern of the flag in the characteristics field.
    pub fn mask(&self) -> (r: u32)
        ensures
            r == self.spec_mask(),
    {
        match self {
            SectionCharacteristics::TypeNoPad => 0x00000008,
            SectionCharacteristics::CntCode => 0x00000020,
            SectionCharacteristics::CntInitializedData => 0x00000040,
            SectionCharacteristics::CntUninitializedData => 0x00000080,
            SectionCharacteristics::LnkOther => 0x00000100,
            SectionCharacteristics::LnkInfo => 0x00000200,
            SectionCharacteristics::LnkRemove => 0x00000800,
            SectionCharacteristics::LnkComdat => 0x00001000,
            SectionCharacteristics::NoDeferSpecExc => 0x00004000,
            SectionCharacteristics::Gprel => 0x00008000,
            SectionCharacteristics::Align1Bytes => 0x00100000,
            SectionCharacteristics::Align2Bytes => 0x00200000,
            SectionCharacteristics::Align4Bytes => 0x00300000,
            SectionCharacteristics::Align8Bytes => 0x00400000,
            SectionCharacteristics::Align16Bytes => 0x00500000,
            SectionCharacteristics::Align32Bytes => 0x00600000,
            SectionCharacteristics::Align64Bytes => 0x00700000,
            SectionCharacteristics::Align128Bytes => 0x00800000,
            SectionCharacteristics::Align256Bytes => 0x00900000,
            SectionCharacteristics::Align512Bytes => 0x00A00000,
            SectionCharacteristics::Align1024Bytes => 0x00B00000,
            SectionCharacteristics::Align2048Bytes => 0x00C00000,
            SectionCharacteristics::Align4096Bytes => 0x00D00000,
            SectionCharacteristics::Align8192Bytes => 0x00E00000,
            SectionCharacteristics::LnkNrelocOvfl => 0x01000000,
            SectionCharacteristics::MemDiscardable => 0x02000000,
            SectionCharacteristics::MemNotCached => 0x04000000,
            SectionCharacteristics::MemNotPaged => 0x08000000,
            SectionCharacteristics::MemShared => 0x10000000,
            SectionCharacteristics::MemExecute => 0x20000000,
            SectionCharacteristics::MemRead => 0x40000000,
            SectionCharacteristics::MemWrite => 0x80000000,
        }
    }

    /// The bit pattern of each flag.
    pub open spec fn spec_mask(&self) -> u32 {
        match self {
            SectionCharacteristics::TypeNoPad => 0x00000008,
            SectionCharacteristics::CntCode => 0x00000020,
            SectionCharacteristics::CntInitializedData => 0x00000040,
            SectionCharacteristics::CntUninitializedData => 0x00000080,
            SectionCharacteristics::LnkOther => 0x00000100,
            SectionCharacteristics::LnkInfo => 0x00000200,
            SectionCharacteristics::LnkRemove => 0x00000800,
            SectionCharacteristics::LnkComdat => 0x00001000,
            SectionCharacteristics::NoDeferSpecExc => 0x00004000,
            SectionCharacteristics::Gprel => 0x00008000,
            SectionCharacteristics::Align1Bytes => 0x00100000,
            SectionCharacteristics::Align2Bytes => 0x00200000,
            SectionCharacteristics::Align4Bytes => 0x00300000,
            SectionCharacteristics::Align8Bytes => 0x00400000,
            SectionCharacteristics::Align16Bytes => 0x00500000,
            SectionCharacteristics::Align32Bytes => 0x00600000,
            SectionCharacteristics::Align64Bytes => 0x00700000,
            SectionCharacteristics::Align128Bytes => 0x00800000,
            SectionCharacteristics::Align256Bytes => 0x00900000,
            SectionCharacteristics::Align512Bytes => 0x00A00000,
            SectionCharacteristics::Align1024Bytes => 0x00B00000,
            SectionCharacteristics::Align2048Bytes => 0x00C00000,
            SectionCharacteristics::Align4096Bytes => 0x00D00000,
            SectionCharacteristics::Align8192Bytes => 0x00E00000,
            SectionCharacteristics::LnkNrelocOvfl => 0x01000000,
            SectionCharacteristics::MemDiscardable => 0x02000000,
            SectionCharacteristics::MemNotCached => 0x04000000,
            SectionCharacteristics::MemNotPaged => 0x08000000,
            SectionCharacteristics::MemShared => 0x10000000,
            SectionCharacteristics::MemExecute => 0x20000000,
            SectionCharacteristics::MemRead => 0x40000000,
            SectionCharacteristics::MemWrite => 0x80000000,
        }
    }
}

/// Whether `h` holds exactly the 40-byte section record at `off`.
pub open spec fn section_matches(b: Seq<u8>, off: int, h: ImageSectionHeader) -> bool {
    &&& forall|j: int| 0 <= j < 8 ==> h.name@[j] == b[off + j]
    &&& h.misc.virtual_size == le32(b, off + 8)
    &&& h.virtual_address == le32(b, off + 12)
    &&& h.size_of_raw_data == le32(b, off + 16)
    &&& h.pointer_to_raw_data == le32(b, off + 20)
    &&& h.pointer_to_relocations == le32(b, off + 24)
    &&& h.pointer_to_linenumbers == le32(b, off + 28)
    &&& h.number_of_relocations == le16(b, off + 32)
    &&& h.number_of_linenumbers == le16(b, off + 34)
    &&& h.characteristics == le32(b, off + 36)
}

impl ImageSectionHeader {
    /// Decodes the 40-byte section record at `off`.
    pub fn new(d: &Vec<u8>, off: usize) -> (r: Result<ImageSectionHeader, PeError>)
        ensures
            r is Ok <==> off + 40 <= d@.len(),
            r is Err ==> r == Err::<ImageSectionHeader, PeError>(PeError::Truncated),
            r is Ok ==> section_matches(d@, off as int, r->Ok_0),
    {
        if d.len() < 40 || off > d.len() - 40 {
            return Err(PeError::Truncated);
        }
        Ok(
            ImageSectionHeader {
                name: [
                    d[off],
                    d[off + 1],
                    d[off + 2],
                    d[off + 3],
                    d[off + 4],
                    d[off + 5],
                    d[off + 6],
                    d[off + 7],
                ],
                misc: SectionHeaderMisc { virtual_size: read_u32(d, off + 8) },
                virtual_address: read_u32(d, off + 12),
                size_of_raw_data: read_u32(d, off + 16),
                pointer_to_raw_data: read_u32(d, off + 20),
                pointer_to_relocations: read_u32(d, off + 24),
                pointer_to_linenumbers: read_u32(d, off + 28),
                number_of_relocations: read_u16(d, off + 32),
                number_of_linenumbers: read_u16(d, off + 34),
                characteristics: read_u32(d, off + 36),
            },
        )
    }
}

impl ImageSectionHeaders {
    /// Decodes `section_num` consecutive 40-byte records starting at
    /// `section_addr`, recording beside each the file offset of its own
    /// characteristics field.
    pub fn new(d: &Vec<u8>, section_addr: u32, section_num: u16) -> (r: Result<
        ImageSectionHeaders,
        PeError,
    >)
        ensures
            r is Ok <==> section_addr + 40 * section_num <= d@.len(),
            r is Err ==> r == Err::<ImageSectionHeaders, PeError>(PeError::Truncated),
            r is Ok ==> {
                let t = r->Ok_0;
                &&& t.0@.len() == section_num
                &&& t.1@.len() == section_num
                &&& forall|i: int|
                    0 <= i < section_num ==> section_matches(
                        d@,
                        section_addr + 40 * i,
                        #[trigger] t.0@[i],
                    )
                &&& forall|i: int|
                    0 <= i < section_num ==> t.1@[i] == section_addr + 40 * i + 36
            },
    {
        let n: usize = section_num as usize;
        if (d.len() as u64) < (section_addr as u64) + 40 * (n as u64) {
            return Err(PeError::Truncated);
        }
        let mut r = ImageSectionHeaders(Vec::new(), Vec::new());
        let mut i: usize = 0;
        while i < n
            invariant
                d@.len() <= usize::MAX,
                section_addr + 40 * n <= d@.len(),
                0 <= i <= n,
                r.0@.len() == i,
                r.1@.len() == i,
                forall|j: int|
                    0 <= j < i ==> section_matches(d@, section_addr + 40 * j, #[trigger] r.0@[j]),
                forall|j: int| 0 <= j < i ==> r.1@[j] == section_addr + 40 * j + 36,
            decreases n - i,
        {
            let off: usize = section_addr as usize + 40 * i;
            let h = match ImageSectionHeader::new(d, off) {
                Ok(h) => h,
                Err(_) => { return Err(PeError::Truncated) },
            };
            r.add(h);
            r.add_addr(section_addr as u64 + 40 * (i as u64) + 36);
            i = i + 1;
        }
        Ok(r)
    }

    /// Appends one decoded record.
    pub fn add(&mut self, section_header: ImageSectionHeader)
        ensures
            final(self).0@ == old(self).0@.push(section_header),
            final(self).1@ == old(self).1@,
    {
        self.0.push(section_header);
    }

    /// Appends one recorded characteristics offset.
    pub fn add_addr(&mut self, addr: SectionCharAddr)
        ensures
            final(self).1@ == old(self).1@.push(addr),
            final(self).0@ == old(self).0@,
    {
        self.1.push(addr)
    }

    /// How many records the table holds.
    pub fn get_num(&self) -> (r: Result<usize, PeError>)
        ensures
            r == Ok::<usize, PeError>(self.0@.len() as usize),
    {
        Ok(self.0.len())
    }

    /// The first address past the section's file-sized span in memory.
    pub fn get_virtual_rva_end(&self, index: usize) -> (r: u32)
        requires
            index < self.0@.len(),
            self.0@[index as int].virtual_address + self.0@[index as int].size_of_raw_data
                <= u32::MAX,
        ensures
            r == self.0@[index as int].virtual_address + self.0@[index as int].size_of_raw_data,
    {
        self.0[index].virtual_address + self.0[index].size_of_raw_data
    }

    /// The section's name bytes read as text; bytes that are not ASCII are
    /// replaced.
    pub fn get_section_name(&self, index: usize) -> (r: Result<String, PeError>)
        requires
            index < self.0@.len(),
        ensures
            r is Ok,
            all_ascii(self.0@[index as int].name@) ==> r->Ok_0@ == ascii_chars(
                self.0@[index as int].name@,
            ),
    {
        let mut v: Vec<u8> = Vec::new();
        let name = &self.0[index].name;
        let mut j: usize = 0;
        while j < 8
            invariant
                0 <= j <= 8,
                name@.len() == 8,
                v@ =~= name@.subrange(0, j as int),
            decreases 8 - j,
        {
            v.push(name[j]);
            assert(v@ =~= name@.subrange(0, j + 1));
            j = j + 1;
        }
        assert(v@ =~= name@);
        Ok(crate::raw::bytes_to_string_lossy(&v))
    }

    /// The unaligned in-memory size recorded in the union field.
    pub fn get_section_misc(&self, index: usize) -> (r: Result<u32, PeError>)
        requires
            index < self.0@.len(),
        ensures
            r == Ok::<u32, PeError>(self.0@[index as int].misc.virtual_size),
    {
        Ok(self.0[index].misc.virtual_size)
    }

    /// The aligned on-disk size.
    pub fn get_section_size_of_raw_data(&self, index: usize) -> (r: Result<u32, PeError>)
        requires
            index < self.0@.len(),
        ensures
            r == Ok::<u32, PeError>(self.0@[index as int].size_of_raw_data),
    {
        Ok(self.0[index].size_of_raw_data)
    }

    /// The section's file offset.
    pub fn get_section_pointer_to_raw_data(&self, index: usize) -> (r: u32)
        requires
            index < self.0@.len(),
        ensures
            r == self.0@[index as int].pointer_to_raw_data,
    {
        self.0[index].pointer_to_raw_data
    }

    /// The section's virtual address.
    pub fn get_section_virtual_address(&self, index: usize) -> (r: u32)
        requires
            index < self.0@.len(),
        ensures
            r == self.0@[index as int].virtual_address,
    {
        self.0[index].virtual_address
    }

    /// The line-number count.
    pub fn get_section_number_of_linenumbers(&self, index: usize) -> (r: u16)
        requires
            index < self.0@.len(),
        ensures
            r == self.0@[index as int].number_of_linenumbers,
    {
        self.0[index].number_of_linenumbers
    }

    /// The relocation count.
    pub fn get_section_number_of_relocations(&self, index: usize) -> (r: u16)
        requires
            index < self.0@.len(),
        ensures
            r == self.0@[index as int].number_of_relocations,
    {
        self.0[index].number_of_relocations
    }

    /// The file offset of the line-number records.
    pub fn get_section_pointer_to_linenumbers(&self, index: usize) -> (r: u32)
        requires
            index < self.0@.len(),
        ensures
            r == self.0@[index as int].pointer_to_linenumbers,
    {
        self.0[index].pointer_to_linenumbers
    }

    /// The characteristics bits.
    pub fn get_section_characteristics(&self, index: usize) -> (r: u32)
        requires
            index < self.0@.len(),
        ensures
            r == self.0@[index as int].characteristics,
    {
        self.0[index].characteristics
    }

    /// The recorded file offset of the characteristics field.
    pub fn get_section_characteristics_addr(&self, index: usize) -> (r: u64)
        requires
            index < self.1@.len(),
        ensures
            r == self.1@[index as int],
    {
        self.1[index]
    }

    /// The file offset of the relocation records.
    pub fn get_section_pointer_to_relocations(&self, index: usize) -> (r: u32)
        requires
            index < self.0@.len(),
        ensures
            r == self.0@[index as int].pointer_to_relocations,
    {
        self.0[index].pointer_to_relocations
    }
}

/// One section's raw bytes, copied out of the image.
#[derive(Debug)]
pub struct SectionData {
    pub f_address: u32,
    pub f_size: u32,
    pub data: Vec<u8>,
}

impl SectionData {
    /// Copies the section's on-disk bytes; a span past the end of the image
    /// is clipped.
    pub fn new(d: &Vec<u8>, point_to_raw_data: u32, size_of_raw_data: u32) -> (r: SectionData)
        ensures
            r.f_address == point_to_raw_data,
            r.f_size == size_of_raw_data,
            r.data@ == spec_window(d@, point_to_raw_data as int, size_of_raw_data as int),
    {
        SectionData {
            f_address: point_to_raw_data,
            f_size: size_of_raw_data,
            data: take_window(d, point_to_raw_data as usize, size_of_raw_data as usize),
        }
    }
}

/// Whether the section's file-sized span covers the address.
pub open spec fn section_contains(s: ImageSectionHeader, rva: u32) -> bool {
    s.virtual_address <= rva < s.virtual_address + s.size_of_raw_data
}

/// The first section among the first `n` whose span covers `rva`, or -1.
pub open spec fn first_hit(ss: Seq<ImageSectionHeader>, n: int, rva: u32, i: int) -> int
    decreases n - i,
{
    if i < 0 || i >= n || i >= ss.len() {
        -1
    } else if section_contains(ss[i], rva) {
        i
    } else {
        first_hit(ss, n, rva, i + 1)
    }
}

/// The translated offset: the covering section's file pointer plus the
/// address's distance into the section.
pub open spec fn spec_translation(s: ImageSectionHeader, rva: u32) -> int {
    s.pointer_to_raw_data + rva - s.virtual_address
}

/// What `rva_2_fo` returns: the translation through the first of the `n`
/// sections that covers `rva`, absent when none does or when the offset
/// would not fit 32 bits.
pub open spec fn spec_rva_2_fo(ss: Seq<ImageSectionHeader>, n: int, rva: u32) -> Option<u32> {
    let hit = first_hit(ss, n, rva, 0);
    if hit == -1 {
        None
    } else if spec_translation(ss[hit], rva) <= u32::MAX {
        Some(spec_translation(ss[hit], rva) as u32)
    } else {
        None
    }
}

/// The first hit lands exactly on `i` when no earlier section covers the
/// address and section `i` does.
proof fn lemma_first_hit_at(ss: Seq<ImageSectionHeader>, n: int, rva: u32, i: int, k: int)
    requires
        0 <= k <= i < n <= ss.len(),
        section_contains(ss[i], rva),
        forall|j: int| k <= j < i ==> !section_contains(#[trigger] ss[j], rva),
    ensures
        first_hit(ss, n, rva, k) == i,
    decreases i - k,
{
    if k < i {
        lemma_first_hit_at(ss, n, rva, i, k + 1);
    }
}

/// The walk finds nothing when no section from `k` on covers the address.
proof fn lemma_first_hit_none(ss: Seq<ImageSectionHeader>, n: int, rva: u32, k: int)
    requires
        0 <= k,
        n <= ss.len(),
        forall|j: int| k <= j < n ==> !section_contains(#[trigger] ss[j], rva),
    ensures
        first_hit(ss, n, rva, k) == -1,
    decreases n - k,
{
    if k < n {
        lemma_first_hit_none(ss, n, rva, k + 1);
    }
}

/// The address-translation rule, stated the way the layout rules give
/// it: when section `i` is the first of the `n` whose span covers `rva`,
/// the translation is that section's file pointer plus the address's
/// distance into it.
pub proof fn lemma_rva_translation_covers(ss: Seq<ImageSectionHeader>, n: int, rva: u32, i: int)
    requires
        0 <= i < n <= ss.len(),
        section_contains(ss[i], rva),
        forall|j: int| 0 <= j < i ==> !section_contains(#[trigger] ss[j], rva),
        spec_translation(ss[i], rva) <= u32::MAX,
    ensures
        spec_rva_2_fo(ss, n, rva) == Some(spec_translation(ss[i], rva) as u32),
{
    lemma_first_hit_at(ss, n, rva, i, 0);
}

/// The other half of the rule: an address outside every section's span
/// translates to nothing.
pub proof fn lemma_rva_translation_absent(ss: Seq<ImageSectionHeader>, n: int, rva: u32)
    requires
        0 <= n <= ss.len(),
        forall|j: int| 0 <= j < n ==> !section_contains(#[trigger] ss[j], rva),
    ensures
        spec_rva_2_fo(ss, n, rva) is None,
{
    lemma_first_hit_none(ss, n, rva, 0);
}

/// Translates a relative virtual address to a file offset by first match
/// over the section table, in table order.
///
/// Absence is not an error: an address outside every section's span yields
/// `None`, as does a translated offset that does not fit 32 bits (only a
/// malformed table produces one).
pub fn rva_2_fo(nt_head: &NtHeaders, section_heads: &ImageSectionHeaders, rva: u32) -> (r: Option<
    u32,
>)
    requires
        section_heads.0@.len() >= nt_head.spec_section_number(),
    ensures
        r == spec_rva_2_fo(section_heads.0@, nt_head.spec_section_number() as int, rva),
{
    let n: u16 = nt_head.section_number();
    let mut i: usize = 0;
    while i < n as usize
        invariant
            n == nt_head.spec_section_number(),
            section_heads.0@.len() >= n,
            0 <= i <= n,
            first_hit(section_heads.0@, n as int, rva, 0) == first_hit(
                section_heads.0@,
                n as int,
                rva,
                i as int,
            ),
        decreases n as int - i,
    {
        let start = section_heads.get_section_virtual_address(i);
        let size = section_heads.get_section_size_of_raw_data(i);
        let size = match size {
            Ok(s) => s,
            Err(_) => { return None },
        };
        let end: u64 = start as u64 + size as u64;
        if rva >= start && (rva as u64) < end {
            let fo: u64 = section_heads.get_section_pointer_to_raw_data(i) as u64 + (rva
                - start) as u64;
            proof {
                assert(section_contains(section_heads.0@[i as int], rva));
                assert(first_hit(section_heads.0@, n as int, rva, i as int) == i);
                assert(first_hit(
                    section_heads.0@,
                    nt_head.spec_section_number() as int,
                    rva,
                    0,
                ) == i as int);
                assert(fo == spec_translation(section_heads.0@[i as int], rva));
            }
            if fo > u32::MAX as u64 {
                return None;
            }
            return Some(fo as u32);
        }
        i = i + 1;
    }
    None
}

} // verus!
