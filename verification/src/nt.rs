//! The NT header: File Header, the two Optional Header widths, and the data
//! directory that follows them.
//!
//! Width selection goes by the File Header's machine field alone, against
//! two disjoint sets of known machine ids. Everything else is decoded from
//! fixed little-endian offsets.

use vstd::prelude::*;
use crate::PeError;
use crate::dos::ImageDosHeader;
use crate::raw::{le16, le32, le64, read_u16, read_u32, read_u64};

verus! {

/// The shared File Header fields of both widths.
#[derive(Debug, Clone, Copy, Eq, PartialEq, Structural)]
pub struct ImageFileHeader {
    pub machine: u16,
    pub number_of_sections: u16,
    pub time_date_stamp: u32,
    pub pointer_to_symbol_table: u32,
    pub number_of_symbols: u32,
    pub size_of_optional_header: u16,
    pub characteristics: u16,
}

/// The Optional Header of a 32-bit image: a 32-bit image base, a separate
/// base-of-data field, and 32-bit stack and heap sizes.
#[derive(Debug, Clone, Copy, Eq, PartialEq, Structural)]
pub struct ImageOptionalHeader {
    pub magic: u16,
    pub major_linker_version: u8,
    pub minor_linker_version: u8,
    pub size_of_code: u32,
    pub size_of_initialized_data: u32,
    pub size_of_uninitialized_data: u32,
    pub address_of_entry_point: u32,
    pub base_of_code: u32,
    pub base_of_data: u32,
    pub image_base: u32,
    pub section_alignment: u32,
    pub file_alignment: u32,
    pub major_operating_system_version: u16,
    pub minor_operating_system_version: u16,
    pub major_image_version: u16,
    pub minor_image_version: u16,
    pub major_subsystem_version: u16,
    pub minor_subsystem_version: u16,
    pub win32version_value: u32,
    pub size_of_image: u32,
    pub size_of_headers: u32,
    pub check_sum: u32,
    pub subsystem: u16,
    pub dll_characteristics: u16,
    pub size_of_stack_reserve: u32,
    pub size_of_stack_commit: u32,
    pub size_of_heap_reserve: u32,
    pub size_of_heap_commit: u32,
    pub loader_flags: u32,
    pub number_of_rva_and_sizes: u32,
}

/// The Optional Header of a 64-bit image: a 64-bit image base, no
/// base-of-data field, and 64-bit stack and heap sizes.
#[derive(Debug, Clone, Copy, Eq, PartialEq, Structural)]
pub struct ImageOptionalHeader64 {
    pub magic: u16,
    pub major_linker_version: u8,
    pub long_minor_linker_version: u8,
    pub size_of_code: u32,
    pub size_of_initialized_data: u32,
    pub size_of_uninitialized_data: u32,
    pub address_of_entry_point: u32,
    pub base_of_code: u32,
    pub image_base: u64,
    pub section_alignment: u32,
    pub file_alignment: u32,
    pub major_operating_system_version: u16,
    pub minor_operating_system_version: u16,
    pub major_image_version: u16,
    pub minor_image_version: u16,
    pub major_subsystem_version: u16,
    pub minor_subsystem_version: u16,
    pub win32_version_value: u32,
    pub size_of_image: u32,
    pub size_of_headers: u32,
    pub checksum: u32,
    pub subsystem: u16,
    pub dll_characteristics: u16,
    pub size_of_stack_reserve: u64,
    pub size_of_stack_commit: u64,
    pub size_of_heap_reserve: u64,
    pub size_of_heap_commit: u64,
    pub loader_flags: u32,
    pub number_of_rva_and_sizes: u32,
}

/// One data-directory slot: where a special table lives and how large the
/// linker declared it.
#[derive(Debug, Clone, Copy, Eq, PartialEq, Structural)]
pub struct ImageDataDirectory {
    pub virtual_address: u32,
    pub size: u32,
}

/// The ordered data-directory slots; slot 0 is the export table, slot 1 the
/// import table, slot 2 the resource tree.
#[derive(Debug, Clone, Eq, PartialEq)]
pub struct DataDirectory(pub Vec<ImageDataDirectory>);

/// The NT header of a 32-bit image.
#[derive(Debug, Clone, Copy, Eq, PartialEq, Structural)]
pub struct ImageNtHeaders {
    pub signature: u32,
    pub file_header: ImageFileHeader,
    pub optional_header: ImageOptionalHeader,
}

/// The NT header of a 64-bit image.
#[derive(Debug, Clone, Copy, Eq, PartialEq, Structural)]
pub struct ImageNtHeaders64 {
    pub signature: u32,
    pub file_header: ImageFileHeader,
    pub optional_header: ImageOptionalHeader64,
}

/// The NT header of either width behind one interface. The variant is fixed
/// when the header is decoded and never changes afterwards.
#[derive(Debug, Clone, Copy, Eq, PartialEq, Structural)]
pub enum NtHeaders {
    Bits32(ImageNtHeaders),
    Bits64(ImageNtHeaders64),
}

/// Whether the machine id names one of the known 32-bit architectures.
pub open spec fn spec_machine_32(m: u16) -> bool {
    ||| m == 0x014C
    ||| m == 0x162
    ||| m == 0x166
    ||| m == 0x168
    ||| m == 0x169
    ||| m == 0x184
    ||| m == 0x1a2
    ||| m == 0x1a3
    ||| m == 0x1a4
    ||| m == 0x1a6
    ||| m == 0x1a8
    ||| m == 0x1c0
    ||| m == 0x1c2
    ||| m == 0x1c4
    ||| m == 0x1d3
    ||| m == 0x1f0
    ||| m == 0x1f1
    ||| m == 0x266
    ||| m == 0x366
    ||| m == 0x466
    ||| m == 0x520
}

/// Whether the machine id names one of the known 64-bit architectures.
pub open spec fn spec_machine_64(m: u16) -> bool {
    ||| m == 0x8664
    ||| m == 0x0200
    ||| m == 0x0284
    ||| m == 0xAA64
}

/// Tests the 32-bit machine-id set.
pub fn machine_is_32(m: u16) -> (r: bool)
    ensures
        r == spec_machine_32(m),
{
    m == 0x014C || m == 0x162 || m == 0x166 || m == 0x168 || m == 0x169 || m == 0x184 || m == 0x1a2
        || m == 0x1a3 || m == 0x1a4 || m == 0x1a6 || m == 0x1a8 || m == 0x1c0 || m == 0x1c2 || m
        == 0x1c4 || m == 0x1d3 || m == 0x1f0 || m == 0x1f1 || m == 0x266 || m == 0x366 || m == 0x466
        || m == 0x520
}

/// Tests the 64-bit machine-id set.
pub fn machine_is_64(m: u16) -> (r: bool)
    ensures
        r == spec_machine_64(m),
{
    m == 0x8664 || m == 0x0200 || m == 0x0284 || m == 0xAA64
}

/// Whether `h` holds exactly the File Header record at `off`.
pub open spec fn file_header_matches(b: Seq<u8>, off: int, h: ImageFileHeader) -> bool {
    &&& h.machine == le16(b, off)
    &&& h.number_of_sections == le16(b, off + 2)
    &&& h.time_date_stamp == le32(b, off + 4)
    &&& h.pointer_to_symbol_table == le32(b, off + 8)
    &&& h.number_of_symbols == le32(b, off + 12)
    &&& h.size_of_optional_header == le16(b, off + 16)
    &&& h.characteristics == le16(b, off + 18)
}

/// The machine field of the image whose DOS header places the NT header at
/// `nt`: the 16-bit field right after the 4-byte signature.
pub open spec fn spec_machine_field(b: Seq<u8>, nt: int) -> u16 {
    le16(b, nt + 4)
}

impl ImageFileHeader {
    /// Decodes the File Header that follows the NT signature.
    pub fn new(d: &Vec<u8>, image_dos_header: &ImageDosHeader) -> (r: Result<
        ImageFileHeader,
        PeError,
    >)
        ensures
            r is Ok <==> image_dos_header.e_lfanew + 24 <= d@.len(),
            r is Err ==> r == Err::<ImageFileHeader, PeError>(PeError::Truncated),
            r is Ok ==> file_header_matches(d@, image_dos_header.e_lfanew + 4, r->Ok_0),
    {
        let off: usize = image_dos_header.get_nt_addr() as usize + 4;
        if d.len() < off + 20 {
            return Err(PeError::Truncated);
        }
        Ok(
            ImageFileHeader {
                machine: read_u16(d, off),
                number_of_sections: read_u16(d, off + 2),
                time_date_stamp: read_u32(d, off + 4),
                pointer_to_symbol_table: read_u32(d, off + 8),
                number_of_symbols: read_u32(d, off + 12),
                size_of_optional_header: read_u16(d, off + 16),
                characteristics: read_u16(d, off + 18),
            },
        )
    }
}

/// Decides the header width from the machine field, as the File Header at
/// the DOS header's NT offset declares it: a known 32-bit id selects the
/// 32-bit variant, a known 64-bit id the 64-bit one, and any other value is
/// refused.
pub fn is_64(d: &Vec<u8>, image_dos_header: &ImageDosHeader) -> (r: Result<bool, PeError>)
    ensures
        image_dos_header.e_lfanew + 24 > d@.len() ==> r == Err::<bool, PeError>(PeError::Truncated),
        image_dos_header.e_lfanew + 24 <= d@.len() ==> {
            let m = spec_machine_field(d@, image_dos_header.e_lfanew as int);
            &&& spec_machine_32(m) ==> r == Ok::<bool, PeError>(false)
            &&& spec_machine_64(m) ==> r == Ok::<bool, PeError>(true)
            &&& !spec_machine_32(m) && !spec_machine_64(m) ==> r == Err::<bool, PeError>(
                PeError::UnknownMachine,
            )
        },
{
    let image_file_header = match ImageFileHeader::new(d, image_dos_header) {
        Ok(h) => h,
        Err(e) => { return Err(e) },
    };
    if machine_is_32(image_file_header.machine) {
        return Ok(false);
    }
    if machine_is_64(image_file_header.machine) {
        return Ok(true);
    }
    Err(PeError::UnknownMachine)
}

/// Whether `h` holds exactly the 32-bit Optional Header record at `o`.
pub open spec fn opt32_matches(b: Seq<u8>, o: int, h: ImageOptionalHeader) -> bool {
    &&& h.magic == le16(b, o)
    &&& h.major_linker_version == b[o + 2]
    &&& h.minor_linker_version == b[o + 3]
    &&& h.size_of_code == le32(b, o + 4)
    &&& h.size_of_initialized_data == le32(b, o + 8)
    &&& h.size_of_uninitialized_data == le32(b, o + 12)
    &&& h.address_of_entry_point == le32(b, o + 16)
    &&& h.base_of_code == le32(b, o + 20)
    &&& h.base_of_data == le32(b, o + 24)
    &&& h.image_base == le32(b, o + 28)
    &&& h.section_alignment == le32(b, o + 32)
    &&& h.file_alignment == le32(b, o + 36)
    &&& h.major_operating_system_version == le16(b, o + 40)
    &&& h.minor_operating_system_version == le16(b, o + 42)
    &&& h.major_image_version == le16(b, o + 44)
    &&& h.minor_image_version == le16(b, o + 46)
    &&& h.major_subsystem_version == le16(b, o + 48)
    &&& h.minor_subsystem_version == le16(b, o + 50)
    &&& h.win32version_value == le32(b, o + 52)
    &&& h.size_of_image == le32(b, o + 56)
    &&& h.size_of_headers == le32(b, o + 60)
    &&& h.check_sum == le32(b, o + 64)
    &&& h.subsystem == le16(b, o + 68)
    &&& h.dll_characteristics == le16(b, o + 70)
    &&& h.size_of_stack_reserve == le32(b, o + 72)
    &&& h.size_of_stack_commit == le32(b, o + 76)
    &&& h.size_of_heap_reserve == le32(b, o + 80)
    &&& h.size_of_heap_commit == le32(b, o + 84)
    &&& h.loader_flags == le32(b, o + 88)
    &&& h.number_of_rva_and_sizes == le32(b, o + 92)
}

/// Whether `h` holds exactly the 64-bit Optional Header record at `o`.
pub open spec fn opt64_matches(b: Seq<u8>, o: int, h: ImageOptionalHeader64) -> bool {
    &&& h.magic == le16(b, o)
    &&& h.major_linker_version == b[o + 2]
    &&& h.long_minor_linker_version == b[o + 3]
    &&& h.size_of_code == le32(b, o + 4)
    &&& h.size_of_initialized_data == le32(b, o + 8)
    &&& h.size_of_uninitialized_data == le32(b, o + 12)
    &&& h.address_of_entry_point == le32(b, o + 16)
    &&& h.base_of_code == le32(b, o + 20)
    &&& h.image_base == le64(b, o + 24)
    &&& h.section_alignment == le32(b, o + 32)
    &&& h.file_alignment == le32(b, o + 36)
    &&& h.major_operating_system_version == le16(b, o + 40)
    &&& h.minor_operating_system_version == le16(b, o + 42)
    &&& h.major_image_version == le16(b, o + 44)
    &&& h.minor_image_version == le16(b, o + 46)
    &&& h.major_subsystem_version == le16(b, o + 48)
    &&& h.minor_subsystem_version == le16(b, o + 50)
    &&& h.win32_version_value == le32(b, o + 52)
    &&& h.size_of_image == le32(b, o + 56)
    &&& h.size_of_headers == le32(b, o + 60)
    &&& h.checksum == le32(b, o + 64)
    &&& h.subsystem == le16(b, o + 68)
    &&& h.dll_characteristics == le16(b, o + 70)
    &&& h.size_of_stack_reserve == le64(b, o + 72)
    &&& h.size_of_stack_commit == le64(b, o + 80)
    &&& h.size_of_heap_reserve == le64(b, o + 88)
    &&& h.size_of_heap_commit == le64(b, o + 96)
    &&& h.loader_flags == le32(b, o + 104)
    &&& h.number_of_rva_and_sizes == le32(b, o + 108)
}

/// The size of the fixed NT record (signature, File Header and Optional
/// Header) for the selected width.
pub open spec fn spec_nt_fixed_size(is_64_bit: bool) -> int {
    if is_64_bit {
        136
    } else {
        120
    }
}

/// The declared data-directory count of the NT record at `nt`.
pub open spec fn spec_num_rva(b: Seq<u8>, nt: int, is_64_bit: bool) -> u32 {
    if is_64_bit {
        le32(b, nt + 24 + 108)
    } else {
        le32(b, nt + 24 + 92)
    }
}

/// Whether `dd` holds exactly the `n` (virtual address, size) pairs that
/// start at `o`.
pub open spec fn dirs_match(b: Seq<u8>, o: int, n: int, dd: DataDirectory) -> bool {
    &&& dd.0@.len() == n
    &&& forall|i: int|
        0 <= i < n ==> (#[trigger] dd.0@[i]) == ImageDataDirectory {
            virtual_address: le32(b, o + 8 * i),
            size: le32(b, o + 8 * i + 4),
        }
}

/// Whether `h` holds exactly the NT record at `nt`, in the width its
/// variant names.
pub open spec fn nt_headers_match(b: Seq<u8>, nt: int, h: NtHeaders) -> bool {
    match h {
        NtHeaders::Bits32(v) => {
            &&& v.signature == le32(b, nt)
            &&& file_header_matches(b, nt + 4, v.file_header)
            &&& opt32_matches(b, nt + 24, v.optional_header)
        },
        NtHeaders::Bits64(v) => {
            &&& v.signature == le32(b, nt)
            &&& file_header_matches(b, nt + 4, v.file_header)
            &&& opt64_matches(b, nt + 24, v.optional_header)
        },
    }
}

/// Whether the image holds, at `nt`, a complete NT record of the given
/// width, the expected signature, and all its declared directory slots.
pub open spec fn spec_nt_ok(b: Seq<u8>, nt: int, is_64_bit: bool) -> bool {
    &&& nt + spec_nt_fixed_size(is_64_bit) <= b.len()
    &&& le32(b, nt) == 0x4550
    &&& nt + spec_nt_fixed_size(is_64_bit) + 8 * spec_num_rva(b, nt, is_64_bit) <= b.len()
}

/// Decodes the NT record at `start_addr` in the width `is_64_bit` selects,
/// and the data directory that follows it: the declared number of 8-byte
/// (virtual address, size) pairs.
///
/// Fails with `Truncated` when the record or the directory runs past the
/// end of the image, and with `BadNtSignature` when the signature field is
/// not "PE\0\0".
pub fn read_nt_head(d: &Vec<u8>, start_addr: u16, is_64_bit: bool) -> (r: Result<
    (NtHeaders, DataDirectory),
    PeError,
>)
    ensures
        r is Ok <==> spec_nt_ok(d@, start_addr as int, is_64_bit),
        r is Ok ==> {
            let (h, dd) = r->Ok_0;
            &&& nt_headers_match(d@, start_addr as int, h)
            &&& (h is Bits64 <==> is_64_bit)
            &&& dirs_match(
                d@,
                start_addr + spec_nt_fixed_size(is_64_bit),
                spec_num_rva(d@, start_addr as int, is_64_bit) as int,
                dd,
            )
        },
        start_addr + spec_nt_fixed_size(is_64_bit) > d@.len() ==> r == Err::<
            (NtHeaders, DataDirectory),
            PeError,
        >(PeError::Truncated),
        start_addr + spec_nt_fixed_size(is_64_bit) <= d@.len() && le32(d@, start_addr as int)
            != 0x4550 ==> r == Err::<(NtHeaders, DataDirectory), PeError>(PeError::BadNtSignature),
{
    let nt: usize = start_addr as usize;
    let fixed: usize = if is_64_bit {
        136
    } else {
        120
    };
    if d.len() < nt + fixed {
        return Err(PeError::Truncated);
    }
    if read_u32(d, nt) != 0x4550 {
        return Err(PeError::BadNtSignature);
    }
    let file_header = ImageFileHeader {
        machine: read_u16(d, nt + 4),
        number_of_sections: read_u16(d, nt + 6),
        time_date_stamp: read_u32(d, nt + 8),
        pointer_to_symbol_table: read_u32(d, nt + 12),
        number_of_symbols: read_u32(d, nt + 16),
        size_of_optional_header: read_u16(d, nt + 20),
        characteristics: read_u16(d, nt + 22),
    };
    let o: usize = nt + 24;
    let head: NtHeaders = if is_64_bit {
        NtHeaders::Bits64(
            ImageNtHeaders64 {
                signature: read_u32(d, nt),
                file_header,
                optional_header: ImageOptionalHeader64 {
                    magic: read_u16(d, o),
                    major_linker_version: d[o + 2],
                    long_minor_linker_version: d[o + 3],
                    size_of_code: read_u32(d, o + 4),
                    size_of_initialized_data: read_u32(d, o + 8),
                    size_of_uninitialized_data: read_u32(d, o + 12),
                    address_of_entry_point: read_u32(d, o + 16),
                    base_of_code: read_u32(d, o + 20),
                    image_base: read_u64(d, o + 24),
                    section_alignment: read_u32(d, o + 32),
                    file_alignment: read_u32(d, o + 36),
                    major_operating_system_version: read_u16(d, o + 40),
                    minor_operating_system_version: read_u16(d, o + 42),
                    major_image_version: read_u16(d, o + 44),
                    minor_image_version: read_u16(d, o + 46),
                    major_subsystem_version: read_u16(d, o + 48),
                    minor_subsystem_version: read_u16(d, o + 50),
                    win32_version_value: read_u32(d, o + 52),
                    size_of_image: read_u32(d, o + 56),
                    size_of_headers: read_u32(d, o + 60),
                    checksum: read_u32(d, o + 64),
                    subsystem: read_u16(d, o + 68),
                    dll_characteristics: read_u16(d, o + 70),
                    size_of_stack_reserve: read_u64(d, o + 72),
                    size_of_stack_commit: read_u64(d, o + 80),
                    size_of_heap_reserve: read_u64(d, o + 88),
                    size_of_heap_commit: read_u64(d, o + 96),
                    loader_flags: read_u32(d, o + 104),
                    number_of_rva_and_sizes: read_u32(d, o + 108),
                },
            },
        )
    } else {
        NtHeaders::Bits32(
            ImageNtHeaders {
                signature: read_u32(d, nt),
                file_header,
                optional_header: ImageOptionalHeader {
                    magic: read_u16(d, o),
                    major_linker_version: d[o + 2],
                    minor_linker_version: d[o + 3],
                    size_of_code: read_u32(d, o + 4),
                    size_of_initialized_data: read_u32(d, o + 8),
                    size_of_uninitialized_data: read_u32(d, o + 12),
                    address_of_entry_point: read_u32(d, o + 16),
                    base_of_code: read_u32(d, o + 20),
                    base_of_data: read_u32(d, o + 24),
                    image_base: read_u32(d, o + 28),
                    section_alignment: read_u32(d, o + 32),
                    file_alignment: read_u32(d, o + 36),
                    major_operating_system_version: read_u16(d, o + 40),
                    minor_operating_system_version: read_u16(d, o + 42),
                    major_image_version: read_u16(d, o + 44),
                    minor_image_version: read_u16(d, o + 46),
                    major_subsystem_version: read_u16(d, o + 48),
                    minor_subsystem_version: read_u16(d, o + 50),
                    win32version_value: read_u32(d, o + 52),
                    size_of_image: read_u32(d, o + 56),
                    size_of_headers: read_u32(d, o + 60),
                    check_sum: read_u32(d, o + 64),
                    subsystem: read_u16(d, o + 68),
                    dll_characteristics: read_u16(d, o + 70),
                    size_of_stack_reserve: read_u32(d, o + 72),
                    size_of_stack_commit: read_u32(d, o + 76),
                    size_of_heap_reserve: read_u32(d, o + 80),
                    size_of_heap_commit: read_u32(d, o + 84),
                    loader_flags: read_u32(d, o + 88),
                    number_of_rva_and_sizes: read_u32(d, o + 92),
                },
            },
        )
    };
    let n: u32 = match &head {
        NtHeaders::Bits32(h) => h.optional_header.number_of_rva_and_sizes,
        NtHeaders::Bits64(h) => h.optional_header.number_of_rva_and_sizes,
    };
    let dir_start: usize = nt + fixed;
    if (n as u64) * 8 > (d.len() as u64) || dir_start as u64 > (d.len() as u64) - (n as u64) * 8 {
        return Err(PeError::Truncated);
    }
    let mut dd = DataDirectory(Vec::new());
    let mut i: usize = 0;
    while i < n as usize
        invariant
            d@.len() <= usize::MAX,
            dir_start + 8 * (n as int) <= d@.len(),
            0 <= i <= n,
            dd.0@.len() == i,
            forall|j: int|
                0 <= j < i ==> (#[trigger] dd.0@[j]) == (ImageDataDirectory {
                    virtual_address: le32(d@, dir_start + 8 * j),
                    size: le32(d@, dir_start + 8 * j + 4),
                }),
        decreases n as int - i,
    {
        let off: usize = dir_start + 8 * i;
        dd.add(
            ImageDataDirectory {
                virtual_address: read_u32(d, off),
                size: read_u32(d, off + 4),
            },
        );
        i = i + 1;
    }
    Ok((head, dd))
}

impl DataDirectory {
    /// Appends one decoded slot.
    pub fn add(&mut self, data: ImageDataDirectory)
        ensures
            final(self).0@ == old(self).0@.push(data),
    {
        self.0.push(data);
    }

    /// The virtual address of the slot at `index`; refused when the header
    /// declared fewer slots.
    pub fn get_data_directory_virtual_address(&self, index: u32) -> (r: Result<u32, PeError>)
        ensures
            r is Ok <==> index < self.0@.len(),
            r is Ok ==> r->Ok_0 == self.0@[index as int].virtual_address,
            r is Err ==> r == Err::<u32, PeError>(PeError::Unmapped),
    {
        if (index as usize) < self.0.len() {
            Ok(self.0[index as usize].virtual_address)
        } else {
            Err(PeError::Unmapped)
        }
    }

    /// The declared size of the slot at `index`; refused when the header
    /// declared fewer slots.
    pub fn get_data_directory_size(&self, index: u32) -> (r: Result<u32, PeError>)
        ensures
            r is Ok <==> index < self.0@.len(),
            r is Ok ==> r->Ok_0 == self.0@[index as int].size,
            r is Err ==> r == Err::<u32, PeError>(PeError::Unmapped),
    {
        if (index as usize) < self.0.len() {
            Ok(self.0[index as usize].size)
        } else {
            Err(PeError::Unmapped)
        }
    }

    /// The virtual address of the export table slot.
    pub fn get_export_directory_address(&self) -> (r: Result<u32, PeError>)
        ensures
            r is Ok <==> self.0@.len() > 0,
            r is Ok ==> r->Ok_0 == self.0@[0].virtual_address,
    {
        self.get_data_directory_virtual_address(0)
    }

    /// The virtual address of the import table slot.
    pub fn get_import_directory_address(&self) -> (r: Result<u32, PeError>)
        ensures
            r is Ok <==> self.0@.len() > 1,
            r is Ok ==> r->Ok_0 == self.0@[1].virtual_address,
    {
        self.get_data_directory_virtual_address(1)
    }

    /// The virtual address of the resource tree slot.
    pub fn get_resource_directory_address(&self) -> (r: Result<u32, PeError>)
        ensures
            r is Ok <==> self.0@.len() > 2,
            r is Ok ==> r->Ok_0 == self.0@[2].virtual_address,
    {
        self.get_data_directory_virtual_address(2)
    }

    /// The declared size of the import table slot.
    pub fn get_import_directory_size(&self) -> (r: Result<u32, PeError>)
        ensures
            r is Ok <==> self.0@.len() > 1,
            r is Ok ==> r->Ok_0 == self.0@[1].size,
    {
        self.get_data_directory_size(1)
    }

    /// How many 20-byte descriptors the declared import slot size would
    /// hold. A hint only: the walk stops at the first all-zero descriptor,
    /// never at this count.
    pub fn get_import_directory_num(&self) -> (r: Result<usize, PeError>)
        ensures
            r is Ok <==> self.0@.len() > 1,
            r is Ok ==> r->Ok_0 == self.0@[1].size / 0x14,
    {
        match self.get_import_directory_size() {
            Ok(s) => Ok((s / 0x14) as usize),
            Err(e) => Err(e),
        }
    }
}

/// What one conditional step of a flag description adds: nothing when the
/// flag is clear, the text itself when it is the first match, and a line
/// break plus the text after an earlier match.
pub open spec fn spec_append_desc(acc: Seq<char>, cond: bool, s: Seq<char>) -> Seq<char> {
    if !cond {
        acc
    } else if acc.len() == 0 {
        s
    } else {
        acc + "\n"@ + s
    }
}

/// Appends one flag description to the joined text, as `spec_append_desc`
/// describes.
fn append_desc(r: &mut String, cond: bool, s: &str)
    ensures
        final(r)@ == spec_append_desc(old(r)@, cond, s@),
{
    if cond {
        if !r.as_str().is_empty() {
            r.append("\n");
        }
        r.append(s);
        assert(r@ =~= spec_append_desc(old(r)@, cond, s@));
    }
}

/// The joined descriptions of the File Header characteristics bits that are
/// set in `c`, one per line, in the fixed table order.
pub open spec fn spec_characteristics_desc(c: u16) -> Seq<char> {
    let a = Seq::<char>::empty();
    let a = spec_append_desc(a, c & 0x0001 != 0, crate::i18n::CHARACTERISTICS_RELOCS_STRIPPED@);
    let a = spec_append_desc(a, c & 0x0002 != 0, crate::i18n::CHARACTERISTICS_EXECUTABLE_IMAGE@);
    let a = spec_append_desc(a, c & 0x0004 != 0, crate::i18n::CHARACTERISTICS_LINE_NUMS_STRIPPED@);
    let a = spec_append_desc(a, c & 0x0008 != 0, crate::i18n::CHARACTERISTICS_LOCAL_SYMS_STRIPPED@);
    let a = spec_append_desc(a, c & 0x0010 != 0, crate::i18n::CHARACTERISTICS_AGGRESSIVE_WS_TRIM@);
    let a = spec_append_desc(
        a,
        c & 0x0020 != 0,
        crate::i18n::CHARACTERISTICS_LARGE_ADDRESS_AWARE@,
    );
    let a = spec_append_desc(a, c & 0x0080 != 0, crate::i18n::CHARACTERISTICS_BYTES_REVERSED_LO@);
    let a = spec_append_desc(a, c & 0x0100 != 0, crate::i18n::CHARACTERISTICS_32BIT_MACHINE@);
    let a = spec_append_desc(a, c & 0x0200 != 0, crate::i18n::CHARACTERISTICS_DEBUG_STRIPPED@);
    let a = spec_append_desc(
        a,
        c & 0x0400 != 0,
        crate::i18n::CHARACTERISTICS_REMOVABLE_RUN_FROM_SWAP@,
    );
    let a = spec_append_desc(a, c & 0x0800 != 0, crate::i18n::CHARACTERISTICS_NET_RUN_FROM_SWAP@);
    let a = spec_append_desc(a, c & 0x1000 != 0, crate::i18n::CHARACTERISTICS_SYSTEM@);
    let a = spec_append_desc(a, c & 0x2000 != 0, crate::i18n::CHARACTERISTICS_DLL@);
    let a = spec_append_desc(a, c & 0x4000 != 0, crate::i18n::CHARACTERISTICS_UP_SYSTEM_ONLY@);
    let a = spec_append_desc(a, c & 0x8000 != 0, crate::i18n::CHARACTERISTICS_BYTES_REVERSED_HI@);
    a
}

/// Joins the descriptions of the characteristics bits set in
/// `characteristics`, one per line.
pub fn get_characteristics_descriptions(characteristics: u16) -> (r: String)
    ensures
        r@ == spec_characteristics_desc(characteristics),
{
    let c = characteristics;
    let mut r = String::new();
    append_desc(&mut r, c & 0x0001 != 0, crate::i18n::CHARACTERISTICS_RELOCS_STRIPPED);
    append_desc(&mut r, c & 0x0002 != 0, crate::i18n::CHARACTERISTICS_EXECUTABLE_IMAGE);
    append_desc(&mut r, c & 0x0004 != 0, crate::i18n::CHARACTERISTICS_LINE_NUMS_STRIPPED);
    append_desc(&mut r, c & 0x0008 != 0, crate::i18n::CHARACTERISTICS_LOCAL_SYMS_STRIPPED);
    append_desc(&mut r, c & 0x0010 != 0, crate::i18n::CHARACTERISTICS_AGGRESSIVE_WS_TRIM);
    append_desc(&mut r, c & 0x0020 != 0, crate::i18n::CHARACTERISTICS_LARGE_ADDRESS_AWARE);
    append_desc(&mut r, c & 0x0080 != 0, crate::i18n::CHARACTERISTICS_BYTES_REVERSED_LO);
    append_desc(&mut r, c & 0x0100 != 0, crate::i18n::CHARACTERISTICS_32BIT_MACHINE);
    append_desc(&mut r, c & 0x0200 != 0, crate::i18n::CHARACTERISTICS_DEBUG_STRIPPED);
    append_desc(&mut r, c & 0x0400 != 0, crate::i18n::CHARACTERISTICS_REMOVABLE_RUN_FROM_SWAP);
    append_desc(&mut r, c & 0x0800 != 0, crate::i18n::CHARACTERISTICS_NET_RUN_FROM_SWAP);
    append_desc(&mut r, c & 0x1000 != 0, crate::i18n::CHARACTERISTICS_SYSTEM);
    append_desc(&mut r, c & 0x2000 != 0, crate::i18n::CHARACTERISTICS_DLL);
    append_desc(&mut r, c & 0x4000 != 0, crate::i18n::CHARACTERISTICS_UP_SYSTEM_ONLY);
    append_desc(&mut r, c & 0x8000 != 0, crate::i18n::CHARACTERISTICS_BYTES_REVERSED_HI);
    r
}

/// The joined descriptions of the DLL characteristics bits that are set in
/// `c`, one per line, in the fixed table order.
pub open spec fn spec_dll_characteristics_desc(c: u16) -> Seq<char> {
    let a = Seq::<char>::empty();
    let a = spec_append_desc(a, c & 4096 != 0, crate::i18n::DLL_CHARACTERISTICS_APPCONTAINER@);
    let a = spec_append_desc(
        a,
        c & 16384 != 0,
        crate::i18n::DLL_CHARACTERISTICS_CONTROL_FLOW_GUARD@,
    );
    let a = spec_append_desc(a, c & 64 != 0, crate::i18n::DLL_CHARACTERISTICS_DYNAMIC_BASE@);
    let a = spec_append_desc(a, c & 128 != 0, crate::i18n::DLL_CHARACTERISTICS_FORCE_INTEGRITY@);
    let a = spec_append_desc(a, c & 32 != 0, crate::i18n::DLL_CHARACTERISTICS_HIGH_ENTROPY_VA@);
    let a = spec_append_desc(a, c & 2048 != 0, crate::i18n::DLL_CHARACTERISTICS_NOBIND@);
    let a = spec_append_desc(a, c & 512 != 0, crate::i18n::DLL_CHARACTERISTICS_NOLSOLATION@);
    let a = spec_append_desc(a, c & 1024 != 0, crate::i18n::DLL_CHARACTERISTICS_NOSEH@);
    let a = spec_append_desc(a, c & 256 != 0, crate::i18n::DLL_CHARACTERISTICS_NXCOMPAT@);
    let a = spec_append_desc(a, c & 1 != 0, crate::i18n::DLL_CHARACTERISTICS_PROCESSINIT@);
    let a = spec_append_desc(a, c & 2 != 0, crate::i18n::DLL_CHARACTERISTICS_PROCESSTERM@);
    let a = spec_append_desc(
        a,
        c & 32768 != 0,
        crate::i18n::DLL_CHARACTERISTICS_TERMINALSERVERAWARE@,
    );
    let a = spec_append_desc(a, c & 4 != 0, crate::i18n::DLL_CHARACTERISTICS_THREADINIT@);
    let a = spec_append_desc(a, c & 8 != 0, crate::i18n::DLL_CHARACTERISTICS_THREADTERM@);
    let a = spec_append_desc(a, c & 8192 != 0, crate::i18n::DLL_CHARACTERISTICS_WDMDRIVER@);
    a
}

/// Joins the descriptions of the DLL characteristics bits set in
/// `dll_characteristics`, one per line.
pub fn get_dll_characteristics_description(dll_characteristics: u16) -> (r: String)
    ensures
        r@ == spec_dll_characteristics_desc(dll_characteristics),
{
    let c = dll_characteristics;
    let mut r = String::new();
    append_desc(&mut r, c & 4096 != 0, crate::i18n::DLL_CHARACTERISTICS_APPCONTAINER);
    append_desc(&mut r, c & 16384 != 0, crate::i18n::DLL_CHARACTERISTICS_CONTROL_FLOW_GUARD);
    append_desc(&mut r, c & 64 != 0, crate::i18n::DLL_CHARACTERISTICS_DYNAMIC_BASE);
    append_desc(&mut r, c & 128 != 0, crate::i18n::DLL_CHARACTERISTICS_FORCE_INTEGRITY);
    append_desc(&mut r, c & 32 != 0, crate::i18n::DLL_CHARACTERISTICS_HIGH_ENTROPY_VA);
    append_desc(&mut r, c & 2048 != 0, crate::i18n::DLL_CHARACTERISTICS_NOBIND);
    append_desc(&mut r, c & 512 != 0, crate::i18n::DLL_CHARACTERISTICS_NOLSOLATION);
    append_desc(&mut r, c & 1024 != 0, crate::i18n::DLL_CHARACTERISTICS_NOSEH);
    append_desc(&mut r, c & 256 != 0, crate::i18n::DLL_CHARACTERISTICS_NXCOMPAT);
    append_desc(&mut r, c & 1 != 0, crate::i18n::DLL_CHARACTERISTICS_PROCESSINIT);
    append_desc(&mut r, c & 2 != 0, crate::i18n::DLL_CHARACTERISTICS_PROCESSTERM);
    append_desc(&mut r, c & 32768 != 0, crate::i18n::DLL_CHARACTERISTICS_TERMINALSERVERAWARE);
    append_desc(&mut r, c & 4 != 0, crate::i18n::DLL_CHARACTERISTICS_THREADINIT);
    append_desc(&mut r, c & 8 != 0, crate::i18n::DLL_CHARACTERISTICS_THREADTERM);
    append_desc(&mut r, c & 8192 != 0, crate::i18n::DLL_CHARACTERISTICS_WDMDRIVER);
    r
}

/// The description `get_machine_descriptions` selects for each machine id.
pub open spec fn spec_machine_desc(m: u16) -> Seq<char> {
    if m == 0x14c {
        crate::i18n::MACHINE_X86_32@
    } else if m == 0x0162 {
        crate::i18n::MACHINE_MIPS_BIG_ENDIAN@
    } else if m == 0x0166 || m == 0x0168 || m == 0x0169 {
        crate::i18n::MACHINE_MIPS_LITTLE_ENDIAN@
    } else if m == 0x0184 {
        crate::i18n::MACHINE_ALPHA@
    } else if m == 0x01a2 || m == 0x01a3 {
        crate::i18n::MACHINE_SH3_LITTLE_ENDIAN@
    } else if m == 0x01a4 {
        crate::i18n::MACHINE_SH3E_LITTLE_ENDIAN@
    } else if m == 0x01a6 {
        crate::i18n::MACHINE_SH4_LITTLE_ENDIAN@
    } else if m == 0x01a8 {
        crate::i18n::MACHINE_SH5@
    } else if m == 0x01c0 {
        crate::i18n::MACHINE_ARM_LITTLE_ENDIAN@
    } else if m == 0x01c2 || m == 0x01c4 {
        crate::i18n::MACHINE_ARM_THUMB_LITTLE_ENDIAN@
    } else if m == 0x01d3 {
        crate::i18n::MACHINE_ARM@
    } else if m == 0x01F0 {
        crate::i18n::MACHINE_IBM@
    } else if m == 0x01f1 {
        crate::i18n::MACHINE_POWERCFP@
    } else if m == 0x0200 {
        crate::i18n::MACHINE_INTEL_64@
    } else if m == 0x0266 || m == 0x0366 || m == 0x0466 {
        crate::i18n::MACHINE_MIPS@
    } else if m == 0x0284 {
        crate::i18n::MACHINE_ALPHA64@
    } else if m == 0x0520 {
        crate::i18n::MACHINE_INFINEON@
    } else if m == 0x8664 {
        crate::i18n::MACHINE_X64_64@
    } else if m == 0xAA64 {
        crate::i18n::MACHINE_ARM64_LITTLE_ENDIAN@
    } else {
        crate::i18n::MACHINE_UNKNOWN@
    }
}

/// The fixed description of a machine id.
pub fn get_machine_descriptions(machine: u16) -> (r: &'static str)
    ensures
        r@ == spec_machine_desc(machine),
{
    match machine {
        0x14c => crate::i18n::MACHINE_X86_32,
        0x0162 => crate::i18n::MACHINE_MIPS_BIG_ENDIAN,
        0x0166 => crate::i18n::MACHINE_MIPS_LITTLE_ENDIAN,
        0x0168 => crate::i18n::MACHINE_MIPS_LITTLE_ENDIAN,
        0x0169 => crate::i18n::MACHINE_MIPS_LITTLE_ENDIAN,
        0x0184 => crate::i18n::MACHINE_ALPHA,
        0x01a2 => crate::i18n::MACHINE_SH3_LITTLE_ENDIAN,
        0x01a3 => crate::i18n::MACHINE_SH3_LITTLE_ENDIAN,
        0x01a4 => crate::i18n::MACHINE_SH3E_LITTLE_ENDIAN,
        0x01a6 => crate::i18n::MACHINE_SH4_LITTLE_ENDIAN,
        0x01a8 => crate::i18n::MACHINE_SH5,
        0x01c0 => crate::i18n::MACHINE_ARM_LITTLE_ENDIAN,
        0x01c2 => crate::i18n::MACHINE_ARM_THUMB_LITTLE_ENDIAN,
        0x01c4 => crate::i18n::MACHINE_ARM_THUMB_LITTLE_ENDIAN,
        0x01d3 => crate::i18n::MACHINE_ARM,
        0x01F0 => crate::i18n::MACHINE_IBM,
        0x01f1 => crate::i18n::MACHINE_POWERCFP,
        0x0200 => crate::i18n::MACHINE_INTEL_64,
        0x0266 => crate::i18n::MACHINE_MIPS,
        0x0284 => crate::i18n::MACHINE_ALPHA64,
        0x0366 => crate::i18n::MACHINE_MIPS,
        0x0466 => crate::i18n::MACHINE_MIPS,
        0x0520 => crate::i18n::MACHINE_INFINEON,
        0x8664 => crate::i18n::MACHINE_X64_64,
        0xAA64 => crate::i18n::MACHINE_ARM64_LITTLE_ENDIAN,
        _ => crate::i18n::MACHINE_UNKNOWN,
    }
}

/// The text `get_magic_hover` selects for an Optional Header magic value.
pub open spec fn spec_magic_hover(m: u16) -> Seq<char> {
    if m == 0x10b {
        "PE32"@
    } else if m == 0x20b {
        "PE64"@
    } else {
        "unknown"@
    }
}

/// The width name for an Optional Header magic value.
pub fn magic_hover(m: u16) -> (r: String)
    ensures
        r@ == spec_magic_hover(m),
{
    if m == 0x10b {
        ("PE32").to_owned()
    } else if m == 0x20b {
        ("PE64").to_owned()
    } else {
        ("unknown").to_owned()
    }
}

impl ImageNtHeaders {
    /// The declared data-directory slot count.
    pub fn num_of_rva(&self) -> (r: u32)
        ensures
            r == self.optional_header.number_of_rva_and_sizes,
    {
        self.optional_header.number_of_rva_and_sizes
    }

    /// The section count from the File Header.
    pub fn section_number(&self) -> (r: u16)
        ensures
            r == self.file_header.number_of_sections,
    {
        self.file_header.number_of_sections
    }

    /// Where the section table starts: the NT offset plus the fixed
    /// record plus the declared directory slots.
    pub fn section_start(&self, nt_start: u16) -> (r: u32)
        requires
            8 * self.optional_header.number_of_rva_and_sizes + nt_start + 120 <= u32::MAX,
        ensures
            r == 8 * self.optional_header.number_of_rva_and_sizes + nt_start + 120,
    {
        self.optional_header.number_of_rva_and_sizes * 0x8 + nt_start as u32 + 120
    }

    /// The NT signature, as text.
    pub fn get_signature(&self) -> (r: &'static str)
        ensures
            r@ == "PE\0\0"@,
    {
        "PE\0\0"
    }

    /// The fixed description of the machine id.
    pub fn get_machine(&self) -> (r: &'static str)
        ensures
            r@ == spec_machine_desc(self.file_header.machine),
    {
        get_machine_descriptions(self.file_header.machine)
    }

    /// The section count, rendered in decimal.
    pub fn get_number_of_sections(&self) -> (r: String)
        ensures
            r@ == crate::text::spec_dec(self.file_header.number_of_sections as int),
    {
        crate::text::u64_to_dec(self.file_header.number_of_sections as u64)
    }

    /// The link timestamp, rendered in decimal.
    pub fn get_time_date_stamp(&self) -> (r: String)
        ensures
            r@ == crate::text::spec_dec(self.file_header.time_date_stamp as int),
    {
        crate::text::u64_to_dec(self.file_header.time_date_stamp as u64)
    }

    /// The symbol table offset, rendered in decimal.
    pub fn get_pointer_to_symbol_table(&self) -> (r: String)
        ensures
            r@ == crate::text::spec_dec(self.file_header.pointer_to_symbol_table as int),
    {
        crate::text::u64_to_dec(self.file_header.pointer_to_symbol_table as u64)
    }

    /// The symbol count, rendered in decimal.
    pub fn get_number_of_symbols(&self) -> (r: String)
        ensures
            r@ == crate::text::spec_dec(self.file_header.number_of_symbols as int),
    {
        crate::text::u64_to_dec(self.file_header.number_of_symbols as u64)
    }

    /// The declared Optional Header size, rendered in decimal.
    pub fn get_size_of_optional_header(&self) -> (r: String)
        ensures
            r@ == crate::text::spec_dec(self.file_header.size_of_optional_header as int),
    {
        crate::text::u64_to_dec(self.file_header.size_of_optional_header as u64)
    }

    /// The characteristics bits, rendered as hexadecimal.
    pub fn get_characteristics(&self) -> (r: String)
        ensures
            r@ == crate::text::spec_hex_0x(self.file_header.characteristics as int),
    {
        crate::text::u64_to_hex_0x(self.file_header.characteristics as u64)
    }

    /// The joined descriptions of the set characteristics bits.
    pub fn get_characteristics_hover(&self) -> (r: String)
        ensures
            r@ == spec_characteristics_desc(self.file_header.characteristics),
    {
        get_characteristics_descriptions(self.file_header.characteristics)
    }

    /// The Optional Header magic value.
    pub fn get_magic(&self) -> (r: u16)
        ensures
            r == self.optional_header.magic,
    {
        self.optional_header.magic
    }

    /// The width name for the magic value.
    pub fn get_magic_hover(&self) -> (r: String)
        ensures
            r@ == spec_magic_hover(self.optional_header.magic),
    {
        magic_hover(self.optional_header.magic)
    }

    /// The linker major version, rendered in decimal.
    pub fn get_major_linker_version(&self) -> (r: String)
        ensures
            r@ == crate::text::spec_dec(self.optional_header.major_linker_version as int),
    {
        crate::text::u64_to_dec(self.optional_header.major_linker_version as u64)
    }

    /// The linker minor version, rendered in decimal.
    pub fn get_long_minor_linker_version(&self) -> (r: String)
        ensures
            r@ == crate::text::spec_dec(self.optional_header.minor_linker_version as int),
    {
        crate::text::u64_to_dec(self.optional_header.minor_linker_version as u64)
    }

    /// The total code size, rendered in decimal.
    pub fn get_size_of_code(&self) -> (r: String)
        ensures
            r@ == crate::text::spec_dec(self.optional_header.size_of_code as int),
    {
        crate::text::u64_to_dec(self.optional_header.size_of_code as u64)
    }

    /// The initialized-data size, rendered in decimal.
    pub fn get_size_of_initialized_data(&self) -> (r: String)
        ensures
            r@ == crate::text::spec_dec(self.optional_header.size_of_initialized_data as int),
    {
        crate::text::u64_to_dec(self.optional_header.size_of_initialized_data as u64)
    }

    /// The uninitialized-data size, rendered in decimal.
    pub fn get_size_of_uninitialized_data(&self) -> (r: String)
        ensures
            r@ == crate::text::spec_dec(self.optional_header.size_of_uninitialized_data as int),
    {
        crate::text::u64_to_dec(self.optional_header.size_of_uninitialized_data as u64)
    }

    /// The entry point's virtual address.
    pub fn get_address_of_entry_point(&self) -> (r: u32)
        ensures
            r == self.optional_header.address_of_entry_point,
    {
        self.optional_header.address_of_entry_point
    }

    /// The code section's starting virtual address.
    pub fn get_base_of_code(&self) -> (r: u32)
        ensures
            r == self.optional_header.base_of_code,
    {
        self.optional_header.base_of_code
    }

    /// The in-memory section alignment.
    pub fn get_section_alignment(&self) -> (r: u32)
        ensures
            r == self.optional_header.section_alignment,
    {
        self.optional_header.section_alignment
    }

    /// The on-disk section alignment.
    pub fn get_file_alignment(&self) -> (r: u32)
        ensures
            r == self.optional_header.file_alignment,
    {
        self.optional_header.file_alignment
    }

    /// The required OS major version, rendered in decimal.
    pub fn get_major_os_version(&self) -> (r: String)
        ensures
            r@ == crate::text::spec_dec(self.optional_header.major_operating_system_version as int),
    {
        crate::text::u64_to_dec(self.optional_header.major_operating_system_version as u64)
    }

    /// The required OS minor version, rendered in decimal.
    pub fn get_minor_os_version(&self) -> (r: String)
        ensures
            r@ == crate::text::spec_dec(self.optional_header.minor_operating_system_version as int),
    {
        crate::text::u64_to_dec(self.optional_header.minor_operating_system_version as u64)
    }

    /// The image major version, rendered in decimal.
    pub fn get_major_image_version(&self) -> (r: String)
        ensures
            r@ == crate::text::spec_dec(self.optional_header.major_image_version as int),
    {
        crate::text::u64_to_dec(self.optional_header.major_image_version as u64)
    }

    /// The image minor version, rendered in decimal.
    pub fn get_minor_image_version(&self) -> (r: String)
        ensures
            r@ == crate::text::spec_dec(self.optional_header.minor_image_version as int),
    {
        crate::text::u64_to_dec(self.optional_header.minor_image_version as u64)
    }

    /// The subsystem major version, rendered in decimal.
    pub fn get_major_subsystem_version(&self) -> (r: String)
        ensures
            r@ == crate::text::spec_dec(self.optional_header.major_subsystem_version as int),
    {
        crate::text::u64_to_dec(self.optional_header.major_subsystem_version as u64)
    }

    /// The subsystem minor version, rendered in decimal.
    pub fn get_minor_subsystem_version(&self) -> (r: String)
        ensures
            r@ == crate::text::spec_dec(self.optional_header.minor_subsystem_version as int),
    {
        crate::text::u64_to_dec(self.optional_header.minor_subsystem_version as u64)
    }

    /// The reserved version field, rendered in decimal.
    pub fn get_win32_version_value(&self) -> (r: String)
        ensures
            r@ == crate::text::spec_dec(self.optional_header.win32version_value as int),
    {
        crate::text::u64_to_dec(self.optional_header.win32version_value as u64)
    }

    /// The loaded image size, rendered in decimal.
    pub fn get_size_of_image(&self) -> (r: String)
        ensures
            r@ == crate::text::spec_dec(self.optional_header.size_of_image as int),
    {
        crate::text::u64_to_dec(self.optional_header.size_of_image as u64)
    }

    /// The headers' total size, rendered in decimal.
    pub fn get_size_of_headers(&self) -> (r: String)
        ensures
            r@ == crate::text::spec_dec(self.optional_header.size_of_headers as int),
    {
        crate::text::u64_to_dec(self.optional_header.size_of_headers as u64)
    }

    /// The image checksum, rendered in decimal.
    pub fn get_checksum(&self) -> (r: String)
        ensures
            r@ == crate::text::spec_dec(self.optional_header.check_sum as int),
    {
        crate::text::u64_to_dec(self.optional_header.check_sum as u64)
    }

    /// The subsystem id, rendered in decimal.
    pub fn get_subsystem(&self) -> (r: String)
        ensures
            r@ == crate::text::spec_dec(self.optional_header.subsystem as int),
    {
        crate::text::u64_to_dec(self.optional_header.subsystem as u64)
    }

    /// The DLL characteristics bits, rendered as hexadecimal.
    pub fn get_dll_characteristics(&self) -> (r: String)
        ensures
            r@ == crate::text::spec_hex_0x(self.optional_header.dll_characteristics as int),
    {
        crate::text::u64_to_hex_0x(self.optional_header.dll_characteristics as u64)
    }

    /// The joined descriptions of the set DLL characteristics bits.
    pub fn get_dll_characteristics_hover(&self) -> (r: String)
        ensures
            r@ == spec_dll_characteristics_desc(self.optional_header.dll_characteristics),
    {
        get_dll_characteristics_description(self.optional_header.dll_characteristics)
    }

    /// The loader flags field.
    pub fn get_loader_flags(&self) -> (r: u32)
        ensures
            r == self.optional_header.loader_flags,
    {
        self.optional_header.loader_flags
    }

    /// The declared data-directory slot count.
    pub fn get_number_of_rva_and_sizes(&self) -> (r: u32)
        ensures
            r == self.optional_header.number_of_rva_and_sizes,
    {
        self.optional_header.number_of_rva_and_sizes
    }

    /// The data section's base; the 64-bit width has no such field and hands back the image base.
    pub fn get_base_of_data(&self) -> (r: u64)
        ensures
            r == self.optional_header.base_of_data as u64,
    {
        self.optional_header.base_of_data as u64
    }

    /// The preferred load address.
    pub fn get_image_base(&self) -> (r: u64)
        ensures
            r == self.optional_header.image_base as u64,
    {
        self.optional_header.image_base as u64
    }

    /// The reserved stack size.
    pub fn get_size_of_stack_reserve(&self) -> (r: u64)
        ensures
            r == self.optional_header.size_of_stack_reserve as u64,
    {
        self.optional_header.size_of_stack_reserve as u64
    }

    /// The committed stack size.
    pub fn get_size_of_stack_commit(&self) -> (r: u64)
        ensures
            r == self.optional_header.size_of_stack_commit as u64,
    {
        self.optional_header.size_of_stack_commit as u64
    }

    /// The reserved heap size.
    pub fn get_size_of_heap_reserve(&self) -> (r: u64)
        ensures
            r == self.optional_header.size_of_heap_reserve as u64,
    {
        self.optional_header.size_of_heap_reserve as u64
    }

    /// The committed heap size.
    pub fn get_size_of_heap_commit(&self) -> (r: u64)
        ensures
            r == self.optional_header.size_of_heap_commit as u64,
    {
        self.optional_header.size_of_heap_commit as u64
    }
}

impl ImageNtHeaders64 {
    /// The declared data-directory slot count.
    pub fn num_of_rva(&self) -> (r: u32)
        ensures
            r == self.optional_header.number_of_rva_and_sizes,
    {
        self.optional_header.number_of_rva_and_sizes
    }

    /// The section count from the File Header.
    pub fn section_number(&self) -> (r: u16)
        ensures
            r == self.file_header.number_of_sections,
    {
        self.file_header.number_of_sections
    }

    /// Where the section table starts: the NT offset plus the fixed
    /// record plus the declared directory slots.
    pub fn section_start(&self, nt_start: u16) -> (r: u32)
        requires
            8 * self.optional_header.number_of_rva_and_sizes + nt_start + 136 <= u32::MAX,
        ensures
            r == 8 * self.optional_header.number_of_rva_and_sizes + nt_start + 136,
    {
        self.optional_header.number_of_rva_and_sizes * 0x8 + nt_start as u32 + 136
    }

    /// The NT signature, as text.
    pub fn get_signature(&self) -> (r: &'static str)
        ensures
            r@ == "PE\0\0"@,
    {
        "PE\0\0"
    }

    /// The fixed description of the machine id.
    pub fn get_machine(&self) -> (r: &'static str)
        ensures
            r@ == spec_machine_desc(self.file_header.machine),
    {
        get_machine_descriptions(self.file_header.machine)
    }

    /// The section count, rendered in decimal.
    pub fn get_number_of_sections(&self) -> (r: String)
        ensures
            r@ == crate::text::spec_dec(self.file_header.number_of_sections as int),
    {
        crate::text::u64_to_dec(self.file_header.number_of_sections as u64)
    }

    /// The link timestamp, rendered in decimal.
    pub fn get_time_date_stamp(&self) -> (r: String)
        ensures
            r@ == crate::text::spec_dec(self.file_header.time_date_stamp as int),
    {
        crate::text::u64_to_dec(self.file_header.time_date_stamp as u64)
    }

    /// The symbol table offset, rendered in decimal.
    pub fn get_pointer_to_symbol_table(&self) -> (r: String)
        ensures
            r@ == crate::text::spec_dec(self.file_header.pointer_to_symbol_table as int),
    {
        crate::text::u64_to_dec(self.file_header.pointer_to_symbol_table as u64)
    }

    /// The symbol count, rendered in decimal.
    pub fn get_number_of_symbols(&self) -> (r: String)
        ensures
            r@ == crate::text::spec_dec(self.file_header.number_of_symbols as int),
    {
        crate::text::u64_to_dec(self.file_header.number_of_symbols as u64)
    }

    /// The declared Optional Header size, rendered in decimal.
    pub fn get_size_of_optional_header(&self) -> (r: String)
        ensures
            r@ == crate::text::spec_dec(self.file_header.size_of_optional_header as int),
    {
        crate::text::u64_to_dec(self.file_header.size_of_optional_header as u64)
    }

    /// The characteristics bits, rendered as hexadecimal.
    pub fn get_characteristics(&self) -> (r: String)
        ensures
            r@ == crate::text::spec_hex_0x(self.file_header.characteristics as int),
    {
        crate::text::u64_to_hex_0x(self.file_header.characteristics as u64)
    }

    /// The joined descriptions of the set characteristics bits.
    pub fn get_characteristics_hover(&self) -> (r: String)
        ensures
            r@ == spec_characteristics_desc(self.file_header.characteristics),
    {
        get_characteristics_descriptions(self.file_header.characteristics)
    }

    /// The Optional Header magic value.
    pub fn get_magic(&self) -> (r: u16)
        ensures
            r == self.optional_header.magic,
    {
        self.optional_header.magic
    }

    /// The width name for the magic value.
    pub fn get_magic_hover(&self) -> (r: String)
        ensures
            r@ == spec_magic_hover(self.optional_header.magic),
    {
        magic_hover(self.optional_header.magic)
    }

    /// The linker major version, rendered in decimal.
    pub fn get_major_linker_version(&self) -> (r: String)
        ensures
            r@ == crate::text::spec_dec(self.optional_header.major_linker_version as int),
    {
        crate::text::u64_to_dec(self.optional_header.major_linker_version as u64)
    }

    /// The linker minor version, rendered in decimal.
    pub fn get_long_minor_linker_version(&self) -> (r: String)
        ensures
            r@ == crate::text::spec_dec(self.optional_header.long_minor_linker_version as int),
    {
        crate::text::u64_to_dec(self.optional_header.long_minor_linker_version as u64)
    }

    /// The total code size, rendered in decimal.
    pub fn get_size_of_code(&self) -> (r: String)
        ensures
            r@ == crate::text::spec_dec(self.optional_header.size_of_code as int),
    {
        crate::text::u64_to_dec(self.optional_header.size_of_code as u64)
    }

    /// The initialized-data size, rendered in decimal.
    pub fn get_size_of_initialized_data(&self) -> (r: String)
        ensures
            r@ == crate::text::spec_dec(self.optional_header.size_of_initialized_data as int),
    {
        crate::text::u64_to_dec(self.optional_header.size_of_initialized_data as u64)
    }

    /// The uninitialized-data size, rendered in decimal.
    pub fn get_size_of_uninitialized_data(&self) -> (r: String)
        ensures
            r@ == crate::text::spec_dec(self.optional_header.size_of_uninitialized_data as int),
    {
        crate::text::u64_to_dec(self.optional_header.size_of_uninitialized_data as u64)
    }

    /// The entry point's virtual address.
    pub fn get_address_of_entry_point(&self) -> (r: u32)
        ensures
            r == self.optional_header.address_of_entry_point,
    {
        self.optional_header.address_of_entry_point
    }

    /// The code section's starting virtual address.
    pub fn get_base_of_code(&self) -> (r: u32)
        ensures
            r == self.optional_header.base_of_code,
    {
        self.optional_header.base_of_code
    }

    /// The in-memory section alignment.
    pub fn get_section_alignment(&self) -> (r: u32)
        ensures
            r == self.optional_header.section_alignment,
    {
        self.optional_header.section_alignment
    }

    /// The on-disk section alignment.
    pub fn get_file_alignment(&self) -> (r: u32)
        ensures
            r == self.optional_header.file_alignment,
    {
        self.optional_header.file_alignment
    }

    /// The required OS major version, rendered in decimal.
    pub fn get_major_os_version(&self) -> (r: String)
        ensures
            r@ == crate::text::spec_dec(self.optional_header.major_operating_system_version as int),
    {
        crate::text::u64_to_dec(self.optional_header.major_operating_system_version as u64)
    }

    /// The required OS minor version, rendered in decimal.
    pub fn get_minor_os_version(&self) -> (r: String)
        ensures
            r@ == crate::text::spec_dec(self.optional_header.minor_operating_system_version as int),
    {
        crate::text::u64_to_dec(self.optional_header.minor_operating_system_version as u64)
    }

    /// The image major version, rendered in decimal.
    pub fn get_major_image_version(&self) -> (r: String)
        ensures
            r@ == crate::text::spec_dec(self.optional_header.major_image_version as int),
    {
        crate::text::u64_to_dec(self.optional_header.major_image_version as u64)
    }

    /// The image minor version, rendered in decimal.
    pub fn get_minor_image_version(&self) -> (r: String)
        ensures
            r@ == crate::text::spec_dec(self.optional_header.minor_image_version as int),
    {
        crate::text::u64_to_dec(self.optional_header.minor_image_version as u64)
    }

    /// The subsystem major version, rendered in decimal.
    pub fn get_major_subsystem_version(&self) -> (r: String)
        ensures
            r@ == crate::text::spec_dec(self.optional_header.major_subsystem_version as int),
    {
        crate::text::u64_to_dec(self.optional_header.major_subsystem_version as u64)
    }

    /// The subsystem minor version, rendered in decimal.
    pub fn get_minor_subsystem_version(&self) -> (r: String)
        ensures
            r@ == crate::text::spec_dec(self.optional_header.minor_subsystem_version as int),
    {
        crate::text::u64_to_dec(self.optional_header.minor_subsystem_version as u64)
    }

    /// The reserved version field, rendered in decimal.
    pub fn get_win32_version_value(&self) -> (r: String)
        ensures
            r@ == crate::text::spec_dec(self.optional_header.win32_version_value as int),
    {
        crate::text::u64_to_dec(self.optional_header.win32_version_value as u64)
    }

    /// The loaded image size, rendered in decimal.
    pub fn get_size_of_image(&self) -> (r: String)
        ensures
            r@ == crate::text::spec_dec(self.optional_header.size_of_image as int),
    {
        crate::text::u64_to_dec(self.optional_header.size_of_image as u64)
    }

    /// The headers' total size, rendered in decimal.
    pub fn get_size_of_headers(&self) -> (r: String)
        ensures
            r@ == crate::text::spec_dec(self.optional_header.size_of_headers as int),
    {
        crate::text::u64_to_dec(self.optional_header.size_of_headers as u64)
    }

    /// The image checksum, rendered in decimal.
    pub fn get_checksum(&self) -> (r: String)
        ensures
            r@ == crate::text::spec_dec(self.optional_header.checksum as int),
    {
        crate::text::u64_to_dec(self.optional_header.checksum as u64)
    }

    /// The subsystem id, rendered in decimal.
    pub fn get_subsystem(&self) -> (r: String)
        ensures
            r@ == crate::text::spec_dec(self.optional_header.subsystem as int),
    {
        crate::text::u64_to_dec(self.optional_header.subsystem as u64)
    }

    /// The DLL characteristics bits, rendered as hexadecimal.
    pub fn get_dll_characteristics(&self) -> (r: String)
        ensures
            r@ == crate::text::spec_hex_0x(self.optional_header.dll_characteristics as int),
    {
        crate::text::u64_to_hex_0x(self.optional_header.dll_characteristics as u64)
    }

    /// The joined descriptions of the set DLL characteristics bits.
    pub fn get_dll_characteristics_hover(&self) -> (r: String)
        ensures
            r@ == spec_dll_characteristics_desc(self.optional_header.dll_characteristics),
    {
        get_dll_characteristics_description(self.optional_header.dll_characteristics)
    }

    /// The loader flags field.
    pub fn get_loader_flags(&self) -> (r: u32)
        ensures
            r == self.optional_header.loader_flags,
    {
        self.optional_header.loader_flags
    }

    /// The declared data-directory slot count.
    pub fn get_number_of_rva_and_sizes(&self) -> (r: u32)
        ensures
            r == self.optional_header.number_of_rva_and_sizes,
    {
        self.optional_header.number_of_rva_and_sizes
    }

    /// The data section's base; the 64-bit width has no such field and hands back the image base.
    pub fn get_base_of_data(&self) -> (r: u64)
        ensures
            r == self.optional_header.image_base,
    {
        self.optional_header.image_base
    }

    /// The preferred load address.
    pub fn get_image_base(&self) -> (r: u64)
        ensures
            r == self.optional_header.image_base,
    {
        self.optional_header.image_base
    }

    /// The reserved stack size.
    pub fn get_size_of_stack_reserve(&self) -> (r: u64)
        ensures
            r == self.optional_header.size_of_stack_reserve,
    {
        self.optional_header.size_of_stack_reserve
    }

    /// The committed stack size.
    pub fn get_size_of_stack_commit(&self) -> (r: u64)
        ensures
            r == self.optional_header.size_of_stack_commit,
    {
        self.optional_header.size_of_stack_commit
    }

    /// The reserved heap size.
    pub fn get_size_of_heap_reserve(&self) -> (r: u64)
        ensures
            r == self.optional_header.size_of_heap_reserve,
    {
        self.optional_header.size_of_heap_reserve
    }

    /// The committed heap size.
    pub fn get_size_of_heap_commit(&self) -> (r: u64)
        ensures
            r == self.optional_header.size_of_heap_commit,
    {
        self.optional_header.size_of_heap_commit
    }
}



impl NtHeaders {
    /// Which width variant was selected.
    pub fn is_64_bit(&self) -> (r: bool)
        ensures
            r == (self is Bits64),
    {
        match self {
            NtHeaders::Bits32(_) => false,
            NtHeaders::Bits64(_) => true,
        }
    }

    /// The declared data-directory slot count, for either width.
    pub open spec fn spec_num_of_rva(&self) -> u32 {
        match self {
            NtHeaders::Bits32(h) => h.optional_header.number_of_rva_and_sizes,
            NtHeaders::Bits64(h) => h.optional_header.number_of_rva_and_sizes,
        }
    }

    /// The section count, for either width.
    pub open spec fn spec_section_number(&self) -> u16 {
        match self {
            NtHeaders::Bits32(h) => h.file_header.number_of_sections,
            NtHeaders::Bits64(h) => h.file_header.number_of_sections,
        }
    }

    /// The machine id, for either width.
    pub open spec fn spec_machine(&self) -> u16 {
        match self {
            NtHeaders::Bits32(h) => h.file_header.machine,
            NtHeaders::Bits64(h) => h.file_header.machine,
        }
    }

    /// The size of the fixed NT record in the selected width.
    pub open spec fn spec_fixed_size(&self) -> int {
        match self {
            NtHeaders::Bits32(_) => 120,
            NtHeaders::Bits64(_) => 136,
        }
    }

    /// The declared data-directory slot count.
    pub fn num_of_rva(&self) -> (r: u32)
        ensures
            r == self.spec_num_of_rva(),
    {
        match self {
            NtHeaders::Bits32(h) => h.num_of_rva(),
            NtHeaders::Bits64(h) => h.num_of_rva(),
        }
    }

    /// The section count from the File Header.
    pub fn section_number(&self) -> (r: u16)
        ensures
            r == self.spec_section_number(),
    {
        match self {
            NtHeaders::Bits32(h) => h.section_number(),
            NtHeaders::Bits64(h) => h.section_number(),
        }
    }

    /// Where the section table starts, in the selected width.
    pub fn section_start(&self, nt_start: u16) -> (r: u32)
        requires
            8 * self.spec_num_of_rva() + nt_start + self.spec_fixed_size() <= u32::MAX,
        ensures
            r == 8 * self.spec_num_of_rva() + nt_start + self.spec_fixed_size(),
    {
        match self {
            NtHeaders::Bits32(h) => h.section_start(nt_start),
            NtHeaders::Bits64(h) => h.section_start(nt_start),
        }
    }

    /// The fixed description of the machine id.
    pub fn get_machine(&self) -> (r: &'static str)
        ensures
            r@ == spec_machine_desc(self.spec_machine()),
    {
        match self {
            NtHeaders::Bits32(h) => h.get_machine(),
            NtHeaders::Bits64(h) => h.get_machine(),
        }
    }
}

} // verus!
