//! The import table: one descriptor per imported module, each owning the
//! functions its thunk array names.
//!
//! The walk stops exactly at the first descriptor whose module-name field
//! is zero (or at the end of the image); the data directory's declared
//! size is a hint, never an iteration bound. Thunks are 8 bytes wide in a
//! 64-bit image and 4 bytes otherwise, and a thunk value above the
//! ordinal threshold names no string: it is recorded as its masked
//! hexadecimal rendering.

use vstd::prelude::*;
use crate::PeError;
use crate::dos::ImageDosHeader;
use crate::nt::{DataDirectory, NtHeaders, spec_machine_32, spec_machine_64, spec_machine_field, is_64};
use crate::raw::{
    le32,
    le64,
    spec_window,
    take_window,
    spec_name_len,
    spec_name_cap,
    spec_cstr_len,
    scan_name_len,
    scan_name_cap,
    scan_cstr_len,
    read_u32,
    read_u64,
    all_ascii,
    ascii_chars,
    bytes_to_string_lossy,
};
use crate::section::{ImageSectionHeader, ImageSectionHeaders, spec_rva_2_fo, rva_2_fo};
use crate::text::{spec_hex_0x_lower, u64_to_hex_0x_lower};

verus! {

/// One 20-byte import descriptor record.
#[derive(Debug, Clone, Copy, Eq, PartialEq, Structural)]
pub struct ImportDescriptor {
    pub dummy_union_name: u32,
    pub time_date_stamp: u32,
    pub forwarder_chain: u32,
    pub name_address: u32,
    pub first_thunk: u32,
}

/// One imported function: a named import with its slot bookkeeping, or an
/// ordinal import carrying only its rendered id.
#[derive(Debug, Clone, Eq, PartialEq)]
pub struct ImportFunction {
    pub name_address: u32,
    pub name_length: u32,
    pub name_max_length: u32,
    pub name: String,
}

/// One imported module: its name and the functions its thunk array names.
#[derive(Debug, Clone, Eq, PartialEq)]
pub struct ImportDll {
    pub name_address: u32,
    pub name_length: u32,
    pub name: String,
    pub time_date_stamp: u32,
    pub forwarder_chain: u32,
    pub first_thunk: u32,
    pub function_info: Vec<ImportFunction>,
    pub function_size: u32,
}

/// The decoded import table, one entry per module.
#[derive(Debug, Clone, Eq, PartialEq)]
pub struct ImportTable(pub Vec<ImportDll>);

impl Default for ImportTable {
    /// An empty table.
    fn default() -> (r: Self)
        ensures
            r.0@.len() == 0,
    {
        ImportTable(Vec::new())
    }
}

/// Whether `desc` holds exactly the 20-byte descriptor record at `off`.
pub open spec fn import_desc_matches(b: Seq<u8>, off: int, desc: ImportDescriptor) -> bool {
    &&& desc.dummy_union_name == le32(b, off)
    &&& desc.time_date_stamp == le32(b, off + 4)
    &&& desc.forwarder_chain == le32(b, off + 8)
    &&& desc.name_address == le32(b, off + 12)
    &&& desc.first_thunk == le32(b, off + 16)
}

/// Where the descriptor array starts: the import data-directory slot's
/// address, translated; absent when the slot is missing or unmapped.
pub open spec fn spec_import_base(
    ss: Seq<ImageSectionHeader>,
    nsec: int,
    dd: DataDirectory,
) -> Option<u32> {
    if dd.0@.len() < 2 {
        None
    } else {
        spec_rva_2_fo(ss, nsec, dd.0@[1].virtual_address)
    }
}

/// The module-name field of descriptor `i` in the array at `fo`.
pub open spec fn spec_desc_name_rva(b: Seq<u8>, fo: int, i: int) -> u32 {
    le32(b, fo + 20 * i + 12)
}

/// Whether descriptor `i` lies inside the image.
pub open spec fn spec_desc_avail(b: Seq<u8>, fo: int, i: int) -> bool {
    fo + 20 * i + 20 <= b.len()
}

impl ImportDescriptor {
    /// Reads descriptor `index` of the import table.
    ///
    /// `None` is the walk's stop sign, never an error: a missing or
    /// unmapped import slot, a descriptor past the end of the image, and
    /// a descriptor whose module-name field is zero all yield it.
    pub fn new(
        d: &Vec<u8>,
        nt_head: &NtHeaders,
        image_section_headers: &ImageSectionHeaders,
        data_dir: &DataDirectory,
        index: u32,
    ) -> (r: Result<Option<ImportDescriptor>, PeError>)
        requires
            image_section_headers.0@.len() >= nt_head.spec_section_number(),
        ensures
            r is Ok,
            ({
                let base = spec_import_base(
                    image_section_headers.0@,
                    nt_head.spec_section_number() as int,
                    *data_dir,
                );
                &&& base is None ==> r == Ok::<Option<ImportDescriptor>, PeError>(None)
                &&& base is Some ==> {
                    let fo = base->0 as int;
                    &&& !spec_desc_avail(d@, fo, index as int) ==> r == Ok::<
                        Option<ImportDescriptor>,
                        PeError,
                    >(None)
                    &&& spec_desc_avail(d@, fo, index as int) && spec_desc_name_rva(
                        d@,
                        fo,
                        index as int,
                    ) == 0 ==> r == Ok::<Option<ImportDescriptor>, PeError>(None)
                    &&& spec_desc_avail(d@, fo, index as int) && spec_desc_name_rva(
                        d@,
                        fo,
                        index as int,
                    ) != 0 ==> {
                        &&& r is Ok
                        &&& r->Ok_0 is Some
                        &&& import_desc_matches(d@, fo + 20 * index, r->Ok_0->0)
                    }
                }
            }),
    {
        let va = match data_dir.get_import_directory_address() {
            Ok(va) => va,
            Err(_) => { return Ok(None) },
        };
        let fo = match rva_2_fo(nt_head, image_section_headers, va) {
            Some(fo) => fo,
            None => { return Ok(None) },
        };
        let off64: u64 = fo as u64 + 20 * (index as u64);
        if off64 + 20 > d.len() as u64 {
            return Ok(None);
        }
        let off: usize = off64 as usize;
        let desc = ImportDescriptor {
            dummy_union_name: read_u32(d, off),
            time_date_stamp: read_u32(d, off + 4),
            forwarder_chain: read_u32(d, off + 8),
            name_address: read_u32(d, off + 12),
            first_thunk: read_u32(d, off + 16),
        };
        if desc.name_address == 0 {
            return Ok(None);
        }
        Ok(Some(desc))
    }
}

/// Whether the descriptor walk stops at index `i`: the record runs past
/// the end of the image, or its module-name field is zero.
pub open spec fn spec_import_stop(b: Seq<u8>, fo: int, i: int) -> bool {
    !spec_desc_avail(b, fo, i) || spec_desc_name_rva(b, fo, i) == 0
}

/// The index of the first descriptor the walk stops at, from `i` on.
pub open spec fn spec_import_count_from(b: Seq<u8>, fo: int, i: int) -> int
    decreases b.len() - fo - 20 * i,
{
    if fo < 0 || i < 0 {
        i
    } else if spec_import_stop(b, fo, i) {
        i
    } else {
        spec_import_count_from(b, fo, i + 1)
    }
}

/// The walk's count is exactly the first stop sign: every descriptor
/// before it is inside the image with a nonzero module-name field, and
/// the descriptor at the count is the first that is not.
pub proof fn lemma_import_count_is_first_stop(b: Seq<u8>, fo: int, i: int)
    requires
        fo >= 0,
        i >= 0,
    ensures
        spec_import_stop(b, fo, spec_import_count_from(b, fo, i)),
        forall|k: int|
            i <= k < spec_import_count_from(b, fo, i) ==> !spec_import_stop(b, fo, k),
    decreases b.len() - fo - 20 * i,
{
    if !spec_import_stop(b, fo, i) {
        lemma_import_count_is_first_stop(b, fo, i + 1);
        lemma_import_count_lower(b, fo, i + 1);
    }
}

/// The walk never stops before the index it starts from.
pub proof fn lemma_import_count_lower(b: Seq<u8>, fo: int, i: int)
    requires
        fo >= 0,
        i >= 0,
    ensures
        spec_import_count_from(b, fo, i) >= i,
    decreases b.len() - fo - 20 * i,
{
    if !spec_import_stop(b, fo, i) {
        lemma_import_count_lower(b, fo, i + 1);
    }
}

/// Whether descriptor `k`'s module parses cleanly, by the fields of the
/// record at `fo + 20 * k`.
pub open spec fn import_dll_ok_at(
    b: Seq<u8>,
    ss: Seq<ImageSectionHeader>,
    nsec: int,
    lfanew: u16,
    fo: int,
    k: int,
) -> bool {
    import_dll_ok(
        b,
        ss,
        nsec,
        lfanew,
        le32(b, fo + 20 * k + 12),
        le32(b, fo + 20 * k),
    )
}

/// Whether `dll` matches descriptor `k`'s module, by the fields of the
/// record at `fo + 20 * k`.
pub open spec fn import_dll_matches_at(
    b: Seq<u8>,
    ss: Seq<ImageSectionHeader>,
    nsec: int,
    fo: int,
    k: int,
    is_64_bit: bool,
    dll: ImportDll,
) -> bool {
    import_dll_matches(
        b,
        ss,
        nsec,
        le32(b, fo + 20 * k + 12),
        le32(b, fo + 20 * k),
        is_64_bit,
        dll,
    )
}

/// The name bytes at file offset `nfo`: a window of at most 256 bytes, up
/// to the first NUL (empty when the window starts with one or holds
/// none).
pub open spec fn spec_import_name_bytes(b: Seq<u8>, nfo: int) -> Seq<u8> {
    let w = spec_window(b, nfo, 256);
    w.subrange(0, spec_name_len(w))
}

/// Whether `f` holds exactly the named import whose hint record starts at
/// `addr`: the name two bytes in, its length up to the NUL, and the
/// heuristic rewrite capacity read from the padding after it.
pub open spec fn import_named_func_matches(b: Seq<u8>, addr: int, f: ImportFunction) -> bool {
    let w = spec_window(b, addr + 2, 256);
    &&& f.name_address == addr + 2
    &&& f.name_length == spec_name_len(w)
    &&& f.name_max_length == spec_name_cap(w)
    &&& (all_ascii(spec_import_name_bytes(b, addr + 2)) ==> f.name@ == ascii_chars(
        spec_import_name_bytes(b, addr + 2),
    ))
}

impl ImportFunction {
    /// Reads the named import whose hint record starts at `addr`: skips
    /// the 2-byte hint, scans at most 256 bytes for the NUL-terminated
    /// name, and records how much zero padding follows it as the slot's
    /// rewrite capacity.
    pub fn new(d: &Vec<u8>, addr: u32) -> (r: Result<Option<ImportFunction>, PeError>)
        requires
            addr + 2 <= u32::MAX,
        ensures
            r is Ok,
            r->Ok_0 is Some,
            import_named_func_matches(d@, addr as int, r->Ok_0->0),
    {
        let start = addr + 2;
        let w = take_window(d, start as usize, 256);
        let name_length = scan_name_len(&w);
        let name_max_length = scan_name_cap(&w);
        let name_bytes = take_window(&w, 0, name_length);
        proof {
            assert(name_bytes@ =~= spec_import_name_bytes(d@, addr + 2));
        }
        let name = bytes_to_string_lossy(&name_bytes);
        Ok(
            Some(
                ImportFunction {
                    name_address: start,
                    name_length: name_length as u32,
                    name_max_length: name_max_length as u32,
                    name,
                },
            ),
        )
    }
}

/// The value of thunk `i` in the array at `tfo`: 8 bytes wide in a 64-bit
/// image, 4 otherwise.
pub open spec fn thunk_val(b: Seq<u8>, tfo: int, is_64_bit: bool, i: int) -> u64 {
    if is_64_bit {
        le64(b, tfo + 8 * i)
    } else {
        le32(b, tfo + 4 * i) as u64
    }
}

/// Whether thunk `i` lies inside the image.
pub open spec fn thunk_avail(b: Seq<u8>, tfo: int, is_64_bit: bool, i: int) -> bool {
    if is_64_bit {
        tfo + 8 * i + 8 <= b.len()
    } else {
        tfo + 4 * i + 4 <= b.len()
    }
}

/// The index of the first zero thunk at or after `i`, or `None` when the
/// array runs past the end of the image first.
pub open spec fn spec_thunk_end(b: Seq<u8>, tfo: int, is_64_bit: bool, i: int) -> Option<int>
    decreases b.len() - tfo - (if is_64_bit { 8int } else { 4int }) * i,
{
    if i < 0 || !thunk_avail(b, tfo, is_64_bit, i) {
        None
    } else if thunk_val(b, tfo, is_64_bit, i) == 0 {
        Some(i)
    } else {
        spec_thunk_end(b, tfo, is_64_bit, i + 1)
    }
}

/// Whether thunk `i` contributes a function entry: an ordinal-style value
/// always does, a name-style value only when its address translates and
/// its record is readable.
pub open spec fn th_kept(
    b: Seq<u8>,
    ss: Seq<ImageSectionHeader>,
    nsec: int,
    tfo: int,
    is_64_bit: bool,
    i: int,
) -> bool {
    let v = thunk_val(b, tfo, is_64_bit, i);
    if v > 0x0FFFFFFF {
        true
    } else {
        let t = spec_rva_2_fo(ss, nsec, v as u32);
        t is Some && t->0 + 2 <= u32::MAX
    }
}

/// How many of the first `i` thunks contribute a function entry.
pub open spec fn th_kept_count(
    b: Seq<u8>,
    ss: Seq<ImageSectionHeader>,
    nsec: int,
    tfo: int,
    is_64_bit: bool,
    i: int,
) -> int
    decreases i,
{
    if i <= 0 {
        0
    } else {
        th_kept_count(b, ss, nsec, tfo, is_64_bit, i - 1) + (if th_kept(
            b,
            ss,
            nsec,
            tfo,
            is_64_bit,
            i - 1,
        ) {
            1int
        } else {
            0int
        })
    }
}

/// The kept count is a count: it is never negative.
pub proof fn lemma_th_kept_count_nonneg(
    b: Seq<u8>,
    ss: Seq<ImageSectionHeader>,
    nsec: int,
    tfo: int,
    is_64_bit: bool,
    i: int,
)
    ensures
        th_kept_count(b, ss, nsec, tfo, is_64_bit, i) >= 0,
    decreases i,
{
    if i > 0 {
        lemma_th_kept_count_nonneg(b, ss, nsec, tfo, is_64_bit, i - 1);
    }
}

/// The kept count never falls as more thunks are scanned, and a kept
/// thunk takes a place of its own below the later counts.
pub proof fn lemma_th_kept_count_mono(
    b: Seq<u8>,
    ss: Seq<ImageSectionHeader>,
    nsec: int,
    tfo: int,
    is_64_bit: bool,
    k: int,
    i: int,
)
    requires
        0 <= k < i,
    ensures
        th_kept_count(b, ss, nsec, tfo, is_64_bit, k) + (if th_kept(b, ss, nsec, tfo, is_64_bit, k) {
            1int
        } else {
            0int
        }) <= th_kept_count(b, ss, nsec, tfo, is_64_bit, i),
    decreases i,
{
    if k < i - 1 {
        lemma_th_kept_count_mono(b, ss, nsec, tfo, is_64_bit, k, i - 1);
    }
}

/// Whether `f` holds the entry thunk value `v` contributes: above the
/// ordinal threshold its masked hexadecimal rendering, below it the named
/// import its translated address points at.
pub open spec fn import_func_entry_matches(
    b: Seq<u8>,
    ss: Seq<ImageSectionHeader>,
    nsec: int,
    v: u64,
    f: ImportFunction,
) -> bool {
    if v > 0x0FFFFFFF {
        &&& f.name_address == v as u32
        &&& f.name_length == 0
        &&& f.name_max_length == 0
        &&& f.name@ == spec_hex_0x_lower((v & 0x0FFFFFFF) as int)
    } else {
        import_named_func_matches(b, spec_rva_2_fo(ss, nsec, v as u32)->0 as int, f)
    }
}

/// Whether `dll` holds exactly the module of a descriptor whose
/// module-name RVA is `name_rva` and whose thunk array RVA is
/// `thunk_rva`: the module name up to its NUL, and one function entry per
/// kept thunk before the first zero thunk, in thunk order.
pub open spec fn import_dll_matches(
    b: Seq<u8>,
    ss: Seq<ImageSectionHeader>,
    nsec: int,
    name_rva: u32,
    thunk_rva: u32,
    is_64_bit: bool,
    dll: ImportDll,
) -> bool {
    let tfo = spec_rva_2_fo(ss, nsec, thunk_rva)->0 as int;
    let mfo = spec_rva_2_fo(ss, nsec, name_rva)->0 as int;
    let n_th = spec_thunk_end(b, tfo, is_64_bit, 0)->0;
    let w = spec_window(b, mfo, 256);
    let nb = w.subrange(0, spec_cstr_len(w));
    &&& dll.name_address == name_rva
    &&& dll.name_length == 0
    &&& (all_ascii(nb) ==> dll.name@ == ascii_chars(nb))
    &&& dll.time_date_stamp == 0
    &&& dll.forwarder_chain == 0
    &&& dll.first_thunk == 0
    &&& dll.function_size == 0
    &&& dll.function_info@.len() == th_kept_count(b, ss, nsec, tfo, is_64_bit, n_th)
    &&& forall|i: int|
        0 <= i < n_th && #[trigger] th_kept(b, ss, nsec, tfo, is_64_bit, i)
            ==> import_func_entry_matches(
            b,
            ss,
            nsec,
            thunk_val(b, tfo, is_64_bit, i),
            dll.function_info@[th_kept_count(b, ss, nsec, tfo, is_64_bit, i)],
        )
}

/// Whether a descriptor's module parses cleanly: its thunk array RVA and
/// module-name RVA both translate, the machine field is readable and
/// known, and the thunk array ends in a zero thunk inside the image.
pub open spec fn import_dll_ok(
    b: Seq<u8>,
    ss: Seq<ImageSectionHeader>,
    nsec: int,
    lfanew: u16,
    name_rva: u32,
    thunk_rva: u32,
) -> bool {
    let tfoo = spec_rva_2_fo(ss, nsec, thunk_rva);
    &&& tfoo is Some
    &&& lfanew + 24 <= b.len()
    &&& {
        let m = spec_machine_field(b, lfanew as int);
        &&& (spec_machine_32(m) || spec_machine_64(m))
        &&& spec_thunk_end(b, tfoo->0 as int, spec_machine_64(m), 0) is Some
        &&& spec_rva_2_fo(ss, nsec, name_rva) is Some
    }
}

/// Whether the whole import walk reads cleanly: nothing to walk when the
/// import slot is absent or unmapped, else every module before the stop
/// descriptor parses and the walk's length fits a descriptor index.
pub open spec fn spec_imports_ok(
    b: Seq<u8>,
    ss: Seq<ImageSectionHeader>,
    nsec: int,
    dd: DataDirectory,
    lfanew: u16,
) -> bool {
    match spec_import_base(ss, nsec, dd) {
        None => true,
        Some(fo) => {
            let n = spec_import_count_from(b, fo as int, 0);
            &&& n <= u32::MAX
            &&& forall|k: int|
                0 <= k < n ==> #[trigger] import_dll_ok_at(b, ss, nsec, lfanew, fo as int, k)
        },
    }
}

/// Whether `t` is the image's import table: empty when the import slot is
/// absent or unmapped, else one matching module per descriptor before the
/// stop, in descriptor order.
pub open spec fn spec_import_table_matches(
    b: Seq<u8>,
    ss: Seq<ImageSectionHeader>,
    nsec: int,
    dd: DataDirectory,
    lfanew: u16,
    t: ImportTable,
) -> bool {
    match spec_import_base(ss, nsec, dd) {
        None => t.0@.len() == 0,
        Some(fo) => {
            let n = spec_import_count_from(b, fo as int, 0);
            &&& t.0@.len() == n
            &&& forall|k: int|
                0 <= k < n ==> import_dll_matches_at(
                    b,
                    ss,
                    nsec,
                    fo as int,
                    k,
                    spec_machine_64(spec_machine_field(b, lfanew as int)),
                    #[trigger] t.0@[k],
                )
        },
    }
}

/// What a copy of a function list keeps of the one it was taken from:
/// every function's fields.
pub open spec fn import_functions_alike(a: Seq<ImportFunction>, b: Seq<ImportFunction>) -> bool {
    &&& a.len() == b.len()
    &&& forall|i: int|
        0 <= i < a.len() ==> {
            &&& (#[trigger] a[i]).name_address == b[i].name_address
            &&& a[i].name_length == b[i].name_length
            &&& a[i].name_max_length == b[i].name_max_length
            &&& a[i].name@ == b[i].name@
        }
}

/// What a copy of an import table keeps of the one it was taken from:
/// every module's fields and every function's fields.
pub open spec fn import_tables_alike(a: ImportTable, b: ImportTable) -> bool {
    &&& a.0@.len() == b.0@.len()
    &&& forall|i: int|
        0 <= i < a.0@.len() ==> {
            &&& (#[trigger] a.0@[i]).name_address == b.0@[i].name_address
            &&& a.0@[i].name_length == b.0@[i].name_length
            &&& a.0@[i].name@ == b.0@[i].name@
            &&& a.0@[i].time_date_stamp == b.0@[i].time_date_stamp
            &&& a.0@[i].forwarder_chain == b.0@[i].forwarder_chain
            &&& a.0@[i].first_thunk == b.0@[i].first_thunk
            &&& a.0@[i].function_size == b.0@[i].function_size
            &&& import_functions_alike(a.0@[i].function_info@, b.0@[i].function_info@)
        }
}

/// Copies a function list field by field.
fn copy_functions(v: &Vec<ImportFunction>) -> (r: Vec<ImportFunction>)
    ensures
        import_functions_alike(r@, v@),
{
    let mut r: Vec<ImportFunction> = Vec::new();
    let mut i: usize = 0;
    while i < v.len()
        invariant
            0 <= i <= v@.len(),
            r@.len() == i,
            forall|k: int|
                0 <= k < i ==> {
                    &&& (#[trigger] r@[k]).name_address == v@[k].name_address
                    &&& r@[k].name_length == v@[k].name_length
                    &&& r@[k].name_max_length == v@[k].name_max_length
                    &&& r@[k].name@ == v@[k].name@
                },
        decreases v@.len() - i,
    {
        let f = &v[i];
        r.push(
            ImportFunction {
                name_address: f.name_address,
                name_length: f.name_length,
                name_max_length: f.name_max_length,
                name: f.name.clone(),
            },
        );
        i = i + 1;
    }
    r
}

impl ImportDll {
    /// Walks one descriptor's thunk array until its zero thunk, reading a
    /// function entry per thunk, then reads the module's name.
    ///
    /// Fails with `Unmapped` when the thunk array's or the module name's
    /// address translates to no file offset, with `Truncated` when the
    /// machine field or a thunk lies past the end of the image, and with
    /// `UnknownMachine` when the machine id is in neither width set (the
    /// thunk width cannot be chosen then).
    pub fn new(
        d: &Vec<u8>,
        image_dos_header: &ImageDosHeader,
        import_descriptor: ImportDescriptor,
        nt_head: &NtHeaders,
        section_headers: &ImageSectionHeaders,
    ) -> (r: Result<ImportDll, PeError>)
        requires
            section_headers.0@.len() >= nt_head.spec_section_number(),
        ensures
            r is Ok <==> import_dll_ok(
                d@,
                section_headers.0@,
                nt_head.spec_section_number() as int,
                image_dos_header.e_lfanew,
                import_descriptor.name_address,
                import_descriptor.dummy_union_name,
            ),
            r is Ok ==> import_dll_matches(
                d@,
                section_headers.0@,
                nt_head.spec_section_number() as int,
                import_descriptor.name_address,
                import_descriptor.dummy_union_name,
                spec_machine_64(spec_machine_field(d@, image_dos_header.e_lfanew as int)),
                r->Ok_0,
            ),
    {
        let ghost ss = section_headers.0@;
        let ghost nsec = nt_head.spec_section_number() as int;
        let tfo = match rva_2_fo(nt_head, section_headers, import_descriptor.dummy_union_name) {
            Some(fo) => fo,
            None => { return Err(PeError::Unmapped) },
        };
        let wide = match is_64(d, image_dos_header) {
            Ok(w) => w,
            Err(e) => { return Err(e) },
        };
        let mut function_info: Vec<ImportFunction> = Vec::new();
        let mut i: u64 = 0;
        let mut pos: u64 = 0;
        let step: u64 = if wide {
            8
        } else {
            4
        };
        let limit: u64 = d.len() as u64;
        loop
            invariant
                section_headers.0@ == ss,
                nt_head.spec_section_number() as int == nsec,
                section_headers.0@.len() >= nt_head.spec_section_number(),
                d@.len() <= usize::MAX,
                limit == d@.len(),
                step == (if wide { 8int } else { 4int }),
                wide == spec_machine_64(
                    spec_machine_field(d@, image_dos_header.e_lfanew as int),
                ),
                image_dos_header.e_lfanew + 24 <= d@.len(),
                spec_machine_32(spec_machine_field(d@, image_dos_header.e_lfanew as int))
                    || spec_machine_64(spec_machine_field(d@, image_dos_header.e_lfanew as int)),
                spec_rva_2_fo(ss, nsec, import_descriptor.dummy_union_name) == Some(tfo),
                0 <= i,
                pos == step * i,
                pos <= d@.len(),
                spec_thunk_end(d@, tfo as int, wide, 0) == spec_thunk_end(
                    d@,
                    tfo as int,
                    wide,
                    i as int,
                ),
                function_info@.len() == th_kept_count(d@, ss, nsec, tfo as int, wide, i as int),
                forall|k: int|
                    0 <= k < i && #[trigger] th_kept(d@, ss, nsec, tfo as int, wide, k)
                        ==> import_func_entry_matches(
                        d@,
                        ss,
                        nsec,
                        thunk_val(d@, tfo as int, wide, k),
                        function_info@[th_kept_count(d@, ss, nsec, tfo as int, wide, k)],
                    ),
            ensures
                spec_thunk_end(d@, tfo as int, wide, 0) == Some(i as int),
                function_info@.len() == th_kept_count(d@, ss, nsec, tfo as int, wide, i as int),
                forall|k: int|
                    0 <= k < i && #[trigger] th_kept(d@, ss, nsec, tfo as int, wide, k)
                        ==> import_func_entry_matches(
                        d@,
                        ss,
                        nsec,
                        thunk_val(d@, tfo as int, wide, k),
                        function_info@[th_kept_count(d@, ss, nsec, tfo as int, wide, k)],
                    ),
            decreases d@.len() - pos,
        {
            if tfo as u64 > limit || pos > limit - tfo as u64 || step > limit - tfo as u64 - pos {
                proof {
                    assert(!thunk_avail(d@, tfo as int, wide, i as int));
                }
                return Err(PeError::Truncated);
            }
            let off: usize = (tfo as u64 + pos) as usize;
            let addr: u64 = if wide {
                read_u64(d, off)
            } else {
                read_u32(d, off) as u64
            };
            proof {
                assert(addr == thunk_val(d@, tfo as int, wide, i as int));
            }
            if addr == 0 {
                break;
            }
            let ghost prev = function_info@;
            if addr > 0x0FFFFFFF {
                let name = u64_to_hex_0x_lower(addr & 0x0FFFFFFF);
                let name_address = #[verifier::truncate] (addr as u32);
                function_info.push(
                    ImportFunction { name_address, name_length: 0, name_max_length: 0, name },
                );
                proof {
                    assert(th_kept(d@, ss, nsec, tfo as int, wide, i as int));
                }
            } else {
                match rva_2_fo(nt_head, section_headers, addr as u32) {
                    Some(fo2) => {
                        if fo2 > u32::MAX - 2 {
                            proof {
                                assert(!th_kept(d@, ss, nsec, tfo as int, wide, i as int));
                            }
                        } else {
                            match ImportFunction::new(d, fo2) {
                                Ok(Some(f)) => {
                                    function_info.push(f);
                                    proof {
                                        assert(th_kept(d@, ss, nsec, tfo as int, wide, i as int));
                                    }
                                },
                                Ok(None) => {},
                                Err(e) => { return Err(e) },
                            }
                        }
                    },
                    None => {
                        proof {
                            assert(!th_kept(d@, ss, nsec, tfo as int, wide, i as int));
                        }
                    },
                }
            }
            proof {
                assert(step * (i + 1) == step * (i as int) + step) by (nonlinear_arith);
                assert(thunk_avail(d@, tfo as int, wide, i as int));
                assert(th_kept_count(d@, ss, nsec, tfo as int, wide, i + 1) == th_kept_count(
                    d@,
                    ss,
                    nsec,
                    tfo as int,
                    wide,
                    i as int,
                ) + (if th_kept(d@, ss, nsec, tfo as int, wide, i as int) {
                    1int
                } else {
                    0int
                }));
                assert forall|k: int|
                    0 <= k < i + 1 && th_kept(d@, ss, nsec, tfo as int, wide, k)
                        implies import_func_entry_matches(
                    d@,
                    ss,
                    nsec,
                    thunk_val(d@, tfo as int, wide, k),
                    function_info@[th_kept_count(d@, ss, nsec, tfo as int, wide, k)],
                ) by {
                    if k < i {
                        lemma_th_kept_count_nonneg(d@, ss, nsec, tfo as int, wide, k);
                        lemma_th_kept_count_mono(d@, ss, nsec, tfo as int, wide, k, i as int);
                        assert(function_info@[th_kept_count(d@, ss, nsec, tfo as int, wide, k)]
                            == prev[th_kept_count(d@, ss, nsec, tfo as int, wide, k)]);
                    }
                }
            }
            pos = pos + step;
            i = i + 1;
        }
        let mfo = match rva_2_fo(nt_head, section_headers, import_descriptor.name_address) {
            Some(fo) => fo,
            None => { return Err(PeError::Unmapped) },
        };
        let w = take_window(d, mfo as usize, 256);
        let name_len = scan_cstr_len(&w);
        let name_bytes = take_window(&w, 0, name_len);
        let name = bytes_to_string_lossy(&name_bytes);
        Ok(
            ImportDll {
                name_address: import_descriptor.name_address,
                name_length: 0,
                name,
                time_date_stamp: 0,
                forwarder_chain: 0,
                first_thunk: 0,
                function_info,
                function_size: 0,
            },
        )
    }
}

impl ImportTable {
    /// Hands out a copy of the table; the modules' fields are carried
    /// over one by one.
    pub fn fclone(&self) -> (r: Self)
        ensures
            import_tables_alike(r, *self),
    {
        let mut v: Vec<ImportDll> = Vec::new();
        let mut i: usize = 0;
        while i < self.0.len()
            invariant
                0 <= i <= self.0@.len(),
                v@.len() == i,
                forall|k: int|
                    0 <= k < i ==> {
                        &&& (#[trigger] v@[k]).name_address == self.0@[k].name_address
                        &&& v@[k].name_length == self.0@[k].name_length
                        &&& v@[k].name@ == self.0@[k].name@
                        &&& v@[k].time_date_stamp == self.0@[k].time_date_stamp
                        &&& v@[k].forwarder_chain == self.0@[k].forwarder_chain
                        &&& v@[k].first_thunk == self.0@[k].first_thunk
                        &&& v@[k].function_size == self.0@[k].function_size
                        &&& import_functions_alike(
                            v@[k].function_info@,
                            self.0@[k].function_info@,
                        )
                    },
            decreases self.0@.len() - i,
        {
            let e = &self.0[i];
            v.push(
                ImportDll {
                    name_address: e.name_address,
                    name_length: e.name_length,
                    name: e.name.clone(),
                    time_date_stamp: e.time_date_stamp,
                    forwarder_chain: e.forwarder_chain,
                    first_thunk: e.first_thunk,
                    function_info: copy_functions(&e.function_info),
                    function_size: e.function_size,
                },
            );
            i = i + 1;
        }
        ImportTable(v)
    }
}

} // verus!
