//! The export directory and the table of named exports.
//!
//! The walk reads exactly `number_of_names` entries: the name, function and
//! ordinal array cursors each advance by their own element width (4, 4 and
//! 2 bytes) once per entry, whatever `number_of_func` declares. Exports
//! that have no name are left out by design.

use vstd::prelude::*;
use crate::PeError;
use crate::nt::{DataDirectory, NtHeaders};
use crate::raw::{
    le16,
    le32,
    read_u16,
    read_u32,
    spec_window,
    take_window,
    spec_name_len,
    spec_name_cap,
    scan_name_len,
    scan_name_cap,
    all_ascii,
    ascii_chars,
    bytes_to_string_lossy,
};
use crate::section::{ImageSectionHeaders, spec_rva_2_fo, rva_2_fo};

verus! {

/// The fixed 40-byte export directory record.
#[derive(Debug, Clone, Copy, Eq, PartialEq, Structural)]
pub struct ExportDir {
    pub characteristics: u32,
    pub time_data_stamp: u32,
    pub major_vision: u16,
    pub minor_version: u16,
    pub name: u32,
    pub base: u32,
    pub number_of_func: u32,
    pub number_of_names: u32,
    pub address_of_functions: u32,
    pub address_of_names: u32,
    pub address_of_name_ordinals: u32,
}

/// One named export: where its name and address cells live in the file,
/// the decoded values, and the name slot's recorded rewrite capacity.
#[derive(Debug, Clone, Eq, PartialEq)]
pub struct ExportInfo {
    pub name_rva: u32,
    pub name_string_fo: u32,
    pub name_max_length: u32,
    pub name: String,
    pub function_address: u32,
    pub function: u32,
    pub ordinals_address: u32,
    pub ordinals: u16,
}

/// The decoded export table, keyed by position.
#[derive(Debug, Clone, Eq, PartialEq)]
pub struct ExportTable(pub Vec<ExportInfo>);

impl Default for ExportTable {
    /// An empty table.
    fn default() -> (r: Self)
        ensures
            r.0@.len() == 0,
    {
        ExportTable(Vec::new())
    }
}

/// Whether `e` holds exactly the export directory record at `off`.
pub open spec fn export_dir_matches(b: Seq<u8>, off: int, e: ExportDir) -> bool {
    &&& e.characteristics == le32(b, off)
    &&& e.time_data_stamp == le32(b, off + 4)
    &&& e.major_vision == le16(b, off + 8)
    &&& e.minor_version == le16(b, off + 10)
    &&& e.name == le32(b, off + 12)
    &&& e.base == le32(b, off + 16)
    &&& e.number_of_func == le32(b, off + 20)
    &&& e.number_of_names == le32(b, off + 24)
    &&& e.address_of_functions == le32(b, off + 28)
    &&& e.address_of_names == le32(b, off + 32)
    &&& e.address_of_name_ordinals == le32(b, off + 36)
}

impl ExportDir {
    /// Resolves the export data-directory slot and decodes the directory
    /// record there.
    ///
    /// Absence is success: a missing slot, an address no section maps, or
    /// a record whose module-name field is zero all yield `Ok(None)`, the
    /// empty export table. Only a record that runs past the end of the
    /// image is an error.
    pub fn new(
        d: &Vec<u8>,
        nt_head: &NtHeaders,
        image_section_headers: &ImageSectionHeaders,
        data_dir: &DataDirectory,
    ) -> (r: Result<Option<ExportDir>, PeError>)
        requires
            image_section_headers.0@.len() >= nt_head.spec_section_number(),
        ensures
            data_dir.0@.len() == 0 ==> r == Ok::<Option<ExportDir>, PeError>(None),
            data_dir.0@.len() > 0 ==> {
                let fo = spec_rva_2_fo(
                    image_section_headers.0@,
                    nt_head.spec_section_number() as int,
                    data_dir.0@[0].virtual_address,
                );
                &&& fo is None ==> r == Ok::<Option<ExportDir>, PeError>(None)
                &&& fo is Some ==> {
                    let o = fo->0 as int;
                    &&& o + 40 > d@.len() ==> r == Err::<Option<ExportDir>, PeError>(
                        PeError::Truncated,
                    )
                    &&& o + 40 <= d@.len() && le32(d@, o + 12) == 0 ==> r == Ok::<
                        Option<ExportDir>,
                        PeError,
                    >(None)
                    &&& o + 40 <= d@.len() && le32(d@, o + 12) != 0 ==> {
                        &&& r is Ok
                        &&& r->Ok_0 is Some
                        &&& export_dir_matches(d@, o, r->Ok_0->0)
                    }
                }
            },
    {
        let va = match data_dir.get_export_directory_address() {
            Ok(va) => va,
            Err(_) => { return Ok(None) },
        };
        let fo = match rva_2_fo(nt_head, image_section_headers, va) {
            Some(fo) => fo,
            None => { return Ok(None) },
        };
        let o = fo as usize;
        if d.len() < 40 || o > d.len() - 40 {
            return Err(PeError::Truncated);
        }
        let e = ExportDir {
            characteristics: read_u32(d, o),
            time_data_stamp: read_u32(d, o + 4),
            major_vision: read_u16(d, o + 8),
            minor_version: read_u16(d, o + 10),
            name: read_u32(d, o + 12),
            base: read_u32(d, o + 16),
            number_of_func: read_u32(d, o + 20),
            number_of_names: read_u32(d, o + 24),
            address_of_functions: read_u32(d, o + 28),
            address_of_names: read_u32(d, o + 32),
            address_of_name_ordinals: read_u32(d, o + 36),
        };
        if e.name == 0 {
            return Ok(None);
        }
        Ok(Some(e))
    }
}

/// Whether the three cells of entry slot (`nfo`, `ffo`, `ofo`) lie inside
/// the image.
pub open spec fn export_cells_ok(b: Seq<u8>, nfo: int, ffo: int, ofo: int) -> bool {
    nfo + 4 <= b.len() && ffo + 4 <= b.len() && ofo + 2 <= b.len()
}

/// The name bytes of the export whose name string starts at `nsfo`: a
/// window of at most 512 bytes, up to the first NUL (empty when the window
/// starts with one or holds none).
pub open spec fn spec_export_name_bytes(b: Seq<u8>, nsfo: int) -> Seq<u8> {
    let w = spec_window(b, nsfo, 512);
    w.subrange(0, spec_name_len(w))
}

/// Whether `info` holds exactly the entry read from the cells at `nfo`,
/// `ffo` and `ofo`: the decoded cell values, the translated name offset,
/// the name text and its recorded rewrite capacity.
pub open spec fn export_info_matches(
    b: Seq<u8>,
    ss: Seq<crate::section::ImageSectionHeader>,
    nsec: int,
    nfo: int,
    ffo: int,
    ofo: int,
    info: ExportInfo,
) -> bool {
    let nsfo_opt = spec_rva_2_fo(ss, nsec, le32(b, nfo));
    &&& nsfo_opt is Some
    &&& {
        let nsfo = nsfo_opt->0 as int;
        let w = spec_window(b, nsfo, 512);
        &&& info.name_rva == nfo
        &&& info.name_string_fo == nsfo
        &&& info.name_max_length == spec_name_cap(w)
        &&& (all_ascii(spec_export_name_bytes(b, nsfo)) ==> info.name@ == ascii_chars(
            spec_export_name_bytes(b, nsfo),
        ))
        &&& info.function_address == ffo
        &&& info.function == le32(b, ffo)
        &&& info.ordinals_address == ofo
        &&& info.ordinals == le16(b, ofo)
    }
}

impl ExportInfo {
    /// Reads one export entry: the name-RVA cell at `name_file_offset`,
    /// the function cell at `function_array_file_offset`, the ordinal cell
    /// at `ordinals_array_file_offset`, and the name string the name RVA
    /// points to.
    ///
    /// A name RVA that no section maps yields `Ok(None)`: that entry has
    /// no result, and the caller's cursors advance past it all the same.
    pub fn new(
        name_file_offset: u32,
        function_array_file_offset: u32,
        ordinals_array_file_offset: u32,
        d: &Vec<u8>,
        nt_head: &NtHeaders,
        section_headers: &ImageSectionHeaders,
    ) -> (r: Result<Option<ExportInfo>, PeError>)
        requires
            section_headers.0@.len() >= nt_head.spec_section_number(),
        ensures
            !export_cells_ok(
                d@,
                name_file_offset as int,
                function_array_file_offset as int,
                ordinals_array_file_offset as int,
            ) ==> r == Err::<Option<ExportInfo>, PeError>(PeError::Truncated),
            export_cells_ok(
                d@,
                name_file_offset as int,
                function_array_file_offset as int,
                ordinals_array_file_offset as int,
            ) ==> {
                let nsfo_opt = spec_rva_2_fo(
                    section_headers.0@,
                    nt_head.spec_section_number() as int,
                    le32(d@, name_file_offset as int),
                );
                &&& nsfo_opt is None ==> r == Ok::<Option<ExportInfo>, PeError>(None)
                &&& nsfo_opt is Some ==> {
                    &&& r is Ok
                    &&& r->Ok_0 is Some
                    &&& export_info_matches(
                        d@,
                        section_headers.0@,
                        nt_head.spec_section_number() as int,
                        name_file_offset as int,
                        function_array_file_offset as int,
                        ordinals_array_file_offset as int,
                        r->Ok_0->0,
                    )
                }
            },
    {
        let nfo = name_file_offset as usize;
        let ffo = function_array_file_offset as usize;
        let ofo = ordinals_array_file_offset as usize;
        let n = d.len();
        if n < 4 || nfo > n - 4 || ffo > n - 4 || n < 2 || ofo > n - 2 {
            return Err(PeError::Truncated);
        }
        let name_rva = read_u32(d, nfo);
        let function = read_u32(d, ffo);
        let ordinals = read_u16(d, ofo);
        let name_string_fo = match rva_2_fo(nt_head, section_headers, name_rva) {
            Some(fo) => fo,
            None => { return Ok(None) },
        };
        let w = take_window(d, name_string_fo as usize, 512);
        let name_length = scan_name_len(&w);
        let name_max_length = scan_name_cap(&w);
        let name_bytes = take_window(&w, 0, name_length);
        proof {
            assert(name_bytes@ =~= spec_export_name_bytes(d@, name_string_fo as int));
        }
        let name = bytes_to_string_lossy(&name_bytes);
        Ok(
            Some(
                ExportInfo {
                    name_rva: name_file_offset,
                    name_string_fo,
                    name_max_length: name_max_length as u32,
                    name,
                    function_address: function_array_file_offset,
                    function,
                    ordinals_address: ordinals_array_file_offset,
                    ordinals,
                },
            ),
        )
    }
}

/// Whether entry slot `j` of the table keeps an entry: its name RVA
/// translates to a file offset.
pub open spec fn export_kept(
    b: Seq<u8>,
    ss: Seq<crate::section::ImageSectionHeader>,
    nsec: int,
    na0: int,
    j: int,
) -> bool {
    spec_rva_2_fo(ss, nsec, le32(b, na0 + 4 * j)) is Some
}

/// How many of the first `j` entry slots keep an entry.
pub open spec fn export_kept_count(
    b: Seq<u8>,
    ss: Seq<crate::section::ImageSectionHeader>,
    nsec: int,
    na0: int,
    j: int,
) -> int
    decreases j,
{
    if j <= 0 {
        0
    } else {
        export_kept_count(b, ss, nsec, na0, j - 1) + (if export_kept(b, ss, nsec, na0, j - 1) {
            1int
        } else {
            0int
        })
    }
}

/// Whether entry slot `j` cannot be read: one of its three cells falls
/// outside the image, or a cursor outgrows 32 bits.
pub open spec fn export_slot_bad(b: Seq<u8>, na0: int, fa0: int, oa0: int, j: int) -> bool {
    ||| !export_cells_ok(b, na0 + 4 * j, fa0 + 4 * j, oa0 + 2 * j)
    ||| na0 + 4 * j + 4 > u32::MAX
    ||| fa0 + 4 * j + 4 > u32::MAX
    ||| oa0 + 2 * j + 2 > u32::MAX
}

/// What a decoded export table holds: one entry per kept slot among the
/// `n` read, in slot order, each matching its three cells.
pub open spec fn export_table_matches(
    b: Seq<u8>,
    ss: Seq<crate::section::ImageSectionHeader>,
    nsec: int,
    na0: int,
    fa0: int,
    oa0: int,
    n: int,
    t: ExportTable,
) -> bool {
    &&& t.0@.len() == export_kept_count(b, ss, nsec, na0, n)
    &&& forall|j: int|
        0 <= j < n && #[trigger] export_kept(b, ss, nsec, na0, j) ==> export_info_matches(
            b,
            ss,
            nsec,
            na0 + 4 * j,
            fa0 + 4 * j,
            oa0 + 2 * j,
            t.0@[export_kept_count(b, ss, nsec, na0, j)],
        )
}

/// Whether some of the `n` entry slots cannot be read.
pub open spec fn export_some_slot_bad(
    b: Seq<u8>,
    na0: int,
    fa0: int,
    oa0: int,
    n: int,
) -> bool {
    exists|j: int| 0 <= j < n && #[trigger] export_slot_bad(b, na0, fa0, oa0, j)
}

/// The exact-count reading of the export walk, stated on its own: when
/// every name RVA among the `n` slots translates, the table keeps one
/// entry per slot, so its length is exactly `number_of_names` — never
/// `number_of_func`, which the walk ignores. Slots whose name RVA no
/// section maps are the one exception: each yields no entry.
pub proof fn lemma_export_all_names_kept(
    b: Seq<u8>,
    ss: Seq<crate::section::ImageSectionHeader>,
    nsec: int,
    na0: int,
    n: int,
)
    requires
        0 <= n,
        forall|j: int| 0 <= j < n ==> #[trigger] export_kept(b, ss, nsec, na0, j),
    ensures
        export_kept_count(b, ss, nsec, na0, n) == n,
    decreases n,
{
    if n > 0 {
        lemma_export_all_names_kept(b, ss, nsec, na0, n - 1);
    }
}

/// The kept count is a count: it is never negative.
pub proof fn lemma_export_kept_count_nonneg(
    b: Seq<u8>,
    ss: Seq<crate::section::ImageSectionHeader>,
    nsec: int,
    na0: int,
    j: int,
)
    ensures
        export_kept_count(b, ss, nsec, na0, j) >= 0,
    decreases j,
{
    if j > 0 {
        lemma_export_kept_count_nonneg(b, ss, nsec, na0, j - 1);
    }
}

/// The kept count never falls as more slots are scanned, and a kept slot
/// takes a place of its own below the later counts.
pub proof fn lemma_export_kept_count_mono(
    b: Seq<u8>,
    ss: Seq<crate::section::ImageSectionHeader>,
    nsec: int,
    na0: int,
    k: int,
    j: int,
)
    requires
        0 <= k < j,
    ensures
        export_kept_count(b, ss, nsec, na0, k) + (if export_kept(b, ss, nsec, na0, k) {
            1int
        } else {
            0int
        }) <= export_kept_count(b, ss, nsec, na0, j),
    decreases j,
{
    if k < j - 1 {
        lemma_export_kept_count_mono(b, ss, nsec, na0, k, j - 1);
    }
}

/// Whether the whole export read succeeds: an absent directory in any of
/// its forms, or a present record inside the image whose three arrays
/// translate and whose entry slots can all be read.
pub open spec fn spec_export_read_ok(
    b: Seq<u8>,
    ss: Seq<crate::section::ImageSectionHeader>,
    nsec: int,
    dd: DataDirectory,
) -> bool {
    if dd.0@.len() == 0 {
        true
    } else {
        match spec_rva_2_fo(ss, nsec, dd.0@[0].virtual_address) {
            None => true,
            Some(fo) => {
                let o = fo as int;
                &&& o + 40 <= b.len()
                &&& (le32(b, o + 12) != 0 ==> {
                    let na = spec_rva_2_fo(ss, nsec, le32(b, o + 32));
                    let fa = spec_rva_2_fo(ss, nsec, le32(b, o + 28));
                    let oa = spec_rva_2_fo(ss, nsec, le32(b, o + 36));
                    &&& na is Some
                    &&& fa is Some
                    &&& oa is Some
                    &&& !export_some_slot_bad(
                        b,
                        na->0 as int,
                        fa->0 as int,
                        oa->0 as int,
                        le32(b, o + 24) as int,
                    )
                })
            },
        }
    }
}

/// Whether `t` is the image's export table: empty in every absent form,
/// else the named-entry table read through the directory's three arrays.
pub open spec fn spec_export_table_result(
    b: Seq<u8>,
    ss: Seq<crate::section::ImageSectionHeader>,
    nsec: int,
    dd: DataDirectory,
    t: ExportTable,
) -> bool {
    if dd.0@.len() == 0 {
        t.0@.len() == 0
    } else {
        match spec_rva_2_fo(ss, nsec, dd.0@[0].virtual_address) {
            None => t.0@.len() == 0,
            Some(fo) => {
                let o = fo as int;
                if le32(b, o + 12) == 0 {
                    t.0@.len() == 0
                } else {
                    let na = spec_rva_2_fo(ss, nsec, le32(b, o + 32));
                    let fa = spec_rva_2_fo(ss, nsec, le32(b, o + 28));
                    let oa = spec_rva_2_fo(ss, nsec, le32(b, o + 36));
                    &&& na is Some
                    &&& fa is Some
                    &&& oa is Some
                    &&& export_table_matches(
                        b,
                        ss,
                        nsec,
                        na->0 as int,
                        fa->0 as int,
                        oa->0 as int,
                        le32(b, o + 24) as int,
                        t,
                    )
                }
            },
        }
    }
}

/// What a copy of an export table keeps of the one it was taken from:
/// every entry's fields.
pub open spec fn export_tables_alike(a: ExportTable, b: ExportTable) -> bool {
    &&& a.0@.len() == b.0@.len()
    &&& forall|i: int|
        0 <= i < a.0@.len() ==> {
            &&& (#[trigger] a.0@[i]).name_rva == b.0@[i].name_rva
            &&& a.0@[i].name_string_fo == b.0@[i].name_string_fo
            &&& a.0@[i].name_max_length == b.0@[i].name_max_length
            &&& a.0@[i].name@ == b.0@[i].name@
            &&& a.0@[i].function_address == b.0@[i].function_address
            &&& a.0@[i].function == b.0@[i].function
            &&& a.0@[i].ordinals_address == b.0@[i].ordinals_address
            &&& a.0@[i].ordinals == b.0@[i].ordinals
        }
}

impl ExportTable {
    /// Walks the three parallel arrays of the export directory, reading
    /// exactly `number_of_names` entries; per entry the name cursor
    /// advances by 4, the function cursor by 4 and the ordinal cursor by 2
    /// bytes, whatever `number_of_func` says. Entries whose name RVA no
    /// section maps are passed over; the cursors advance regardless, and
    /// when every name maps the table keeps one entry per slot
    /// (`lemma_export_all_names_kept`).
    ///
    /// Fails with `Unmapped` when one of the three array addresses
    /// translates to no file offset, with `Truncated` when a cell falls
    /// outside the image or a cursor outgrows 32 bits.
    pub fn new(
        d: &Vec<u8>,
        nt_head: &NtHeaders,
        image_section_headers: &ImageSectionHeaders,
        export_dir: &ExportDir,
    ) -> (r: Result<ExportTable, PeError>)
        requires
            image_section_headers.0@.len() >= nt_head.spec_section_number(),
        ensures
            ({
                let ss = image_section_headers.0@;
                let nsec = nt_head.spec_section_number() as int;
                let na = spec_rva_2_fo(ss, nsec, export_dir.address_of_names);
                let fa = spec_rva_2_fo(ss, nsec, export_dir.address_of_functions);
                let oa = spec_rva_2_fo(ss, nsec, export_dir.address_of_name_ordinals);
                &&& (na is None || fa is None || oa is None) ==> r == Err::<ExportTable, PeError>(
                    PeError::Unmapped,
                )
                &&& na is Some && fa is Some && oa is Some ==> {
                    let na0 = na->0 as int;
                    let fa0 = fa->0 as int;
                    let oa0 = oa->0 as int;
                    let n = export_dir.number_of_names as int;
                    &&& r is Ok ==> export_table_matches(d@, ss, nsec, na0, fa0, oa0, n, r->Ok_0)
                    &&& (r is Ok <==> !export_some_slot_bad(d@, na0, fa0, oa0, n))
                    &&& r is Err ==> r == Err::<ExportTable, PeError>(PeError::Truncated)
                }
            }),
    {
        let ghost ss = image_section_headers.0@;
        let ghost nsec = nt_head.spec_section_number() as int;
        let na0 = match rva_2_fo(nt_head, image_section_headers, export_dir.address_of_names) {
            Some(fo) => fo,
            None => { return Err(PeError::Unmapped) },
        };
        let fa0 = match rva_2_fo(nt_head, image_section_headers, export_dir.address_of_functions) {
            Some(fo) => fo,
            None => { return Err(PeError::Unmapped) },
        };
        let oa0 = match rva_2_fo(
            nt_head,
            image_section_headers,
            export_dir.address_of_name_ordinals,
        ) {
            Some(fo) => fo,
            None => { return Err(PeError::Unmapped) },
        };
        let n = export_dir.number_of_names;
        let mut infos: Vec<ExportInfo> = Vec::new();
        let mut j: u32 = 0;
        while j < n
            invariant
                image_section_headers.0@ == ss,
                nt_head.spec_section_number() as int == nsec,
                image_section_headers.0@.len() >= nt_head.spec_section_number(),
                spec_rva_2_fo(ss, nsec, export_dir.address_of_names) == Some(na0),
                spec_rva_2_fo(ss, nsec, export_dir.address_of_functions) == Some(fa0),
                spec_rva_2_fo(ss, nsec, export_dir.address_of_name_ordinals) == Some(oa0),
                n == export_dir.number_of_names,
                0 <= j <= n,
                forall|k: int|
                    0 <= k < j ==> !export_slot_bad(d@, na0 as int, fa0 as int, oa0 as int, k),
                infos@.len() == export_kept_count(d@, ss, nsec, na0 as int, j as int),
                forall|k: int|
                    0 <= k < j && #[trigger] export_kept(d@, ss, nsec, na0 as int, k)
                        ==> export_info_matches(
                        d@,
                        ss,
                        nsec,
                        na0 + 4 * k,
                        fa0 + 4 * k,
                        oa0 + 2 * k,
                        infos@[export_kept_count(d@, ss, nsec, na0 as int, k)],
                    ),
            decreases n - j,
        {
            let name_cell: u64 = na0 as u64 + 4 * (j as u64);
            let func_cell: u64 = fa0 as u64 + 4 * (j as u64);
            let ord_cell: u64 = oa0 as u64 + 2 * (j as u64);
            if name_cell + 4 > u32::MAX as u64 || func_cell + 4 > u32::MAX as u64 || ord_cell + 2
                > u32::MAX as u64 {
                proof {
                    assert(export_slot_bad(d@, na0 as int, fa0 as int, oa0 as int, j as int));
                    assert(export_some_slot_bad(d@, na0 as int, fa0 as int, oa0 as int, n as int));
                }
                return Err(PeError::Truncated);
            }
            let entry = ExportInfo::new(
                name_cell as u32,
                func_cell as u32,
                ord_cell as u32,
                d,
                nt_head,
                image_section_headers,
            );
            let ghost prev = infos@;
            match entry {
                Err(e) => {
                    proof {
                        assert(export_slot_bad(d@, na0 as int, fa0 as int, oa0 as int, j as int));
                        assert(export_some_slot_bad(
                            d@,
                            na0 as int,
                            fa0 as int,
                            oa0 as int,
                            n as int,
                        ));
                    }
                    return Err(e);
                },
                Ok(Some(info)) => {
                    proof {
                        assert(!export_slot_bad(d@, na0 as int, fa0 as int, oa0 as int, j as int));
                    }
                    infos.push(info);
                    proof {
                        assert(export_kept(d@, ss, nsec, na0 as int, j as int));
                        assert(infos@[export_kept_count(d@, ss, nsec, na0 as int, j as int)]
                            == info);
                        assert(export_info_matches(
                            d@,
                            ss,
                            nsec,
                            na0 as int + 4 * (j as int),
                            fa0 as int + 4 * (j as int),
                            oa0 as int + 2 * (j as int),
                            info,
                        ));
                    }
                },
                Ok(None) => {
                    proof {
                        assert(!export_slot_bad(d@, na0 as int, fa0 as int, oa0 as int, j as int));
                        assert(!export_kept(d@, ss, nsec, na0 as int, j as int));
                    }
                },
            }
            proof {
                assert(export_kept_count(d@, ss, nsec, na0 as int, j + 1) == export_kept_count(
                    d@,
                    ss,
                    nsec,
                    na0 as int,
                    j as int,
                ) + (if export_kept(d@, ss, nsec, na0 as int, j as int) {
                    1int
                } else {
                    0int
                }));
                assert forall|k: int|
                    0 <= k < j + 1 && export_kept(d@, ss, nsec, na0 as int, k)
                        implies export_info_matches(
                    d@,
                    ss,
                    nsec,
                    na0 as int + 4 * k,
                    fa0 as int + 4 * k,
                    oa0 as int + 2 * k,
                    infos@[export_kept_count(d@, ss, nsec, na0 as int, k)],
                ) by {
                    if k < j {
                        lemma_export_kept_count_nonneg(d@, ss, nsec, na0 as int, k);
                        lemma_export_kept_count_mono(d@, ss, nsec, na0 as int, k, j as int);
                        assert(infos@[export_kept_count(d@, ss, nsec, na0 as int, k)]
                            == prev[export_kept_count(d@, ss, nsec, na0 as int, k)]);
                    }
                }
            }
            j = j + 1;
        }
        Ok(ExportTable(infos))
    }

    /// Hands out a copy of the table; the entries' fields are carried over
    /// one by one.
    pub fn fclone(&self) -> (r: Self)
        ensures
            export_tables_alike(r, *self),
    {
        let mut v: Vec<ExportInfo> = Vec::new();
        let mut i: usize = 0;
        while i < self.0.len()
            invariant
                0 <= i <= self.0@.len(),
                v@.len() == i,
                forall|k: int|
                    0 <= k < i ==> {
                        &&& (#[trigger] v@[k]).name_rva == self.0@[k].name_rva
                        &&& v@[k].name_string_fo == self.0@[k].name_string_fo
                        &&& v@[k].name_max_length == self.0@[k].name_max_length
                        &&& v@[k].name@ == self.0@[k].name@
                        &&& v@[k].function_address == self.0@[k].function_address
                        &&& v@[k].function == self.0@[k].function
                        &&& v@[k].ordinals_address == self.0@[k].ordinals_address
                        &&& v@[k].ordinals == self.0@[k].ordinals
                    },
            decreases self.0@.len() - i,
        {
            let e = &self.0[i];
            v.push(
                ExportInfo {
                    name_rva: e.name_rva,
                    name_string_fo: e.name_string_fo,
                    name_max_length: e.name_max_length,
                    name: e.name.clone(),
                    function_address: e.function_address,
                    function: e.function,
                    ordinals_address: e.ordinals_address,
                    ordinals: e.ordinals,
                },
            );
            i = i + 1;
        }
        ExportTable(v)
    }
}

} // verus!
